# lumina_convert

The decision logic of a batch image converter, verified with Verus.

- `src/` is the library: encoder options per format and preset (`encode`), output
  naming and the rename template (`naming`), resize / colour / bit-depth decisions
  (`plan`), worker scheduling (`schedule`), folder-scan filtering (`scan`), per-file
  results and batch summaries (`report`), start-up search path (`setup`), the conversion of one image as a
  step machine (`convert`), and the
  string helpers they are built on (`text`).
- `app/` is the desktop shell: Tauri commands, directory walking, libvips decoding
  and encoding, the worker pool and progress events. It performs the actions that
  the library's `convert::Conversion` step machine and the other library functions
  decide on.
- `tests/` runs the library on concrete values.
