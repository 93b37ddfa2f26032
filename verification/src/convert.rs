//! The conversion of one image as a sequence of steps. The caller performs each
//! action with the image library and the file system, and reports back what came of
//! it; the conversion decides the next action, down to the file's result. Decoding is
//! tried from the file first and from the bytes in memory second; a failed resize,
//! colour or depth conversion keeps the image as it was.

use vstd::prelude::*;
use crate::encode::{
    lemma_encoder_matches_extension, output_extension, save_options, spec_output_extension,
    spec_save_options,
};
use crate::naming::{base_name, render_template, source_extension, spec_base_name, spec_render_template};
use crate::text::spec_replace;
use crate::options::ConvertOptions;
use crate::plan::{
    depth_cast, needs_srgb, resize_scale, spec_depth_cast, spec_needs_srgb, spec_resize_scale,
    SampleDepth,
};
use crate::report::{
    decode_error_message, simulates_crash, spec_decode_error_message, spec_simulates_crash,
    spec_success_message, success_message,
};
use crate::text::lowercase_of;

verus! {

/// Where a conversion stands: the action it waits to hear back about.
#[derive(Clone, Copy, PartialEq, Eq, Debug)]
pub enum Stage {
    DecodingFile,
    ReadingFile,
    DecodingBytes,
    Rotating,
    Resizing,
    ToSrgb,
    Casting,
    Naming,
    Writing,
    Finished,
}

/// What the caller is to do next.
#[derive(Debug, PartialEq)]
pub enum Action {
    /// Panic on purpose: the path asks for a simulated crash.
    Crash,
    /// Decode the image from its file.
    DecodeFile,
    /// Read the file's bytes.
    ReadFile,
    /// Decode the image from the bytes read.
    DecodeBytes,
    /// Turn the image upright by its orientation tag.
    AutoRotate,
    /// Resize by `numerator / denominator` with a Lanczos3 kernel.
    Resize { numerator: u32, denominator: u32 },
    /// Map the image to sRGB.
    ToSrgb,
    /// Cast the samples to this depth.
    Cast(SampleDepth),
    /// Find a free output name for `base` and `ext` in the output folder.
    PickName { base: String, ext: String },
    /// Write the image to the chosen path without its extension, followed by `encoder`.
    Write { encoder: String },
    /// The conversion is over, with this result for the file.
    Finish(Result<String, String>),
}

/// What came of the last action.
#[derive(Debug, PartialEq)]
pub enum Event {
    /// The image was decoded or transformed; the size of the image now held.
    Image { width: i32, height: i32 },
    /// The file's bytes were read.
    BytesRead,
    /// A free output name was found; its file name.
    Named(String),
    /// The image was written.
    Written,
    /// The action failed, with the error's text.
    Failed(String),
}

/// The mathematical form of an action.
pub enum ActionView {
    Crash,
    DecodeFile,
    ReadFile,
    DecodeBytes,
    AutoRotate,
    Resize(int, int),
    ToSrgb,
    Cast(SampleDepth),
    PickName(Seq<char>, Seq<char>),
    Write(Seq<char>),
    Finish(Result<Seq<char>, Seq<char>>),
}

/// The mathematical form of an event.
pub enum EventView {
    Image(i32, i32),
    BytesRead,
    Named(Seq<char>),
    Written,
    Failed(Seq<char>),
}

impl View for Action {
    type V = ActionView;

    open spec fn view(&self) -> ActionView {
        match self {
            Action::Crash => ActionView::Crash,
            Action::DecodeFile => ActionView::DecodeFile,
            Action::ReadFile => ActionView::ReadFile,
            Action::DecodeBytes => ActionView::DecodeBytes,
            Action::AutoRotate => ActionView::AutoRotate,
            Action::Resize { numerator, denominator } => ActionView::Resize(
                *numerator as int,
                *denominator as int,
            ),
            Action::ToSrgb => ActionView::ToSrgb,
            Action::Cast(d) => ActionView::Cast(*d),
            Action::PickName { base, ext } => ActionView::PickName(base@, ext@),
            Action::Write { encoder } => ActionView::Write(encoder@),
            Action::Finish(Ok(m)) => ActionView::Finish(Ok(m@)),
            Action::Finish(Err(e)) => ActionView::Finish(Err(e@)),
        }
    }
}

impl View for Event {
    type V = EventView;

    open spec fn view(&self) -> EventView {
        match self {
            Event::Image { width, height } => EventView::Image(*width, *height),
            Event::BytesRead => EventView::BytesRead,
            Event::Named(n) => EventView::Named(n@),
            Event::Written => EventView::Written,
            Event::Failed(t) => EventView::Failed(t@),
        }
    }
}

/// The mathematical form of a conversion: its stage, the options it reads, the source
/// file's stem, lowercase extension and name, the running number, the size of the
/// image held and the chosen output file name.
pub struct ConversionModel {
    pub stage: Stage,
    pub format: Seq<char>,
    pub preset: Seq<char>,
    pub metadata: Seq<char>,
    pub resize_mode: Seq<char>,
    pub resize_value: u32,
    pub bit_depth: Seq<char>,
    pub template: Seq<char>,
    pub stem: Seq<char>,
    pub original_ext: Seq<char>,
    pub input_name: Seq<char>,
    pub counter: usize,
    pub width: i32,
    pub height: i32,
    pub output_name: Seq<char>,
}

/// The conversion of one image.
pub struct Conversion {
    stage: Stage,
    options: ConvertOptions,
    stem: String,
    original_ext: String,
    input_name: String,
    counter: usize,
    width: i32,
    height: i32,
    output_name: String,
}

impl View for Conversion {
    type V = ConversionModel;

    closed spec fn view(&self) -> ConversionModel {
        ConversionModel {
            stage: self.stage,
            format: self.options.format@,
            preset: self.options.preset@,
            metadata: self.options.metadata@,
            resize_mode: self.options.resize_mode@,
            resize_value: self.options.resize_value,
            bit_depth: self.options.bit_depth@,
            template: self.options.rename_template@,
            stem: self.stem@,
            original_ext: self.original_ext@,
            input_name: self.input_name@,
            counter: self.counter,
            width: self.width,
            height: self.height,
            output_name: self.output_name@,
        }
    }
}

/// The conversion with another stage.
pub open spec fn at_stage(c: ConversionModel, s: Stage) -> ConversionModel {
    ConversionModel { stage: s, ..c }
}

/// The conversion holding an image of another size.
pub open spec fn with_size(c: ConversionModel, width: i32, height: i32) -> ConversionModel {
    ConversionModel { width: width, height: height, ..c }
}

/// The end of a conversion with result `r`.
pub open spec fn spec_finish(c: ConversionModel, r: Result<Seq<char>, Seq<char>>) -> (ConversionModel, ActionView) {
    (at_stage(c, Stage::Finished), ActionView::Finish(r))
}

/// Once the image is processed: find a free name for the expanded template.
pub open spec fn spec_pick_name(c: ConversionModel) -> (ConversionModel, ActionView) {
    let stem = spec_render_template(c.template, c.stem, c.width as int, c.height as int, c.original_ext, c.counter as nat);
    (
        at_stage(c, Stage::Naming),
        ActionView::PickName(spec_base_name(stem, c.original_ext, c.preset), spec_output_extension(c.format)),
    )
}

/// After the colour mapping: cast the samples if the options ask for it.
pub open spec fn spec_after_colour(c: ConversionModel) -> (ConversionModel, ActionView) {
    match spec_depth_cast(c.bit_depth, c.format) {
        Some(d) => (at_stage(c, Stage::Casting), ActionView::Cast(d)),
        None => spec_pick_name(c),
    }
}

/// After resizing: map to sRGB for the formats that need it.
pub open spec fn spec_after_resize(c: ConversionModel) -> (ConversionModel, ActionView) {
    if spec_needs_srgb(c.format) {
        (at_stage(c, Stage::ToSrgb), ActionView::ToSrgb)
    } else {
        spec_after_colour(c)
    }
}

/// After turning the image upright: resize it if the options ask for it.
pub open spec fn spec_after_rotation(c: ConversionModel) -> (ConversionModel, ActionView) {
    match spec_resize_scale(c.resize_mode, c.resize_value, c.width, c.height) {
        Some((n, d)) => (at_stage(c, Stage::Resizing), ActionView::Resize(n, d)),
        None => spec_after_resize(c),
    }
}

/// The conversion's next state and action once `e` is reported, or `None` when `e` does
/// not answer the action the conversion waits on.
pub open spec fn spec_step(c: ConversionModel, e: EventView) -> Option<(ConversionModel, ActionView)> {
    match c.stage {
        Stage::DecodingFile => match e {
            EventView::Image(w, h) => Some((at_stage(with_size(c, w, h), Stage::Rotating), ActionView::AutoRotate)),
            EventView::Failed(_) => Some((at_stage(c, Stage::ReadingFile), ActionView::ReadFile)),
            _ => None,
        },
        Stage::ReadingFile => match e {
            EventView::BytesRead => Some((at_stage(c, Stage::DecodingBytes), ActionView::DecodeBytes)),
            EventView::Failed(t) => Some(spec_finish(c, Err("读取文件失败: "@ + t))),
            _ => None,
        },
        Stage::DecodingBytes => match e {
            EventView::Image(w, h) => Some((at_stage(with_size(c, w, h), Stage::Rotating), ActionView::AutoRotate)),
            EventView::Failed(t) => Some(spec_finish(c, Err(spec_decode_error_message(c.original_ext, t)))),
            _ => None,
        },
        Stage::Rotating => match e {
            EventView::Image(w, h) => Some(spec_after_rotation(with_size(c, w, h))),
            EventView::Failed(t) => Some(spec_finish(c, Err("自动旋转失败: "@ + t))),
            _ => None,
        },
        Stage::Resizing => match e {
            EventView::Image(w, h) => Some(spec_after_resize(with_size(c, w, h))),
            EventView::Failed(_) => Some(spec_after_resize(c)),
            _ => None,
        },
        Stage::ToSrgb => match e {
            EventView::Image(w, h) => Some(spec_after_colour(with_size(c, w, h))),
            EventView::Failed(_) => Some(spec_after_colour(c)),
            _ => None,
        },
        Stage::Casting => match e {
            EventView::Image(w, h) => Some(spec_pick_name(with_size(c, w, h))),
            EventView::Failed(_) => Some(spec_pick_name(c)),
            _ => None,
        },
        Stage::Naming => match e {
            EventView::Named(n) => {
                let named = ConversionModel { output_name: n, ..c };
                match spec_save_options(c.format, c.preset, c.metadata) {
                    Some(s) => Some((at_stage(named, Stage::Writing), ActionView::Write(s))),
                    None => Some(spec_finish(named, Err("不支持的格式"@))),
                }
            },
            _ => None,
        },
        Stage::Writing => match e {
            EventView::Written => Some(spec_finish(c, Ok(spec_success_message(c.input_name, c.output_name)))),
            EventView::Failed(t) => Some(spec_finish(c, Err("编码失败: "@ + t))),
            _ => None,
        },
        Stage::Finished => None,
    }
}

fn prefixed(prefix: &str, text: &str) -> (r: String)
    ensures
        r@ == prefix@ + text@,
{
    let mut r = String::from_str(prefix);
    r.append(text);
    r
}

impl Conversion {
    /// The conversion of the file at `path`, whose file name is `input_name`, stem
    /// `stem` and extension `raw_ext`, as image number `counter` of a batch with
    /// `options`. It starts by decoding the file, or by crashing on purpose when the
    /// path asks for it.
    pub fn start(
        options: ConvertOptions,
        path: &str,
        input_name: &str,
        stem: &str,
        raw_ext: &str,
        counter: usize,
    ) -> (r: (Conversion, Action))
        ensures
            r.0@.format == options.format@,
            r.0@.preset == options.preset@,
            r.0@.metadata == options.metadata@,
            r.0@.resize_mode == options.resize_mode@,
            r.0@.resize_value == options.resize_value,
            r.0@.bit_depth == options.bit_depth@,
            r.0@.template == options.rename_template@,
            r.0@.stem == stem@,
            r.0@.original_ext == lowercase_of(raw_ext@),
            r.0@.input_name == input_name@,
            r.0@.counter == counter,
            r.0@.width == 0 && r.0@.height == 0,
            r.0@.output_name == Seq::<char>::empty(),
            spec_simulates_crash(path@) ==> r.0@.stage == Stage::Finished && r.1@ == ActionView::Crash,
            !spec_simulates_crash(path@) ==> r.0@.stage == Stage::DecodingFile && r.1@
                == ActionView::DecodeFile,
    {
        let crash = simulates_crash(path);
        let c = Conversion {
            stage: if crash {
                Stage::Finished
            } else {
                Stage::DecodingFile
            },
            options,
            stem: String::from_str(stem),
            original_ext: source_extension(raw_ext),
            input_name: String::from_str(input_name),
            counter,
            width: 0,
            height: 0,
            output_name: String::new(),
        };
        if crash {
            (c, Action::Crash)
        } else {
            (c, Action::DecodeFile)
        }
    }

    /// The stage the conversion is at.
    pub fn stage(&self) -> (s: Stage)
        ensures
            s == self@.stage,
    {
        self.stage
    }

    fn finish(&mut self, r: Result<String, String>) -> (a: Action)
        ensures
            final(self)@ == at_stage(old(self)@, Stage::Finished),
            a@ == match r {
                Ok(m) => ActionView::Finish(Ok(m@)),
                Err(e) => ActionView::Finish(Err(e@)),
            },
    {
        self.stage = Stage::Finished;
        Action::Finish(r)
    }

    fn pick_name(&mut self) -> (a: Action)
        ensures
            (final(self)@, a@) == spec_pick_name(old(self)@),
    {
        let stem = render_template(
            self.options.rename_template.as_str(),
            self.stem.as_str(),
            self.width,
            self.height,
            self.original_ext.as_str(),
            self.counter,
        );
        let base = base_name(stem.as_str(), self.original_ext.as_str(), self.options.preset.as_str());
        let ext = output_extension(self.options.format.as_str());
        self.stage = Stage::Naming;
        Action::PickName { base, ext }
    }

    fn after_colour(&mut self) -> (a: Action)
        ensures
            (final(self)@, a@) == spec_after_colour(old(self)@),
    {
        match depth_cast(self.options.bit_depth.as_str(), self.options.format.as_str()) {
            Some(d) => {
                self.stage = Stage::Casting;
                Action::Cast(d)
            },
            None => self.pick_name(),
        }
    }

    fn after_resize(&mut self) -> (a: Action)
        ensures
            (final(self)@, a@) == spec_after_resize(old(self)@),
    {
        if needs_srgb(self.options.format.as_str()) {
            self.stage = Stage::ToSrgb;
            Action::ToSrgb
        } else {
            self.after_colour()
        }
    }

    fn after_rotation(&mut self) -> (a: Action)
        ensures
            (final(self)@, a@) == spec_after_rotation(old(self)@),
    {
        match resize_scale(
            self.options.resize_mode.as_str(),
            self.options.resize_value,
            self.width,
            self.height,
        ) {
            Some((n, d)) => {
                self.stage = Stage::Resizing;
                Action::Resize { numerator: n, denominator: d }
            },
            None => self.after_resize(),
        }
    }

    /// Reports what came of the last action and returns the next one, or `None` (with
    /// the conversion unchanged) when `event` does not answer the action it waits on.
    pub fn step(&mut self, event: Event) -> (r: Option<Action>)
        ensures
            match spec_step(old(self)@, event@) {
                Some((c, a)) => final(self)@ == c && (r matches Some(x) && x@ == a),
                None => final(self)@ == old(self)@ && r is None,
            },
    {
        match self.stage {
            Stage::DecodingFile => match event {
                Event::Image { width, height } => {
                    self.width = width;
                    self.height = height;
                    self.stage = Stage::Rotating;
                    Some(Action::AutoRotate)
                },
                Event::Failed(_) => {
                    self.stage = Stage::ReadingFile;
                    Some(Action::ReadFile)
                },
                _ => None,
            },
            Stage::ReadingFile => match event {
                Event::BytesRead => {
                    self.stage = Stage::DecodingBytes;
                    Some(Action::DecodeBytes)
                },
                Event::Failed(t) => Some(self.finish(Err(prefixed("读取文件失败: ", t.as_str())))),
                _ => None,
            },
            Stage::DecodingBytes => match event {
                Event::Image { width, height } => {
                    self.width = width;
                    self.height = height;
                    self.stage = Stage::Rotating;
                    Some(Action::AutoRotate)
                },
                Event::Failed(t) => {
                    let m = decode_error_message(self.original_ext.as_str(), t.as_str());
                    Some(self.finish(Err(m)))
                },
                _ => None,
            },
            Stage::Rotating => match event {
                Event::Image { width, height } => {
                    self.width = width;
                    self.height = height;
                    Some(self.after_rotation())
                },
                Event::Failed(t) => Some(self.finish(Err(prefixed("自动旋转失败: ", t.as_str())))),
                _ => None,
            },
            Stage::Resizing => match event {
                Event::Image { width, height } => {
                    self.width = width;
                    self.height = height;
                    Some(self.after_resize())
                },
                Event::Failed(_) => Some(self.after_resize()),
                _ => None,
            },
            Stage::ToSrgb => match event {
                Event::Image { width, height } => {
                    self.width = width;
                    self.height = height;
                    Some(self.after_colour())
                },
                Event::Failed(_) => Some(self.after_colour()),
                _ => None,
            },
            Stage::Casting => match event {
                Event::Image { width, height } => {
                    self.width = width;
                    self.height = height;
                    Some(self.pick_name())
                },
                Event::Failed(_) => Some(self.pick_name()),
                _ => None,
            },
            Stage::Naming => match event {
                Event::Named(n) => {
                    self.output_name = n;
                    match save_options(
                        self.options.format.as_str(),
                        self.options.preset.as_str(),
                        self.options.metadata.as_str(),
                    ) {
                        Ok(s) => {
                            self.stage = Stage::Writing;
                            Some(Action::Write { encoder: s })
                        },
                        Err(e) => Some(self.finish(Err(e))),
                    }
                },
                _ => None,
            },
            Stage::Writing => match event {
                Event::Written => {
                    let m = success_message(self.input_name.as_str(), self.output_name.as_str());
                    Some(self.finish(Ok(m)))
                },
                Event::Failed(t) => Some(self.finish(Err(prefixed("编码失败: ", t.as_str())))),
                _ => None,
            },
            Stage::Finished => None,
        }
    }
}

/// The position of a stage in the order a conversion passes through.
pub open spec fn stage_rank(s: Stage) -> nat {
    match s {
        Stage::DecodingFile => 0,
        Stage::ReadingFile => 1,
        Stage::DecodingBytes => 2,
        Stage::Rotating => 3,
        Stage::Resizing => 4,
        Stage::ToSrgb => 5,
        Stage::Casting => 6,
        Stage::Naming => 7,
        Stage::Writing => 8,
        Stage::Finished => 9,
    }
}

/// A conversion never goes back: every accepted event moves it to a later stage, so it
/// ends after at most nine steps; it reads the same options all along, and it ends
/// exactly when its action is `Finish`.
pub proof fn lemma_step_advances(c: ConversionModel, e: EventView)
    ensures
        spec_step(c, e) matches Some((d, a)) ==> {
            &&& stage_rank(d.stage) > stage_rank(c.stage)
            &&& d.format == c.format && d.preset == c.preset && d.metadata == c.metadata
            &&& d.resize_mode == c.resize_mode && d.resize_value == c.resize_value
            &&& d.bit_depth == c.bit_depth && d.template == c.template
            &&& d.stem == c.stem && d.original_ext == c.original_ext
            &&& d.input_name == c.input_name && d.counter == c.counter
            &&& (d.stage == Stage::Finished <==> a is Finish)
        },
        c.stage == Stage::Finished ==> spec_step(c, e) is None,
{
}

/// The image is decoded from its file first; only when that fails are the file's
/// bytes read and decoded from memory.
pub proof fn lemma_file_first_then_memory(c: ConversionModel, t: Seq<char>)
    ensures
        c.stage == Stage::DecodingFile ==> spec_step(c, EventView::Failed(t)) == Some(
            (at_stage(c, Stage::ReadingFile), ActionView::ReadFile),
        ),
        c.stage == Stage::ReadingFile ==> spec_step(c, EventView::BytesRead) == Some(
            (at_stage(c, Stage::DecodingBytes), ActionView::DecodeBytes),
        ),
{
}

/// A failed resize, colour mapping or cast never ends the conversion: the image held
/// is kept, with its size, and the conversion goes on.
pub proof fn lemma_transform_failure_keeps_image(c: ConversionModel, t: Seq<char>)
    requires
        c.stage == Stage::Resizing || c.stage == Stage::ToSrgb || c.stage == Stage::Casting,
    ensures
        spec_step(c, EventView::Failed(t)) matches Some((d, a)) && !(a is Finish) && d.width
            == c.width && d.height == c.height,
{
}

/// The encoder a conversion writes with matches the extension it asked a free name
/// for: when it names a file it asks with `spec_output_extension(format)`, and when it
/// then writes, the encoder options start with `.`, that extension and `[`.
pub proof fn lemma_written_format_matches_name(c: ConversionModel, n: Seq<char>)
    requires
        c.stage == Stage::Naming,
    ensures
        spec_step(c, EventView::Named(n)) matches Some((d, ActionView::Write(s))) ==> s.take(
            spec_output_extension(c.format).len() + 2int,
        ) == "."@ + spec_output_extension(c.format) + "["@,
        spec_pick_name(c).1 matches ActionView::PickName(_, ext) && ext == spec_output_extension(
            c.format,
        ),
{
    lemma_encoder_matches_extension(c.format, c.preset, c.metadata);
}

/// The name a conversion asks for is made from the source file alone, never from the
/// target format: its placeholder `{ext}` and its extension part are the source file's
/// lowercase extension, so two conversions that differ only in the target format ask
/// for the same base name (with the target's extension).
pub proof fn lemma_name_uses_source_extension(c: ConversionModel, format: Seq<char>)
    ensures
        spec_pick_name(c).1 matches ActionView::PickName(base, ext) && base == spec_base_name(
            spec_render_template(
                c.template,
                c.stem,
                c.width as int,
                c.height as int,
                c.original_ext,
                c.counter as nat,
            ),
            c.original_ext,
            c.preset,
        ) && ext == spec_output_extension(c.format),
        spec_pick_name(c).1 matches ActionView::PickName(b1, _) && (spec_pick_name(
            ConversionModel { format: format, ..c },
        ).1 matches ActionView::PickName(b2, _) && b1 == b2),
{
}

/// With the template `{ext}` the name is the source extension twice, then the preset:
/// `png_png_high` for a PNG source whatever the target (for every extension shorter than
/// the placeholder `{counter}`, as every real one is).
pub proof fn lemma_ext_template(c: ConversionModel)
    requires
        c.template == "{ext}"@,
        c.original_ext.len() < 9,
    ensures
        spec_pick_name(c).1 matches ActionView::PickName(base, _) && base == c.original_ext + "_"@
            + c.original_ext + "_"@ + c.preset,
{
    reveal_strlit("{ext}");
    reveal_strlit("{original}");
    reveal_strlit("{width}");
    reveal_strlit("{height}");
    reveal_strlit("{counter}");
    let t = "{ext}"@;
    assert(spec_replace(t, "{original}"@, c.stem) == t);
    assert(spec_replace(t, "{width}"@, crate::text::spec_signed_decimal(c.width as int)) == t);
    assert(spec_replace(t, "{height}"@, crate::text::spec_signed_decimal(c.height as int)) == t);
    assert(t.take(5) =~= "{ext}"@);
    assert(t.skip(5) =~= Seq::<char>::empty());
    assert(spec_replace(Seq::<char>::empty(), "{ext}"@, c.original_ext) == Seq::<char>::empty());
    assert(spec_replace(t, "{ext}"@, c.original_ext) =~= c.original_ext);
    assert(spec_replace(
        c.original_ext,
        "{counter}"@,
        crate::text::spec_zero_pad(crate::text::spec_decimal(c.counter as nat), 4),
    ) == c.original_ext);
}

} // verus!
