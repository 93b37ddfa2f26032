//! Output file naming: the rename template, the base name of an output file, the
//! numbered candidates `name.ext`, `name (1).ext`, ... and the search that picks the
//! first candidate that does not exist yet.

use vstd::prelude::*;
use crate::text::{
    lemma_decimal_reads_back, decimal_string, lowercase, lowercase_of, replace_all, signed_decimal_string, spec_decimal, spec_replace,
    spec_signed_decimal, spec_zero_pad, zero_padded4,
};

verus! {

/// The highest number a candidate name can carry; that candidate is taken
/// without asking whether it exists.
pub const LAST_CANDIDATE: u32 = 9999;

/// The rename template expanded for one image: `{original}` becomes the source file
/// stem, `{width}` and `{height}` the size of the converted image, `{ext}` the source
/// extension and `{counter}` the running number with at least four digits. The
/// placeholders are replaced one after another, in that order.
pub open spec fn spec_render_template(
    template: Seq<char>,
    original: Seq<char>,
    width: int,
    height: int,
    ext: Seq<char>,
    counter: nat,
) -> Seq<char> {
    let a = spec_replace(template, "{original}"@, original);
    let b = spec_replace(a, "{width}"@, spec_signed_decimal(width));
    let c = spec_replace(b, "{height}"@, spec_signed_decimal(height));
    let d = spec_replace(c, "{ext}"@, ext);
    spec_replace(d, "{counter}"@, spec_zero_pad(spec_decimal(counter), 4))
}

/// The base of an output file name: stem, source extension and preset joined by `_`.
pub open spec fn spec_base_name(stem: Seq<char>, original_ext: Seq<char>, preset: Seq<char>) -> Seq<char> {
    stem + "_"@ + original_ext + "_"@ + preset
}

/// Candidate `index` for an output file: `base.ext` first, then `base (index).ext`.
pub open spec fn spec_candidate_name(base: Seq<char>, index: nat, ext: Seq<char>) -> Seq<char> {
    if index == 0 {
        base + "."@ + ext
    } else {
        base + " ("@ + spec_decimal(index) + ")."@ + ext
    }
}

/// The candidate the search settles on, asking from candidate `from` on: the first one
/// that does not exist, or candidate `LAST_CANDIDATE` when all before it exist.
pub open spec fn spec_settled_from(from: nat, taken: spec_fn(nat) -> bool) -> nat
    decreases LAST_CANDIDATE - from,
{
    if from >= LAST_CANDIDATE {
        LAST_CANDIDATE as nat
    } else if !taken(from) {
        from
    } else {
        spec_settled_from(from + 1, taken)
    }
}

/// The source extension as it appears in output names: the file's extension in lowercase.
pub fn source_extension(raw_ext: &str) -> (r: String)
    ensures
        r@ == lowercase_of(raw_ext@),
{
    lowercase(raw_ext)
}

/// The rename template expanded for one image (see `spec_render_template`).
pub fn render_template(
    template: &str,
    original: &str,
    width: i32,
    height: i32,
    ext: &str,
    counter: usize,
) -> (r: String)
    ensures
        r@ == spec_render_template(
            template@,
            original@,
            width as int,
            height as int,
            ext@,
            counter as nat,
        ),
{
    proof {
        reveal_strlit("{original}");
        reveal_strlit("{width}");
        reveal_strlit("{height}");
        reveal_strlit("{ext}");
        reveal_strlit("{counter}");
    }
    let w = signed_decimal_string(width as i64);
    let h = signed_decimal_string(height as i64);
    let n = zero_padded4(counter as u64);
    let a = replace_all(template, "{original}", original);
    let b = replace_all(a.as_str(), "{width}", w.as_str());
    let c = replace_all(b.as_str(), "{height}", h.as_str());
    let d = replace_all(c.as_str(), "{ext}", ext);
    replace_all(d.as_str(), "{counter}", n.as_str())
}

/// The base of an output file name for a stem, source extension and preset.
pub fn base_name(stem: &str, original_ext: &str, preset: &str) -> (r: String)
    ensures
        r@ == spec_base_name(stem@, original_ext@, preset@),
{
    let mut r = String::from_str(stem);
    r.append("_");
    r.append(original_ext);
    r.append("_");
    r.append(preset);
    r
}

/// Candidate `index` for an output file name.
pub fn candidate_name(base: &str, index: u32, ext: &str) -> (r: String)
    ensures
        r@ == spec_candidate_name(base@, index as nat, ext@),
{
    let mut r = String::from_str(base);
    if index == 0 {
        r.append(".");
    } else {
        r.append(" (");
        let n = decimal_string(index as u64);
        r.append(n.as_str());
        r.append(").");
    }
    r.append(ext);
    r
}

/// The search for a free output file name. It proposes candidates in order; the caller
/// answers for each whether a file of that name exists, until the search settles.
pub struct OutputNameSearch {
    base: String,
    ext: String,
    index: u32,
}

impl OutputNameSearch {
    #[verifier::type_invariant]
    spec fn wf(self) -> bool {
        self.index <= LAST_CANDIDATE
    }

    /// The base name the candidates are made from.
    pub closed spec fn base_view(self) -> Seq<char> {
        self.base@
    }

    /// The extension the candidates end with.
    pub closed spec fn ext_view(self) -> Seq<char> {
        self.ext@
    }

    /// The number of the current candidate.
    pub closed spec fn index_view(self) -> nat {
        self.index as nat
    }

    /// A search over the candidates of `base` and `ext`, starting at `base.ext`.
    pub fn new(base: &str, ext: &str) -> (s: Self)
        ensures
            s.base_view() == base@,
            s.ext_view() == ext@,
            s.index_view() == 0,
    {
        OutputNameSearch { base: String::from_str(base), ext: String::from_str(ext), index: 0 }
    }

    /// The name of the current candidate.
    pub fn candidate(&self) -> (r: String)
        ensures
            r@ == spec_candidate_name(self.base_view(), self.index_view(), self.ext_view()),
    {
        candidate_name(self.base.as_str(), self.index, self.ext.as_str())
    }

    /// Records whether the current candidate exists. Returns `true` when the search has
    /// settled: on the current candidate if it does not exist or is the last one, or on
    /// the next one when that is the last candidate. Otherwise moves on to the next
    /// candidate and returns `false`.
    pub fn record(&mut self, taken: bool) -> (settled: bool)
        ensures
            final(self).base_view() == old(self).base_view(),
            final(self).ext_view() == old(self).ext_view(),
            final(self).index_view() <= LAST_CANDIDATE,
            !taken || old(self).index_view() == LAST_CANDIDATE ==> settled
                && final(self).index_view() == old(self).index_view(),
            taken && old(self).index_view() < LAST_CANDIDATE ==> final(self).index_view()
                == old(self).index_view() + 1 && (settled <==> final(self).index_view()
                == LAST_CANDIDATE),
    {
        proof {
            use_type_invariant(&*self);
        }
        if !taken || self.index >= LAST_CANDIDATE {
            true
        } else {
            self.index = self.index + 1;
            self.index >= LAST_CANDIDATE
        }
    }
}

/// Driving the search from candidate `from` with truthful answers settles on
/// `spec_settled_from(from, taken)`: if the current candidate does not exist it is
/// chosen, if it exists the search goes on from the next one, and the last candidate
/// is chosen without asking.
pub proof fn lemma_search_step(from: nat, taken: spec_fn(nat) -> bool)
    requires
        from < LAST_CANDIDATE,
    ensures
        !taken(from) ==> spec_settled_from(from, taken) == from,
        taken(from) ==> spec_settled_from(from, taken) == spec_settled_from(from + 1, taken),
        spec_settled_from(LAST_CANDIDATE as nat, taken) == LAST_CANDIDATE,
{
}

/// The search settles on the first candidate that does not exist; only when every
/// candidate numbered below `LAST_CANDIDATE` exists does it settle on the last one,
/// which may exist too.
pub proof fn lemma_settles_on_first_free(from: nat, taken: spec_fn(nat) -> bool)
    requires
        from <= LAST_CANDIDATE,
    ensures
        from <= spec_settled_from(from, taken) <= LAST_CANDIDATE,
        forall|k: nat| from <= k < spec_settled_from(from, taken) ==> #[trigger] taken(k),
        spec_settled_from(from, taken) < LAST_CANDIDATE ==> !taken(spec_settled_from(from, taken)),
    decreases LAST_CANDIDATE - from,
{
    if from < LAST_CANDIDATE && taken(from) {
        lemma_settles_on_first_free(from + 1, taken);
    }
}

/// Different candidate numbers give different names, so the search never asks about
/// the same name twice; candidate 0 is `base.ext` and every other candidate carries its
/// number in brackets right after the base.
pub proof fn lemma_candidates_distinct(base: Seq<char>, ext: Seq<char>, i: nat, j: nat)
    requires
        i != j,
    ensures
        spec_candidate_name(base, i, ext) != spec_candidate_name(base, j, ext),
        spec_candidate_name(base, i, ext).take(base.len() as int) == base,
        i > 0 ==> spec_candidate_name(base, i, ext)[base.len() as int] == ' ',
        i == 0 ==> spec_candidate_name(base, i, ext)[base.len() as int] == '.',
{
    reveal_strlit(".");
    reveal_strlit(" (");
    reveal_strlit(").");
    let ni = spec_candidate_name(base, i, ext);
    let nj = spec_candidate_name(base, j, ext);
    assert(ni.take(base.len() as int) =~= base);
    assert(ni[base.len() as int] == (if i > 0 { ' ' } else { '.' }));
    assert(nj[base.len() as int] == (if j > 0 { ' ' } else { '.' }));
    if i > 0 && j > 0 {
        lemma_decimal_reads_back(i);
        lemma_decimal_reads_back(j);
        let di = spec_decimal(i);
        let dj = spec_decimal(j);
        if di.len() == dj.len() {
            if forall|k: int| 0 <= k < di.len() ==> di[k] == dj[k] {
                assert(di =~= dj);
            }
            let k = choose|k: int| 0 <= k < di.len() && di[k] != dj[k];
            assert(ni[base.len() + 2 + k] == di[k]);
            assert(nj[base.len() + 2 + k] == dj[k]);
        } else {
            assert(ni.len() != nj.len());
        }
    }
}

} // verus!
