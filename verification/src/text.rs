//! Verified string helpers over the character view of `str` and `String`.

use vstd::prelude::*;

verus! {

broadcast use vstd::string::group_string_axioms;

/// The characters of `s`, in order.
pub fn chars_of(s: &str) -> (v: Vec<char>)
    ensures
        v@ == s@,
{
    let mut v: Vec<char> = Vec::new();
    for c in it: s.chars()
        invariant
            it.seq() == s@,
            v@ == it.seq().take(it.index()),
    {
        v.push(c);
    }
    v
}

/// Whether two strings hold the same characters.
pub fn str_eq(a: &str, b: &str) -> (r: bool)
    ensures
        r == (a@ == b@),
{
    let x = chars_of(a);
    let y = chars_of(b);
    if x.len() != y.len() {
        return false;
    }
    let mut i: usize = 0;
    while i < x.len()
        invariant
            x@ == a@,
            y@ == b@,
            x.len() == y.len(),
            i <= x.len(),
            forall|j: int| 0 <= j < i ==> x@[j] == y@[j],
        decreases x.len() - i,
    {
        if x[i] != y[i] {
            return false;
        }
        i = i + 1;
    }
    assert(x@ =~= y@);
    true
}


/// Whether `pat` occurs in `s` at character position `i`.
pub open spec fn occurs_at(s: Seq<char>, pat: Seq<char>, i: int) -> bool {
    0 <= i && i + pat.len() <= s.len() && s.subrange(i, i + pat.len()) == pat
}

/// Whether `pat` occurs anywhere in `s`; the empty pattern occurs in every string.
pub open spec fn spec_contains(s: Seq<char>, pat: Seq<char>) -> bool {
    exists|i: int| occurs_at(s, pat, i)
}

/// `s` with every occurrence of the non-empty `pat` replaced by `rep`, scanning left to
/// right and never letting two replaced occurrences overlap.
pub open spec fn spec_replace(s: Seq<char>, pat: Seq<char>, rep: Seq<char>) -> Seq<char>
    recommends
        pat.len() > 0,
    decreases s.len(),
{
    if s.len() < pat.len() || pat.len() == 0 {
        s
    } else if s.take(pat.len() as int) == pat {
        rep + spec_replace(s.skip(pat.len() as int), pat, rep)
    } else {
        seq![s[0]] + spec_replace(s.skip(1), pat, rep)
    }
}

fn matches_at(x: &Vec<char>, p: &Vec<char>, i: usize) -> (r: bool)
    requires
        i + p.len() <= x.len(),
    ensures
        r == occurs_at(x@, p@, i as int),
{
    let mut j: usize = 0;
    while j < p.len()
        invariant
            i + p.len() <= x.len(),
            j <= p.len(),
            forall|k: int| 0 <= k < j ==> x@[i + k] == p@[k],
        decreases p.len() - j,
    {
        if x[i + j] != p[j] {
            assert(x@.subrange(i as int, i + p.len())[j as int] != p@[j as int]);
            return false;
        }
        j = j + 1;
    }
    assert(x@.subrange(i as int, i + p.len()) =~= p@);
    true
}

/// Whether `pat` occurs in `s`.
pub fn contains_str(s: &str, pat: &str) -> (r: bool)
    ensures
        r == spec_contains(s@, pat@),
{
    let x = chars_of(s);
    let p = chars_of(pat);
    if p.len() == 0 {
        assert(s@.subrange(0, 0) =~= pat@);
        assert(occurs_at(s@, pat@, 0));
        return true;
    }
    if p.len() > x.len() {
        assert forall|i: int| !occurs_at(s@, pat@, i) by {}
        return false;
    }
    let mut i: usize = 0;
    let last = x.len() - p.len();
    while i <= last
        invariant
            x@ == s@,
            p@ == pat@,
            0 < p.len() <= x.len(),
            last == x.len() - p.len(),
            i <= last + 1,
            forall|j: int| 0 <= j < i ==> !occurs_at(s@, pat@, j),
        decreases last + 1 - i,
    {
        if matches_at(&x, &p, i) {
            assert(occurs_at(s@, pat@, i as int));
            return true;
        }
        i = i + 1;
    }
    assert forall|j: int| !occurs_at(s@, pat@, j) by {
        if 0 <= j < i {
        }
    }
    false
}

proof fn lemma_replace_step_match(s: Seq<char>, pat: Seq<char>, rep: Seq<char>, i: int)
    requires
        pat.len() > 0,
        occurs_at(s, pat, i),
    ensures
        spec_replace(s.skip(i), pat, rep) == rep + spec_replace(s.skip(i + pat.len()), pat, rep),
{
    let t = s.skip(i);
    assert(t.take(pat.len() as int) =~= s.subrange(i, i + pat.len()));
    assert(t.skip(pat.len() as int) =~= s.skip(i + pat.len()));
}

proof fn lemma_replace_step_other(s: Seq<char>, pat: Seq<char>, rep: Seq<char>, i: int)
    requires
        pat.len() > 0,
        0 <= i,
        i + pat.len() <= s.len(),
        !occurs_at(s, pat, i),
    ensures
        spec_replace(s.skip(i), pat, rep) == seq![s[i]] + spec_replace(s.skip(i + 1), pat, rep),
{
    let t = s.skip(i);
    assert(t.take(pat.len() as int) =~= s.subrange(i, i + pat.len()));
    assert(t.skip(1) =~= s.skip(i + 1));
}

/// `s` with every occurrence of `pat` replaced by `rep` (leftmost first, without overlap).
pub fn replace_all(s: &str, pat: &str, rep: &str) -> (r: String)
    requires
        pat@.len() > 0,
    ensures
        r@ == spec_replace(s@, pat@, rep@),
{
    let x = chars_of(s);
    let p = chars_of(pat);
    let n = x.len();
    let mut out = String::new();
    let mut last: usize = 0;
    let mut i: usize = 0;
    assert(s@.skip(0) =~= s@);
    while i < n && p.len() <= n - i
        invariant
            x@ == s@,
            p@ == pat@,
            n == x.len(),
            p.len() > 0,
            last <= i <= n,
            out@ + s@.subrange(last as int, i as int) + spec_replace(s@.skip(i as int), pat@, rep@)
                == spec_replace(s@, pat@, rep@),
        decreases n - i,
    {
        if matches_at(&x, &p, i) {
            proof {
                lemma_replace_step_match(s@, pat@, rep@, i as int);
            }
            let seg = s.substring_char(last, i);
            out.append(seg);
            out.append(rep);
            i = i + p.len();
            last = i;
            assert(s@.subrange(last as int, i as int) =~= Seq::<char>::empty());
        } else {
            proof {
                lemma_replace_step_other(s@, pat@, rep@, i as int);
                assert(s@.subrange(last as int, i as int) + seq![s@[i as int]] =~= s@.subrange(
                    last as int,
                    i + 1,
                ));
            }
            i = i + 1;
        }
    }
    assert(spec_replace(s@.skip(i as int), pat@, rep@) == s@.skip(i as int));
    let tail = s.substring_char(last, n);
    out.append(tail);
    assert(s@.subrange(last as int, i as int) + s@.skip(i as int) =~= s@.subrange(
        last as int,
        n as int,
    ));
    out
}


/// The character of the decimal digit `d`.
pub open spec fn digit_char(d: nat) -> char {
    if d == 0 {
        '0'
    } else if d == 1 {
        '1'
    } else if d == 2 {
        '2'
    } else if d == 3 {
        '3'
    } else if d == 4 {
        '4'
    } else if d == 5 {
        '5'
    } else if d == 6 {
        '6'
    } else if d == 7 {
        '7'
    } else if d == 8 {
        '8'
    } else {
        '9'
    }
}

/// The decimal notation of `n`, without sign or leading zeros.
pub open spec fn spec_decimal(n: nat) -> Seq<char>
    decreases n,
{
    if n < 10 {
        seq![digit_char(n)]
    } else {
        spec_decimal(n / 10).push(digit_char(n % 10))
    }
}

/// The decimal notation of `i`, with a leading `-` when it is negative.
pub open spec fn spec_signed_decimal(i: int) -> Seq<char> {
    if i < 0 {
        seq!['-'] + spec_decimal((-i) as nat)
    } else {
        spec_decimal(i as nat)
    }
}

/// `s` padded on the left with `'0'` up to `width` characters.
pub open spec fn spec_zero_pad(s: Seq<char>, width: nat) -> Seq<char> {
    if s.len() >= width {
        s
    } else {
        Seq::new((width - s.len()) as nat, |k: int| '0') + s
    }
}

fn digit_str(d: u64) -> (s: &'static str)
    requires
        d < 10,
    ensures
        s@ == seq![digit_char(d as nat)],
{
    match d {
        0 => {
            proof {
                reveal_strlit("0");
            }
            "0"
        },
        1 => {
            proof {
                reveal_strlit("1");
            }
            "1"
        },
        2 => {
            proof {
                reveal_strlit("2");
            }
            "2"
        },
        3 => {
            proof {
                reveal_strlit("3");
            }
            "3"
        },
        4 => {
            proof {
                reveal_strlit("4");
            }
            "4"
        },
        5 => {
            proof {
                reveal_strlit("5");
            }
            "5"
        },
        6 => {
            proof {
                reveal_strlit("6");
            }
            "6"
        },
        7 => {
            proof {
                reveal_strlit("7");
            }
            "7"
        },
        8 => {
            proof {
                reveal_strlit("8");
            }
            "8"
        },
        _ => {
            proof {
                reveal_strlit("9");
            }
            "9"
        },
    }
}

/// The decimal notation of `n`, as `n.to_string()` writes it.
pub fn decimal_string(n: u64) -> (r: String)
    ensures
        r@ == spec_decimal(n as nat),
    decreases n,
{
    if n < 10 {
        String::from_str(digit_str(n))
    } else {
        let mut r = decimal_string(n / 10);
        r.append(digit_str(n % 10));
        r
    }
}

/// The decimal notation of `i`, as `i.to_string()` writes it.
pub fn signed_decimal_string(i: i64) -> (r: String)
    ensures
        r@ == spec_signed_decimal(i as int),
{
    if i < 0 {
        let mut r = String::new();
        proof {
            reveal_strlit("-");
        }
        r.append("-");
        let magnitude: u64 = if i == i64::MIN {
            9223372036854775808u64
        } else {
            (-i) as u64
        };
        let digits = decimal_string(magnitude);
        r.append(digits.as_str());
        r
    } else {
        decimal_string(i as u64)
    }
}

/// `n` in decimal, padded with zeros to at least four digits, as `format!("{:04}", n)` writes it.
pub fn zero_padded4(n: u64) -> (r: String)
    ensures
        r@ == spec_zero_pad(spec_decimal(n as nat), 4),
{
    let digits = decimal_string(n);
    let len = digits.as_str().unicode_len();
    let mut r = String::new();
    let mut k: usize = len;
    proof {
        reveal_strlit("0");
    }
    while k < 4
        invariant
            "0"@ == seq!['0'],
            len == digits@.len(),
            len <= k <= 4 || (len > 4 && k == len),
            r@ == Seq::new((k - len) as nat, |j: int| '0'),
        decreases 4 - k,
    {
        r.append("0");
        k = k + 1;
        assert(r@ =~= Seq::new((k - len) as nat, |j: int| '0'));
    }
    r.append(digits.as_str());
    assert(r@ =~= spec_zero_pad(spec_decimal(n as nat), 4));
    r
}

/// The strings of `list` joined with `sep` between neighbours.
pub open spec fn spec_join(list: Seq<Seq<char>>, sep: Seq<char>) -> Seq<char>
    decreases list.len(),
{
    if list.len() == 0 {
        Seq::empty()
    } else if list.len() == 1 {
        list[0]
    } else {
        spec_join(list.drop_last(), sep) + sep + list.last()
    }
}

/// The character views of the strings of `list`.
pub open spec fn views(list: Seq<String>) -> Seq<Seq<char>> {
    list.map_values(|s: String| s@)
}

/// The strings of `list` joined with `sep`, as `list.join(sep)` writes it.
pub fn join_strings(list: &Vec<String>, sep: &str) -> (r: String)
    ensures
        r@ == spec_join(views(list@), sep@),
{
    let mut r = String::new();
    let ghost all = views(list@);
    let mut i: usize = 0;
    while i < list.len()
        invariant
            i <= list.len(),
            all == views(list@),
            r@ == spec_join(all.take(i as int), sep@),
        decreases list.len() - i,
    {
        if i != 0 {
            r.append(sep);
        }
        r.append(list[i].as_str());
        assert(all.take(i + 1).drop_last() =~= all.take(i as int));
        i = i + 1;
    }
    assert(all.take(list.len() as int) =~= all);
    r
}


/// What `str::to_lowercase` returns for a string: its Unicode lowercase mapping.
pub uninterp spec fn lowercase_of(s: Seq<char>) -> Seq<char>;

/// `str::to_lowercase`: the lowercase equivalent of `s` under Unicode's `Lowercase`
/// property. Its result depends on `s` alone; which characters it maps to which is
/// not stated here and is left to the name `lowercase_of`.
#[verifier::external_body]
pub(crate) fn lowercase(s: &str) -> (r: String)
    ensures
        r@ == lowercase_of(s@),
{
    s.to_lowercase()
}

/// The value of a decimal digit character (`'9'` for any other character).
pub open spec fn digit_value(c: char) -> nat {
    if c == '0' {
        0
    } else if c == '1' {
        1
    } else if c == '2' {
        2
    } else if c == '3' {
        3
    } else if c == '4' {
        4
    } else if c == '5' {
        5
    } else if c == '6' {
        6
    } else if c == '7' {
        7
    } else if c == '8' {
        8
    } else {
        9
    }
}

/// Whether `c` is one of the ten decimal digits.
pub open spec fn is_digit(c: char) -> bool {
    c == '0' || c == '1' || c == '2' || c == '3' || c == '4' || c == '5' || c == '6' || c == '7'
        || c == '8' || c == '9'
}

/// The number a string of decimal digits denotes.
pub open spec fn decimal_value(s: Seq<char>) -> nat
    decreases s.len(),
{
    if s.len() == 0 {
        0
    } else {
        decimal_value(s.drop_last()) * 10 + digit_value(s.last())
    }
}

proof fn lemma_digit_roundtrip(k: nat)
    requires
        k < 10,
    ensures
        digit_value(digit_char(k)) == k,
        is_digit(digit_char(k)),
        k > 0 ==> digit_char(k) != '0',
{
}

/// Decimal notation is right: it is made of digits only, it reads back as the number,
/// and it has no leading zero (only 0 itself starts with `0`).
pub proof fn lemma_decimal_reads_back(n: nat)
    ensures
        spec_decimal(n).len() >= 1,
        forall|i: int| 0 <= i < spec_decimal(n).len() ==> is_digit(#[trigger] spec_decimal(n)[i]),
        decimal_value(spec_decimal(n)) == n,
        n > 0 ==> spec_decimal(n)[0] != '0',
    decreases n,
{
    if n >= 10 {
        lemma_decimal_reads_back(n / 10);
        lemma_digit_roundtrip(n % 10);
        assert((n / 10) * 10 + n % 10 == n);
        let d = spec_decimal(n / 10);
        assert(spec_decimal(n) == d.push(digit_char((n % 10) as nat)));
        assert(spec_decimal(n).drop_last() =~= d);
        assert(spec_decimal(n).last() == digit_char((n % 10) as nat));
        assert(decimal_value(spec_decimal(n)) == decimal_value(d) * 10 + digit_value(
            digit_char((n % 10) as nat),
        ));
        assert(spec_decimal(n)[0] == d[0]);
        assert forall|i: int| 0 <= i < spec_decimal(n).len() implies is_digit(
            #[trigger] spec_decimal(n)[i],
        ) by {
            if i < d.len() {
                assert(spec_decimal(n)[i] == d[i]);
            }
        }
    } else {
        lemma_digit_roundtrip(n);
        assert(spec_decimal(n) == seq![digit_char(n)]);
        assert(seq![digit_char(n)].drop_last() =~= Seq::<char>::empty());
        assert(decimal_value(Seq::<char>::empty()) == 0);
        assert(decimal_value(seq![digit_char(n)]) == decimal_value(Seq::<char>::empty()) * 10
            + digit_value(digit_char(n)));
    }
}

proof fn lemma_leading_zeros(z: Seq<char>, s: Seq<char>)
    requires
        forall|i: int| 0 <= i < z.len() ==> z[i] == '0',
    ensures
        decimal_value(z + s) == decimal_value(s),
    decreases s.len() + z.len(),
{
    if s.len() == 0 {
        assert(z + s =~= z);
        if z.len() > 0 {
            lemma_leading_zeros(z.drop_last(), s);
            assert(z.drop_last() + s =~= z.drop_last());
        }
    } else {
        lemma_leading_zeros(z, s.drop_last());
        assert((z + s).drop_last() =~= z + s.drop_last());
    }
}

/// A number padded to four digits still reads as the number, has at least four
/// characters, and is made of digits only.
pub proof fn lemma_zero_pad_reads_back(n: nat)
    ensures
        decimal_value(spec_zero_pad(spec_decimal(n), 4)) == n,
        spec_zero_pad(spec_decimal(n), 4).len() >= 4,
        spec_zero_pad(spec_decimal(n), 4).len() == if spec_decimal(n).len() >= 4 {
            spec_decimal(n).len()
        } else {
            4
        },
        forall|i: int| 0 <= i < spec_zero_pad(spec_decimal(n), 4).len() ==> is_digit(
            #[trigger] spec_zero_pad(spec_decimal(n), 4)[i],
        ),
{
    lemma_decimal_reads_back(n);
    let d = spec_decimal(n);
    if d.len() < 4 {
        let z = Seq::new((4 - d.len()) as nat, |k: int| '0');
        lemma_leading_zeros(z, d);
        assert forall|i: int| 0 <= i < (z + d).len() implies is_digit(#[trigger] (z + d)[i]) by {
            if i >= z.len() {
                assert((z + d)[i] == d[i - z.len()]);
            }
        }
    }
}

/// Replacing a pattern that does not occur leaves the string as it is.
pub proof fn lemma_replace_absent(s: Seq<char>, pat: Seq<char>, rep: Seq<char>)
    requires
        pat.len() > 0,
        !spec_contains(s, pat),
    ensures
        spec_replace(s, pat, rep) == s,
    decreases s.len(),
{
    if s.len() >= pat.len() {
        assert(s.subrange(0, pat.len() as int) =~= s.take(pat.len() as int));
        assert(!occurs_at(s, pat, 0));
        let t = s.skip(1);
        assert forall|i: int| !occurs_at(t, pat, i) by {
            if occurs_at(t, pat, i) {
                assert(t.subrange(i, i + pat.len()) =~= s.subrange(i + 1, i + 1 + pat.len()));
                assert(occurs_at(s, pat, i + 1));
            }
        }
        lemma_replace_absent(t, pat, rep);
        assert(seq![s[0]] + t =~= s);
    }
}

/// Replacing a pattern by itself changes nothing.
pub proof fn lemma_replace_identity(s: Seq<char>, pat: Seq<char>)
    requires
        pat.len() > 0,
    ensures
        spec_replace(s, pat, pat) == s,
    decreases s.len(),
{
    if s.len() >= pat.len() {
        if s.take(pat.len() as int) == pat {
            lemma_replace_identity(s.skip(pat.len() as int), pat);
            assert(pat + s.skip(pat.len() as int) =~= s);
        } else {
            lemma_replace_identity(s.skip(1), pat);
            assert(seq![s[0]] + s.skip(1) =~= s);
        }
    }
}

} // verus!
