//! Text utilities over character sequences: splitting into fields and
//! lines, trimming white space, searching, and reading decimal numbers, each
//! with the meaning the standard library gives the same operation.

use vstd::prelude::*;

verus! {

// ----- splitting ----------------------------------------------------------------

/// The fields of `s` between occurrences of `sep` (`str::split` on a char):
/// there is always at least one field, and empty fields are kept.
pub open spec fn spec_split(s: Seq<char>, sep: char) -> Seq<Seq<char>>
    decreases s.len(),
{
    if s.len() == 0 {
        seq![Seq::<char>::empty()]
    } else {
        let f = spec_split(s.drop_last(), sep);
        if s.last() == sep {
            f.push(Seq::<char>::empty())
        } else {
            f.update(f.len() - 1, f.last().push(s.last()))
        }
    }
}

/// `spec_split` always yields at least one field.
pub proof fn lemma_split_nonempty(s: Seq<char>, sep: char)
    ensures
        spec_split(s, sep).len() >= 1,
    decreases s.len(),
{
    if s.len() > 0 {
        lemma_split_nonempty(s.drop_last(), sep);
    }
}

/// Text without the separator is a single field.
pub proof fn lemma_split_single(s: Seq<char>, sep: char)
    requires
        !s.contains(sep),
    ensures
        spec_split(s, sep) == seq![s],
    decreases s.len(),
{
    if s.len() > 0 {
        assert(!s.drop_last().contains(sep)) by {
            if s.drop_last().contains(sep) {
                let i = choose|i: int| 0 <= i < s.drop_last().len() && s.drop_last()[i] == sep;
                assert(s[i] == sep);
            }
        }
        lemma_split_single(s.drop_last(), sep);
        assert(s.last() != sep) by {
            assert(s[s.len() - 1] == s.last());
        }
        assert(s.drop_last().push(s.last()) =~= s);
        let f = spec_split(s.drop_last(), sep);
        assert(f.update(f.len() - 1, f.last().push(s.last())) =~= seq![s]);
    } else {
        assert(s =~= Seq::<char>::empty());
    }
}

/// Splitting at a separator: the fields before it, then those after it.
pub proof fn lemma_split_at_sep(a: Seq<char>, b: Seq<char>, sep: char)
    ensures
        spec_split(a.push(sep) + b, sep) == spec_split(a, sep) + spec_split(b, sep),
    decreases b.len(),
{
    let c = a.push(sep) + b;
    if b.len() == 0 {
        assert(c =~= a.push(sep));
        assert(c.drop_last() =~= a);
        assert(spec_split(a, sep).push(Seq::<char>::empty()) =~= spec_split(a, sep) + seq![
            Seq::<char>::empty(),
        ]);
    } else {
        let b1 = b.drop_last();
        lemma_split_at_sep(a, b1, sep);
        lemma_split_nonempty(b1, sep);
        assert(c.drop_last() =~= a.push(sep) + b1);
        assert(c.last() == b.last());
        let fa = spec_split(a, sep);
        let fb = spec_split(b1, sep);
        if b.last() == sep {
            assert((fa + fb).push(Seq::<char>::empty()) =~= fa + fb.push(Seq::<char>::empty()));
        } else {
            assert((fa + fb).update((fa + fb).len() - 1, (fa + fb).last().push(b.last())) =~= fa
                + fb.update(fb.len() - 1, fb.last().push(b.last())));
        }
    }
}

/// The views of a list of character vectors.
pub open spec fn vecs_view(v: Seq<Vec<char>>) -> Seq<Seq<char>> {
    v.map_values(|x: Vec<char>| x@)
}

/// Splits `s` into the fields between occurrences of `sep`.
pub fn split_on(s: &[char], sep: char) -> (r: Vec<Vec<char>>)
    ensures
        vecs_view(r@) == spec_split(s@, sep),
{
    let mut out: Vec<Vec<char>> = Vec::new();
    out.push(Vec::new());
    let mut i: usize = 0;
    assert(s@.subrange(0, 0) =~= Seq::<char>::empty());
    assert(vecs_view(out@) =~= spec_split(s@.subrange(0, 0), sep));
    while i < s.len()
        invariant
            i <= s@.len(),
            out@.len() >= 1,
            vecs_view(out@) == spec_split(s@.subrange(0, i as int), sep),
        decreases s@.len() - i,
    {
        let c = s[i];
        let ghost before = vecs_view(out@);
        let ghost pre = s@.subrange(0, i as int);
        let ghost post = s@.subrange(0, i + 1);
        assert(post.drop_last() =~= pre);
        if c == sep {
            out.push(Vec::new());
            assert(vecs_view(out@) =~= before.push(Seq::<char>::empty()));
        } else {
            let last = out.len() - 1;
            let mut cur = out.pop().unwrap();
            cur.push(c);
            out.push(cur);
            assert(vecs_view(out@) =~= before.update(before.len() - 1, before.last().push(c)));
        }
        i = i + 1;
    }
    assert(s@.subrange(0, i as int) =~= s@);
    out
}

/// The field `n` of `s` split on `sep`, if there are that many.
pub open spec fn spec_field(s: Seq<char>, sep: char, n: int) -> Option<Seq<char>> {
    let f = spec_split(s, sep);
    if 0 <= n < f.len() {
        Some(f[n])
    } else {
        None
    }
}

/// `s` without one final `'\r'`.
pub open spec fn spec_strip_cr(s: Seq<char>) -> Seq<char> {
    if s.len() > 0 && s.last() == '\r' {
        s.drop_last()
    } else {
        s
    }
}

/// The lines of `s` (`str::lines`): the text is cut at each `'\n'`; a line
/// that ended with `"\r\n"` loses its `'\r'`; a final empty piece (after a
/// last `'\n'`, or of an empty text) is not a line.
pub open spec fn spec_lines(s: Seq<char>) -> Seq<Seq<char>> {
    let f = spec_split(s, '\n');
    let ended = f.drop_last().map_values(|l: Seq<char>| spec_strip_cr(l));
    if f.last().len() == 0 {
        ended
    } else {
        ended.push(f.last())
    }
}

/// Splits `s` into lines.
pub fn lines_of(s: &[char]) -> (r: Vec<Vec<char>>)
    ensures
        vecs_view(r@) == spec_lines(s@),
{
    let f = split_on(s, '\n');
    proof {
        lemma_split_nonempty(s@, '\n');
    }
    let n = f.len();
    let mut out: Vec<Vec<char>> = Vec::new();
    let mut i: usize = 0;
    while i + 1 < n
        invariant
            n == f@.len(),
            n >= 1,
            i + 1 <= n,
            vecs_view(f@) == spec_split(s@, '\n'),
            vecs_view(out@) == vecs_view(f@).subrange(0, i as int).map_values(
                |l: Seq<char>| spec_strip_cr(l),
            ),
        decreases n - i,
    {
        let line = &f[i];
        let ghost before = vecs_view(out@);
        let k = line.len();
        let mut v: Vec<char> = Vec::new();
        let end = if k > 0 && line[k - 1] == '\r' {
            k - 1
        } else {
            k
        };
        let mut j: usize = 0;
        while j < end
            invariant
                end <= k,
                k == line@.len(),
                j <= end,
                v@ == line@.subrange(0, j as int),
            decreases end - j,
        {
            v.push(line[j]);
            j = j + 1;
            assert(v@ =~= line@.subrange(0, j as int));
        }
        assert(v@ =~= spec_strip_cr(line@));
        assert(vecs_view(f@)[i as int] == line@);
        assert(vecs_view(f@).subrange(0, i + 1).map_values(|l: Seq<char>| spec_strip_cr(l))
            =~= before.push(spec_strip_cr(line@)));
        out.push(v);
        assert(vecs_view(out@) =~= before.push(spec_strip_cr(line@)));
        i = i + 1;
        assert(vecs_view(out@) =~= vecs_view(f@).subrange(0, i as int).map_values(
            |l: Seq<char>| spec_strip_cr(l),
        ));
    }
    assert(vecs_view(f@).subrange(0, i as int) =~= vecs_view(f@).drop_last());
    let lastlen = f[n - 1].len();
    if lastlen > 0 {
        let mut v: Vec<char> = Vec::new();
        let mut j: usize = 0;
        while j < lastlen
            invariant
                n == f@.len(),
                n >= 1,
                lastlen == f@[n - 1]@.len(),
                j <= lastlen,
                v@ == f@[n - 1]@.subrange(0, j as int),
            decreases lastlen - j,
        {
            v.push(f[n - 1][j]);
            j = j + 1;
            assert(v@ =~= f@[n - 1]@.subrange(0, j as int));
        }
        assert(v@ =~= f@[n - 1]@);
        let ghost before = vecs_view(out@);
        out.push(v);
        assert(vecs_view(out@) =~= before.push(f@[n - 1]@));
    }
    out
}

// ----- white space ----------------------------------------------------------------

/// The characters with the Unicode `White_Space` property (`char::is_whitespace`).
pub open spec fn spec_is_whitespace(c: char) -> bool {
    ||| ('\t' <= c && c <= '\r')
    ||| c == ' '
    ||| c == '\u{85}'
    ||| c == '\u{a0}'
    ||| c == '\u{1680}'
    ||| ('\u{2000}' <= c && c <= '\u{200a}')
    ||| c == '\u{2028}'
    ||| c == '\u{2029}'
    ||| c == '\u{202f}'
    ||| c == '\u{205f}'
    ||| c == '\u{3000}'
}

/// Whether a character is white space.
pub fn is_whitespace(c: char) -> (r: bool)
    ensures
        r == spec_is_whitespace(c),
{
    ('\t' <= c && c <= '\r') || c == ' ' || c == '\u{85}' || c == '\u{a0}' || c == '\u{1680}'
        || ('\u{2000}' <= c && c <= '\u{200a}') || c == '\u{2028}' || c == '\u{2029}' || c
        == '\u{202f}' || c == '\u{205f}' || c == '\u{3000}'
}

/// The number of white-space characters at the start of `s`.
pub open spec fn spec_lead_ws(s: Seq<char>) -> nat
    decreases s.len(),
{
    if s.len() > 0 && spec_is_whitespace(s[0]) {
        1 + spec_lead_ws(s.drop_first())
    } else {
        0
    }
}

/// The number of white-space characters at the end of `s`.
pub open spec fn spec_trail_ws(s: Seq<char>) -> nat
    decreases s.len(),
{
    if s.len() > 0 && spec_is_whitespace(s.last()) {
        1 + spec_trail_ws(s.drop_last())
    } else {
        0
    }
}

proof fn lemma_lead_ws_bound(s: Seq<char>)
    ensures
        spec_lead_ws(s) <= s.len(),
    decreases s.len(),
{
    if s.len() > 0 && spec_is_whitespace(s[0]) {
        lemma_lead_ws_bound(s.drop_first());
    }
}

proof fn lemma_trail_ws_bound(s: Seq<char>)
    ensures
        spec_trail_ws(s) <= s.len(),
    decreases s.len(),
{
    if s.len() > 0 && spec_is_whitespace(s.last()) {
        lemma_trail_ws_bound(s.drop_last());
    }
}

/// `s` without its leading white space (`str::trim_start`).
pub open spec fn spec_trim_start(s: Seq<char>) -> Seq<char> {
    s.subrange(spec_lead_ws(s) as int, s.len() as int)
}

/// `s` without its trailing white space (`str::trim_end`).
pub open spec fn spec_trim_end(s: Seq<char>) -> Seq<char> {
    s.subrange(0, s.len() - spec_trail_ws(s))
}

/// `s` without leading and trailing white space (`str::trim`).
pub open spec fn spec_trim(s: Seq<char>) -> Seq<char> {
    spec_trim_end(spec_trim_start(s))
}

fn lead_ws(s: &[char]) -> (r: usize)
    ensures
        r == spec_lead_ws(s@),
{
    let mut i: usize = 0;
    proof {
        lemma_lead_ws_bound(s@);
    }
    assert(s@.subrange(0, s@.len() as int) =~= s@);
    while i < s.len() && is_whitespace(s[i])
        invariant
            i <= s@.len(),
            spec_lead_ws(s@) == i + spec_lead_ws(s@.subrange(i as int, s@.len() as int)),
        decreases s@.len() - i,
    {
        let ghost t = s@.subrange(i as int, s@.len() as int);
        assert(t.drop_first() =~= s@.subrange(i + 1, s@.len() as int));
        i = i + 1;
    }
    let ghost t = s@.subrange(i as int, s@.len() as int);
    assert(spec_lead_ws(t) == 0);
    i
}

fn trail_ws(s: &[char]) -> (r: usize)
    ensures
        r == spec_trail_ws(s@),
        r <= s@.len(),
{
    let mut i: usize = 0;
    proof {
        lemma_trail_ws_bound(s@);
    }
    assert(s@.subrange(0, s@.len() as int) =~= s@);
    while i < s.len() && is_whitespace(s[s.len() - 1 - i])
        invariant
            i <= s@.len(),
            spec_trail_ws(s@) == i + spec_trail_ws(s@.subrange(0, s@.len() - i)),
        decreases s@.len() - i,
    {
        let ghost t = s@.subrange(0, s@.len() - i);
        assert(t.drop_last() =~= s@.subrange(0, s@.len() - i - 1));
        i = i + 1;
    }
    let ghost t = s@.subrange(0, s@.len() - i);
    assert(spec_trail_ws(t) == 0);
    i
}

/// The characters of `s` from `lo` up to `hi`.
pub fn slice_of(s: &[char], lo: usize, hi: usize) -> (r: Vec<char>)
    requires
        lo <= hi <= s@.len(),
    ensures
        r@ == s@.subrange(lo as int, hi as int),
{
    let mut v: Vec<char> = Vec::new();
    let mut j: usize = lo;
    while j < hi
        invariant
            lo <= j <= hi,
            hi <= s@.len(),
            v@ == s@.subrange(lo as int, j as int),
        decreases hi - j,
    {
        v.push(s[j]);
        j = j + 1;
        assert(v@ =~= s@.subrange(lo as int, j as int));
    }
    v
}

/// `s` without leading white space.
pub fn trim_start(s: &[char]) -> (r: Vec<char>)
    ensures
        r@ == spec_trim_start(s@),
{
    proof {
        lemma_lead_ws_bound(s@);
    }
    let k = lead_ws(s);
    slice_of(s, k, s.len())
}

/// `s` without trailing white space.
pub fn trim_end(s: &[char]) -> (r: Vec<char>)
    ensures
        r@ == spec_trim_end(s@),
{
    let k = trail_ws(s);
    slice_of(s, 0, s.len() - k)
}

/// `s` without leading and trailing white space.
pub fn trim(s: &[char]) -> (r: Vec<char>)
    ensures
        r@ == spec_trim(s@),
{
    let t = trim_start(s);
    trim_end(t.as_slice())
}

// ----- searching ------------------------------------------------------------------

/// `s` begins with `p`.
pub open spec fn spec_starts_with(s: Seq<char>, p: Seq<char>) -> bool {
    p.len() <= s.len() && s.subrange(0, p.len() as int) == p
}

/// `p` occurs in `s` at position `i`.
pub open spec fn spec_occurs_at(s: Seq<char>, p: Seq<char>, i: int) -> bool {
    0 <= i && i + p.len() <= s.len() && s.subrange(i, i + p.len()) == p
}

/// `p` occurs somewhere in `s` (`str::contains`).
pub open spec fn spec_contains(s: Seq<char>, p: Seq<char>) -> bool {
    exists|i: int| spec_occurs_at(s, p, i)
}

/// Whether `p` occurs in `s` at position `i`.
pub fn occurs_at(s: &[char], p: &[char], i: usize) -> (r: bool)
    ensures
        r == spec_occurs_at(s@, p@, i as int),
{
    let n = s.len();
    if i > n || p.len() > n - i {
        return false;
    }
    let mut j: usize = 0;
    while j < p.len()
        invariant
            n == s@.len(),
            i + p@.len() <= s@.len(),
            j <= p@.len(),
            forall|k: int| 0 <= k < j ==> s@[i + k] == p@[k],
        decreases p@.len() - j,
    {
        assert(i + j < s@.len());
        if s[i + j] != p[j] {
            assert(s@.subrange(i as int, i + p@.len())[j as int] != p@[j as int]);
            return false;
        }
        j = j + 1;
    }
    assert(s@.subrange(i as int, i + p@.len()) =~= p@);
    true
}

/// Whether `s` begins with `p`.
pub fn starts_with(s: &[char], p: &[char]) -> (r: bool)
    ensures
        r == spec_starts_with(s@, p@),
{
    let r = occurs_at(s, p, 0);
    assert(r == spec_starts_with(s@, p@));
    r
}

/// Whether `p` occurs in `s`.
pub fn contains(s: &[char], p: &[char]) -> (r: bool)
    ensures
        r == spec_contains(s@, p@),
{
    if p.len() > s.len() {
        assert forall|i: int| !spec_occurs_at(s@, p@, i) by {}
        return false;
    }
    let last = s.len() - p.len();
    let mut i: usize = 0;
    loop
        invariant
            p@.len() <= s@.len(),
            last == s@.len() - p@.len(),
            i <= last,
            forall|k: int| 0 <= k < i ==> !spec_occurs_at(s@, p@, k),
        ensures
            forall|k: int| 0 <= k <= last ==> !spec_occurs_at(s@, p@, k),
        decreases last - i,
    {
        if occurs_at(s, p, i) {
            return true;
        }
        if i == last {
            break;
        }
        i = i + 1;
    }
    assert forall|k: int| !spec_occurs_at(s@, p@, k) by {
        if 0 <= k <= last {
        }
    }
    false
}

/// The characters of a string slice, for the searches above.
pub fn str_chars(s: &str) -> (r: Vec<char>)
    ensures
        r@ == s@,
{
    crate::text::chars_of(s)
}


// ----- replacing ----------------------------------------------------------------

/// `s` with every occurrence of the non-empty `p` removed, scanning from the
/// left without overlaps (`str::replace(p, "")`).
pub open spec fn spec_remove_all(s: Seq<char>, p: Seq<char>) -> Seq<char>
    recommends
        p.len() > 0,
    decreases s.len(),
{
    if s.len() == 0 || p.len() == 0 {
        s
    } else if spec_starts_with(s, p) {
        spec_remove_all(s.subrange(p.len() as int, s.len() as int), p)
    } else {
        seq![s[0]] + spec_remove_all(s.drop_first(), p)
    }
}

/// Removes every occurrence of `p` from `s`.
pub fn remove_all(s: &[char], p: &[char]) -> (r: Vec<char>)
    requires
        p@.len() > 0,
    ensures
        r@ == spec_remove_all(s@, p@),
{
    let mut out: Vec<char> = Vec::new();
    let mut i: usize = 0;
    let n = s.len();
    assert(s@.subrange(0, n as int) =~= s@);
    while i < n
        invariant
            n == s@.len(),
            p@.len() > 0,
            i <= n,
            spec_remove_all(s@, p@) == out@ + spec_remove_all(s@.subrange(i as int, n as int), p@),
        decreases n - i,
    {
        let ghost t = s@.subrange(i as int, n as int);
        if occurs_at(s, p, i) {
            assert(t.subrange(0, p@.len() as int) =~= s@.subrange(i as int, i + p@.len()));
            assert(t.subrange(p@.len() as int, t.len() as int) =~= s@.subrange(i + p@.len(), n as int));
            i = i + p.len();
        } else {
            assert(!spec_starts_with(t, p@)) by {
                if spec_starts_with(t, p@) {
                    assert(t.subrange(0, p@.len() as int) =~= s@.subrange(i as int, i + p@.len()));
                }
            }
            assert(t.drop_first() =~= s@.subrange(i + 1, n as int));
            let ghost before = out@;
            out.push(s[i]);
            assert(out@ =~= before + seq![t[0]]);
            i = i + 1;
        }
    }
    assert(s@.subrange(i as int, n as int) =~= Seq::<char>::empty());
    assert(out@ =~= out@ + Seq::<char>::empty());
    out
}

/// The characters of `s` that satisfy the named property, in order.
pub open spec fn spec_keep(s: Seq<char>, keep: spec_fn(char) -> bool) -> Seq<char>
    decreases s.len(),
{
    if s.len() == 0 {
        seq![]
    } else if keep(s.last()) {
        spec_keep(s.drop_last(), keep).push(s.last())
    } else {
        spec_keep(s.drop_last(), keep)
    }
}

/// Every character of `s` is ASCII.
pub open spec fn spec_is_ascii(s: Seq<char>) -> bool {
    forall|i: int| 0 <= i < s.len() ==> (#[trigger] s[i] as u32) < 128
}

/// An ASCII letter or digit.
pub open spec fn spec_ascii_alnum(c: char) -> bool {
    ('a' <= c && c <= 'z') || ('A' <= c && c <= 'Z') || ('0' <= c && c <= '9')
}

/// `s` with its ASCII lower-case letters in upper case.
pub open spec fn spec_ascii_upper(s: Seq<char>) -> Seq<char> {
    Seq::new(
        s.len(),
        |i: int|
            if 'a' <= s[i] && s[i] <= 'z' {
                ((s[i] as u32) - 32) as char
            } else {
                s[i]
            },
    )
}

/// `s` with its ASCII upper-case letters in lower case.
pub open spec fn spec_ascii_lower(s: Seq<char>) -> Seq<char> {
    Seq::new(
        s.len(),
        |i: int|
            if 'A' <= s[i] && s[i] <= 'Z' {
                ((s[i] as u32) + 32) as char
            } else {
                s[i]
            },
    )
}

/// Keeping the characters that satisfy `p` or `q` gives the same text when
/// the two agree on every character of `s`.
pub proof fn lemma_keep_agree(s: Seq<char>, p: spec_fn(char) -> bool, q: spec_fn(char) -> bool)
    requires
        forall|i: int| 0 <= i < s.len() ==> p(#[trigger] s[i]) == q(s[i]),
    ensures
        spec_keep(s, p) == spec_keep(s, q),
    decreases s.len(),
{
    if s.len() > 0 {
        let t = s.drop_last();
        assert forall|i: int| 0 <= i < t.len() implies p(#[trigger] t[i]) == q(t[i]) by {
            assert(t[i] == s[i]);
        }
        lemma_keep_agree(t, p, q);
        assert(p(s[s.len() - 1]) == q(s[s.len() - 1]));
    }
}

/// Trimming ASCII text leaves ASCII text.
pub proof fn lemma_trim_ascii(s: Seq<char>)
    requires
        spec_is_ascii(s),
    ensures
        spec_is_ascii(spec_trim(s)),
{
    lemma_lead_ws_bound(s);
    let u = spec_trim_start(s);
    lemma_trail_ws_bound(u);
    let t = spec_trim(s);
    let a = spec_lead_ws(s) as int;
    assert forall|i: int| 0 <= i < t.len() implies (#[trigger] t[i] as u32) < 128 by {
        assert(t[i] == u[i]);
        assert(u[i] == s[a + i]);
    }
}

/// Whether `char::is_alphanumeric` holds of `c`: the character has the
/// Unicode `Alphabetic` or `Numeric` property.
pub uninterp spec fn spec_is_alphanumeric(c: char) -> bool;

/// Calls `char::is_alphanumeric`. Its result on any character is named by
/// `spec_is_alphanumeric`; on ASCII the documentation's meaning is stated:
/// exactly the letters and digits.
#[verifier::external_body]
pub(crate) fn is_alphanumeric(c: char) -> (r: bool)
    ensures
        r == spec_is_alphanumeric(c),
        (c as u32) < 128 ==> (r <==> (('a' <= c && c <= 'z') || ('A' <= c && c <= 'Z') || ('0' <= c
            && c <= '9'))),
{
    c.is_alphanumeric()
}

// ----- numbers ------------------------------------------------------------------

/// A decimal digit.
pub open spec fn spec_is_digit(c: char) -> bool {
    '0' <= c && c <= '9'
}

/// The value of a sequence of decimal digits.
pub open spec fn spec_digits_value(s: Seq<char>) -> nat
    decreases s.len(),
{
    if s.len() == 0 {
        0
    } else {
        10 * spec_digits_value(s.drop_last()) + ((s.last() as nat) - 48) as nat
    }
}

/// All characters are decimal digits, and there is at least one.
pub open spec fn spec_all_digits(s: Seq<char>) -> bool {
    s.len() > 0 && forall|i: int| 0 <= i < s.len() ==> spec_is_digit(#[trigger] s[i])
}

/// The value of an unsigned decimal number as `str::parse` reads it: an
/// optional `+`, then one or more digits.
pub open spec fn spec_parse_nat(s: Seq<char>) -> Option<nat> {
    let d = if s.len() > 0 && s[0] == '+' {
        s.drop_first()
    } else {
        s
    };
    if spec_all_digits(d) {
        Some(spec_digits_value(d))
    } else {
        None
    }
}

/// A number `str::parse::<u8>` accepts, and its value.
pub open spec fn spec_parse_u8(s: Seq<char>) -> Option<u8> {
    match spec_parse_nat(s) {
        Some(v) => if v <= 255 {
            Some(v as u8)
        } else {
            None
        },
        None => None,
    }
}

/// A number `str::parse::<u32>` accepts, and its value.
pub open spec fn spec_parse_u32(s: Seq<char>) -> Option<u32> {
    match spec_parse_nat(s) {
        Some(v) => if v <= u32::MAX {
            Some(v as u32)
        } else {
            None
        },
        None => None,
    }
}

proof fn lemma_digits_value_mono(s: Seq<char>, n: int)
    requires
        0 <= n <= s.len(),
        forall|i: int| 0 <= i < s.len() ==> spec_is_digit(#[trigger] s[i]),
    ensures
        spec_digits_value(s.subrange(0, n)) <= spec_digits_value(s),
    decreases s.len() - n,
{
    if n < s.len() {
        lemma_digits_value_mono(s, n + 1);
        let t = s.subrange(0, n + 1);
        assert(t.drop_last() =~= s.subrange(0, n));
    } else {
        assert(s.subrange(0, n) =~= s);
    }
}

/// Reads an unsigned decimal number bounded by `max`, as `str::parse` does
/// for an unsigned type whose largest value is `max`.
pub fn parse_bounded(s: &[char], max: u64) -> (r: Option<u64>)
    requires
        9 <= max <= u32::MAX,
    ensures
        match spec_parse_nat(s@) {
            Some(v) => if v <= max {
                r == Some(v as u64)
            } else {
                r is None
            },
            None => r is None,
        },
{
    let start: usize = if s.len() > 0 && s[0] == '+' {
        1
    } else {
        0
    };
    let ghost d = if s@.len() > 0 && s@[0] == '+' {
        s@.drop_first()
    } else {
        s@
    };
    assert(d =~= s@.subrange(start as int, s@.len() as int));
    if start >= s.len() {
        assert(d.len() == 0);
        return None;
    }
    let mut v: u64 = 0;
    let mut over = false;
    let mut i: usize = start;
    while i < s.len()
        invariant
            9 <= max <= u32::MAX,
            start <= i <= s@.len(),
            start < s@.len(),
            d == s@.subrange(start as int, s@.len() as int),
            d == (if s@.len() > 0 && s@[0] == '+' {
                s@.drop_first()
            } else {
                s@
            }),
            forall|k: int| start <= k < i ==> spec_is_digit(#[trigger] s@[k]),
            !over ==> v == spec_digits_value(s@.subrange(start as int, i as int)),
            !over ==> v <= max,
            over ==> spec_digits_value(s@.subrange(start as int, i as int)) > max,
        decreases s@.len() - i,
    {
        let c = s[i];
        if !('0' <= c && c <= '9') {
            assert(!spec_is_digit(d[i - start]));
            assert(!spec_all_digits(d));
            return None;
        }
        let ghost pre = s@.subrange(start as int, i as int);
        let ghost post = s@.subrange(start as int, i + 1);
        assert(post.drop_last() =~= pre);
        let dv = (c as u32 - 48) as u64;
        assert(spec_digits_value(post) == 10 * spec_digits_value(pre) + dv);
        if !over {
            if v > (max - dv) / 10 {
                over = true;
                assert(10 * v + dv > max) by (nonlinear_arith)
                    requires
                        v > (max - dv) / 10,
                        dv <= 9,
                        9 <= max,
                ;
            } else {
                assert(10 * v + dv <= max) by (nonlinear_arith)
                    requires
                        v <= (max - dv) / 10,
                        dv <= 9,
                        dv <= max,
                ;
                v = 10 * v + dv;
            }
        } else {
            assert(spec_digits_value(post) >= spec_digits_value(pre));
        }
        i = i + 1;
    }
    assert(s@.subrange(start as int, i as int) =~= d);
    if over {
        None
    } else {
        Some(v)
    }
}

/// Reads a `u8` as `str::parse` does.
pub fn parse_u8(s: &[char]) -> (r: Option<u8>)
    ensures
        r == spec_parse_u8(s@),
{
    match parse_bounded(s, 255) {
        Some(v) => Some(v as u8),
        None => None,
    }
}

/// Reads a `u32` as `str::parse` does.
pub fn parse_u32(s: &[char]) -> (r: Option<u32>)
    ensures
        r == spec_parse_u32(s@),
{
    match parse_bounded(s, 0xffff_ffff) {
        Some(v) => Some(v as u32),
        None => None,
    }
}

} // verus!
