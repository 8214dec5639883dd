//! Character-level helpers: decimal and hexadecimal rendering, and
//! string construction from characters.

use vstd::prelude::*;

verus! {

/// The character of a decimal digit.
pub open spec fn spec_digit(d: nat) -> char {
    ((48 + d) as u8) as char
}

/// The decimal rendering of a natural number, without leading zeros.
pub open spec fn spec_dec(n: nat) -> Seq<char>
    decreases n,
{
    if n < 10 {
        seq![spec_digit(n)]
    } else {
        spec_dec(n / 10).push(spec_digit(n % 10))
    }
}

/// The decimal rendering of an integer, with a leading '-' when negative.
pub open spec fn spec_dec_int(n: int) -> Seq<char> {
    if n < 0 {
        seq!['-'] + spec_dec((-n) as nat)
    } else {
        spec_dec(n as nat)
    }
}

/// Appends one character to a string (`String::push`).
#[verifier::external_body]
pub(crate) fn push_char(s: &mut String, c: char)
    ensures
        final(s)@ == old(s)@.push(c),
{
    s.push(c)
}

fn digit_char(d: u64) -> (c: char)
    requires
        d < 10,
    ensures
        c == spec_digit(d as nat),
{
    ((48u8 + d as u8) as char)
}

/// Appends the decimal rendering of `n` to `s`.
pub fn push_dec(s: &mut String, n: u64)
    ensures
        final(s)@ == old(s)@ + spec_dec(n as nat),
    decreases n,
{
    if n >= 10 {
        push_dec(s, n / 10);
    }
    let d = digit_char(n % 10);
    push_char(s, d);
    assert(s@ =~= old(s)@ + spec_dec(n as nat));
}

/// Appends the decimal rendering of a signed `n` to `s`.
pub fn push_dec_i64(s: &mut String, n: i64)
    ensures
        final(s)@ == old(s)@ + spec_dec_int(n as int),
{
    if n < 0 {
        push_char(s, '-');
        let m: u64 = ((-(n + 1)) as u64) + 1;
        assert(m == -(n as int));
        push_dec(s, m);
        assert(s@ =~= old(s)@ + spec_dec_int(n as int));
    } else {
        push_dec(s, n as u64);
    }
}

/// The decimal rendering of an unsigned number.
pub fn dec_u64(n: u64) -> (r: String)
    ensures
        r@ == spec_dec(n as nat),
{
    let mut s = String::new();
    push_dec(&mut s, n);
    assert(s@ =~= spec_dec(n as nat));
    s
}

/// The decimal rendering of a signed number.
pub fn dec_i64(n: i64) -> (r: String)
    ensures
        r@ == spec_dec_int(n as int),
{
    let mut s = String::new();
    push_dec_i64(&mut s, n);
    assert(s@ =~= spec_dec_int(n as int));
    s
}

/// The lowercase hexadecimal digit of a value below 16.
pub open spec fn spec_hex_digit(d: nat) -> char {
    if d < 10 {
        spec_digit(d)
    } else {
        ((87 + d) as u8) as char
    }
}

/// The two lowercase hexadecimal digits of a byte.
pub open spec fn spec_hex2(b: u8) -> Seq<char> {
    seq![spec_hex_digit((b / 16) as nat), spec_hex_digit((b % 16) as nat)]
}

fn hex_digit(d: u8) -> (c: char)
    requires
        d < 16,
    ensures
        c == spec_hex_digit(d as nat),
{
    if d < 10 {
        (48u8 + d) as char
    } else {
        (87u8 + d) as char
    }
}

/// Appends the two lowercase hexadecimal digits of `b` to `s`.
pub fn push_hex2(s: &mut String, b: u8)
    ensures
        final(s)@ == old(s)@ + spec_hex2(b),
{
    push_char(s, hex_digit(b / 16));
    push_char(s, hex_digit(b % 16));
    assert(s@ =~= old(s)@ + spec_hex2(b));
}

/// A string with the contents of a string slice.
pub fn string_of(s: &str) -> (r: String)
    ensures
        r@ == s@,
{
    String::from_str(s)
}

/// The concatenation of two string slices.
pub fn concat2(a: &str, b: &str) -> (r: String)
    ensures
        r@ == a@ + b@,
{
    let mut s = String::from_str(a);
    s.append(b);
    s
}

/// The characters of a string slice.
pub fn chars_of(s: &str) -> (r: Vec<char>)
    ensures
        r@ == s@,
{
    let n = s.unicode_len();
    let mut v: Vec<char> = Vec::new();
    let mut i: usize = 0;
    while i < n
        invariant
            n == s@.len(),
            i <= n,
            v@ == s@.subrange(0, i as int),
        decreases n - i,
    {
        v.push(s.get_char(i));
        i = i + 1;
        assert(v@ =~= s@.subrange(0, i as int));
    }
    assert(v@ =~= s@);
    v
}

/// A string made of the given characters.
pub fn string_from_chars(v: &[char]) -> (r: String)
    ensures
        r@ == v@,
{
    let mut s = String::new();
    let mut i: usize = 0;
    while i < v.len()
        invariant
            i <= v@.len(),
            s@ == v@.subrange(0, i as int),
        decreases v@.len() - i,
    {
        push_char(&mut s, v[i]);
        i = i + 1;
        assert(s@ =~= v@.subrange(0, i as int));
    }
    assert(s@ =~= v@);
    s
}


/// Whether two character sequences are equal.
pub fn chars_eq(a: &[char], b: &[char]) -> (r: bool)
    ensures
        r == (a@ == b@),
{
    if a.len() != b.len() {
        return false;
    }
    let mut i: usize = 0;
    while i < a.len()
        invariant
            a@.len() == b@.len(),
            i <= a@.len(),
            forall|k: int| 0 <= k < i ==> a@[k] == b@[k],
        decreases a@.len() - i,
    {
        if a[i] != b[i] {
            return false;
        }
        i = i + 1;
    }
    assert(a@ =~= b@);
    true
}

/// Whether two string slices hold the same characters.
pub fn str_eq(a: &str, b: &str) -> (r: bool)
    ensures
        r == (a@ == b@),
{
    let ca = chars_of(a);
    let cb = chars_of(b);
    chars_eq(ca.as_slice(), cb.as_slice())
}

} // verus!
