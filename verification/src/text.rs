//! Character-level text utilities shared by the formatters and parsers.
use vstd::prelude::*;
use vstd::string::*;

verus! {

// ---------------------------------------------------------------------------
// Trusted primitives of std that vstd does not specify.
// ---------------------------------------------------------------------------
/// Appends one character to a string (`String::push`).
/// Trusted: the documentation of `String::push` says that it appends the given
/// char to the end of the string; the contract states exactly that.
#[verifier::external_body]
pub(crate) fn push_char(s: &mut String, c: char)
    ensures
        final(s)@ == old(s)@.push(c),
{
    s.push(c);
}

/// Whether `c` has the Unicode `White_Space` property: the ASCII controls
/// TAB to CR, SPACE, NEL, NO-BREAK SPACE, OGHAM SPACE MARK, the spaces
/// U+2000 to U+200A, LINE and PARAGRAPH SEPARATOR, NARROW NO-BREAK SPACE,
/// MEDIUM MATHEMATICAL SPACE and IDEOGRAPHIC SPACE.
pub open spec fn unicode_whitespace(c: char) -> bool {
    ||| ('\u{9}' <= c && c <= '\u{d}')
    ||| c == ' '
    ||| c == '\u{85}'
    ||| c == '\u{a0}'
    ||| c == '\u{1680}'
    ||| ('\u{2000}' <= c && c <= '\u{200a}')
    ||| c == '\u{2028}'
    ||| c == '\u{2029}'
    ||| c == '\u{202f}'
    ||| c == '\u{205f}'
    ||| c == '\u{3000}'
}

/// Whether `c` is alphabetic or numeric in the Unicode sense.
pub uninterp spec fn unicode_alphanumeric(c: char) -> bool;

/// Whether `c` has a Unicode numeric general category (Nd, Nl or No).
pub uninterp spec fn unicode_numeric(c: char) -> bool;

/// The Unicode upper-case mapping of a whole string.
pub uninterp spec fn unicode_uppercase(s: Seq<char>) -> Seq<char>;

/// Whether `c` is whitespace (what `char::is_whitespace` tells).
pub fn is_whitespace(c: char) -> (b: bool)
    ensures
        b == unicode_whitespace(c),
{
    ('\u{9}' <= c && c <= '\u{d}') || c == ' ' || c == '\u{85}' || c == '\u{a0}' || c == '\u{1680}'
        || ('\u{2000}' <= c && c <= '\u{200a}') || c == '\u{2028}' || c == '\u{2029}' || c == '\u{202f}'
        || c == '\u{205f}' || c == '\u{3000}'
}

/// `char::is_alphanumeric`. Trusted: the result is named by
/// `unicode_alphanumeric`, a function of the character alone.
#[verifier::external_body]
pub(crate) fn is_alphanumeric(c: char) -> (b: bool)
    ensures
        b == unicode_alphanumeric(c),
{
    c.is_alphanumeric()
}

/// `char::is_numeric`. Trusted: the result is named by `unicode_numeric`,
/// a function of the character alone.
#[verifier::external_body]
pub(crate) fn is_numeric(c: char) -> (b: bool)
    ensures
        b == unicode_numeric(c),
{
    c.is_numeric()
}

/// `str::to_uppercase`. Trusted: the result is named by `unicode_uppercase`,
/// a function of the string's characters alone.
#[verifier::external_body]
pub(crate) fn to_uppercase(s: &str) -> (r: String)
    ensures
        r@ == unicode_uppercase(s@),
{
    s.to_uppercase()
}

// ---------------------------------------------------------------------------
// Specifications.
// ---------------------------------------------------------------------------
/// `p` is a prefix of `s`.
pub open spec fn has_prefix(s: Seq<char>, p: Seq<char>) -> bool {
    p.len() <= s.len() && s.take(p.len() as int) == p
}

/// `p` occurs somewhere in `s` as a contiguous piece.
pub open spec fn occurs_in(s: Seq<char>, p: Seq<char>) -> bool {
    exists|i: int| 0 <= i && i + p.len() <= s.len() && #[trigger] s.subrange(i, i + p.len()) == p
}

/// `s` without any number of trailing `c` (`str::trim_end_matches` with a char).
pub open spec fn trim_end_char(s: Seq<char>, c: char) -> Seq<char>
    decreases s.len(),
{
    if s.len() > 0 && s.last() == c {
        trim_end_char(s.drop_last(), c)
    } else {
        s
    }
}

/// `s` with every `from` replaced by `to`.
pub open spec fn replace_char(s: Seq<char>, from: char, to: char) -> Seq<char> {
    s.map_values(|x: char| if x == from { to } else { x })
}

/// The ASCII digit for `d < 10`.
pub open spec fn digit_char(d: nat) -> char {
    if d == 0 { '0' }
    else if d == 1 { '1' }
    else if d == 2 { '2' }
    else if d == 3 { '3' }
    else if d == 4 { '4' }
    else if d == 5 { '5' }
    else if d == 6 { '6' }
    else if d == 7 { '7' }
    else if d == 8 { '8' }
    else { '9' }
}

/// The decimal notation of a natural number, without leading zeros.
pub open spec fn dec_digits(n: nat) -> Seq<char>
    decreases n,
{
    if n < 10 {
        seq![digit_char(n)]
    } else {
        dec_digits(n / 10).push(digit_char(n % 10))
    }
}

/// The decimal notation of an integer, with a leading `-` when negative.
pub open spec fn dec_int(x: int) -> Seq<char> {
    if x < 0 {
        seq!['-'] + dec_digits((-x) as nat)
    } else {
        dec_digits(x as nat)
    }
}

/// `c` is an ASCII decimal digit.
pub open spec fn is_ascii_digit(c: char) -> bool {
    '0' <= c && c <= '9'
}

/// The value of an ASCII digit.
pub open spec fn digit_value(c: char) -> nat {
    (c as int - '0' as int) as nat
}

/// The value of a sequence of ASCII digits (most significant first).
pub open spec fn digits_value(s: Seq<char>) -> nat
    decreases s.len(),
{
    if s.len() == 0 {
        0
    } else {
        digits_value(s.drop_last()) * 10 + digit_value(s.last())
    }
}

// ---------------------------------------------------------------------------
// Executable helpers.
// ---------------------------------------------------------------------------
/// The characters of a string slice, in order.
pub fn chars_of(s: &str) -> (v: Vec<char>)
    ensures
        v@ == s@,
{
    let mut v: Vec<char> = Vec::new();
    for c in it: s.chars()
        invariant
            v@ == it.seq().take(it.index() as int),
            it.seq() == s@,
    {
        v.push(c);
    }
    v
}

/// A fresh string with the contents of `s`.
pub fn owned(s: &str) -> (r: String)
    ensures
        r@ == s@,
{
    String::from_str(s)
}

/// Appends `t` to `s`.
pub fn append(s: &mut String, t: &str)
    ensures
        final(s)@ == old(s)@ + t@,
{
    s.append(t);
}

/// Whether two strings hold the same characters.
pub fn same_text(a: &str, b: &str) -> (r: bool)
    ensures
        r == (a@ == b@),
{
    let av = chars_of(a);
    let bv = chars_of(b);
    if av.len() != bv.len() {
        return false;
    }
    let n = av.len();
    for i in 0..n
        invariant
            n == av@.len(),
            n == bv@.len(),
            av@ == a@,
            bv@ == b@,
            forall|j: int| 0 <= j < i ==> av@[j] == bv@[j],
    {
        if av[i] != bv[i] {
            assert(av@[i as int] != bv@[i as int]);
            return false;
        }
    }
    assert(av@ =~= bv@);
    true
}

/// Whether `v[at..]` begins with `p`.
fn matches_at(v: &Vec<char>, at: usize, p: &Vec<char>) -> (r: bool)
    requires
        at <= v@.len(),
    ensures
        r == (at + p@.len() <= v@.len() && v@.subrange(at as int, at + p@.len()) == p@),
{
    if p.len() > v.len() - at {
        return false;
    }
    let n = p.len();
    for i in 0..n
        invariant
            n == p@.len(),
            at + n <= v.len(),
            forall|j: int| 0 <= j < i ==> v@[at + j] == p@[j],
    {
        if v[at + i] != p[i] {
            assert(v@.subrange(at as int, at + p@.len())[i as int] != p@[i as int]);
            return false;
        }
    }
    assert(v@.subrange(at as int, at + p@.len()) =~= p@);
    true
}

/// `str::starts_with` for a string pattern.
pub fn starts_with(s: &str, p: &str) -> (r: bool)
    ensures
        r == has_prefix(s@, p@),
{
    let sv = chars_of(s);
    let pv = chars_of(p);
    let r = matches_at(&sv, 0, &pv);
    assert(sv@.subrange(0, pv@.len() as int) == sv@.take(pv@.len() as int));
    r
}

/// `str::contains` for a string pattern.
pub fn contains(s: &str, p: &str) -> (r: bool)
    ensures
        r == occurs_in(s@, p@),
{
    let sv = chars_of(s);
    let pv = chars_of(p);
    let n = sv.len();
    let mut at: usize = 0;
    loop
        invariant
            n == sv@.len(),
            at <= n,
            sv@ == s@,
            pv@ == p@,
            forall|i: int| 0 <= i < at && i + p@.len() <= s@.len() ==> #[trigger] s@.subrange(i, i + p@.len()) != p@,
        decreases n - at,
    {
        if matches_at(&sv, at, &pv) {
            return true;
        }
        if at == n {
            return false;
        }
        at = at + 1;
    }
}

/// The tail of `s` from character position `from` on.
pub fn skip_chars(s: &str, from: usize) -> (r: String)
    requires
        from <= s@.len(),
    ensures
        r@ == s@.skip(from as int),
{
    let v = chars_of(s);
    let mut out = String::new();
    let n = v.len();
    let mut i = from;
    while i < n
        invariant
            n == v@.len(),
            v@ == s@,
            from <= i <= n,
            out@ == s@.subrange(from as int, i as int),
        decreases n - i,
    {
        push_char(&mut out, v[i]);
        assert(s@.subrange(from as int, i + 1) == s@.subrange(from as int, i as int).push(s@[i as int]));
        i = i + 1;
    }
    assert(s@.subrange(from as int, n as int) == s@.skip(from as int));
    out
}

proof fn lemma_trim_end_char_prefix(s: Seq<char>, c: char, k: int)
    requires
        0 <= k <= s.len(),
        forall|j: int| k <= j < s.len() ==> s[j] == c,
    ensures
        trim_end_char(s, c) == trim_end_char(s.take(k), c),
    decreases s.len() - k,
{
    if k < s.len() {
        assert(s.drop_last() == s.take(s.len() - 1));
        lemma_trim_end_char_prefix(s.drop_last(), c, k);
        assert(s.drop_last().take(k) == s.take(k));
    } else {
        assert(s.take(k) == s);
    }
}

/// `str::trim_end_matches(c)`: `s` without its trailing run of `c`.
pub fn trim_end(s: &str, c: char) -> (r: String)
    ensures
        r@ == trim_end_char(s@, c),
{
    let v = chars_of(s);
    let mut k = v.len();
    while k > 0 && v[k - 1] == c
        invariant
            k <= v@.len(),
            v@ == s@,
            forall|j: int| k <= j < v@.len() ==> v@[j] == c,
        decreases k,
    {
        k = k - 1;
    }
    proof {
        lemma_trim_end_char_prefix(s@, c, k as int);
        if k > 0 {
            assert(s@.take(k as int).last() != c);
        }
    }
    let mut out = String::new();
    for i in 0..k
        invariant
            k <= v@.len(),
            v@ == s@,
            out@ == s@.take(i as int),
    {
        push_char(&mut out, v[i]);
        assert(s@.take(i + 1) == s@.take(i as int).push(s@[i as int]));
    }
    out
}

/// `str::replace(from, to)` for single characters.
pub fn replace(s: &str, from: char, to: char) -> (r: String)
    ensures
        r@ == replace_char(s@, from, to),
{
    let v = chars_of(s);
    let mut out = String::new();
    let n = v.len();
    for i in 0..n
        invariant
            n == v@.len(),
            v@ == s@,
            out@ == replace_char(s@.take(i as int), from, to),
    {
        let c = v[i];
        push_char(&mut out, if c == from { to } else { c });
        assert(s@.take(i + 1) == s@.take(i as int).push(c));
    }
    assert(s@.take(n as int) == s@);
    out
}

fn digit_of(d: u64) -> (c: char)
    requires
        d < 10,
    ensures
        c == digit_char(d as nat),
{
    if d == 0 { '0' }
    else if d == 1 { '1' }
    else if d == 2 { '2' }
    else if d == 3 { '3' }
    else if d == 4 { '4' }
    else if d == 5 { '5' }
    else if d == 6 { '6' }
    else if d == 7 { '7' }
    else if d == 8 { '8' }
    else { '9' }
}

/// Appends the decimal notation of `n`.
pub fn push_decimal(s: &mut String, n: u64)
    ensures
        final(s)@ == old(s)@ + dec_digits(n as nat),
    decreases n,
{
    if n >= 10 {
        push_decimal(s, n / 10);
    }
    push_char(s, digit_of(n % 10));
    assert(dec_digits(n as nat) == if n < 10 {
        seq![digit_char(n as nat)]
    } else {
        dec_digits((n / 10) as nat).push(digit_char((n % 10) as nat))
    });
}

/// Appends the decimal notation of a signed integer.
pub fn push_decimal_i64(s: &mut String, x: i64)
    ensures
        final(s)@ == old(s)@ + dec_int(x as int),
{
    if x < 0 {
        push_char(s, '-');
        let mag: u64 = (0i128 - x as i128) as u64;
        push_decimal(s, mag);
        assert(old(s)@.push('-') + dec_digits(mag as nat) == old(s)@ + (seq!['-'] + dec_digits(mag as nat)));
    } else {
        push_decimal(s, x as u64);
    }
}

/// The decimal notation of `n`.
pub fn decimal(n: u64) -> (r: String)
    ensures
        r@ == dec_digits(n as nat),
{
    let mut s = String::new();
    push_decimal(&mut s, n);
    assert(Seq::<char>::empty() + dec_digits(n as nat) == dec_digits(n as nat));
    s
}

/// Trimming a trailing character leaves a prefix that does not end with it,
/// so an endpoint path appended after it never doubles the separator.
pub proof fn law_trim_end_char(s: Seq<char>, c: char)
    ensures
        has_prefix(s, trim_end_char(s, c)),
        trim_end_char(s, c).len() == 0 || trim_end_char(s, c).last() != c,
        forall|j: int| trim_end_char(s, c).len() <= j < s.len() ==> s[j] == c,
    decreases s.len(),
{
    if s.len() > 0 && s.last() == c {
        law_trim_end_char(s.drop_last(), c);
        let t = trim_end_char(s, c);
        assert(s.take(t.len() as int) == s.drop_last().take(t.len() as int));
        assert forall|j: int| t.len() <= j < s.len() implies s[j] == c by {
            if j < s.len() - 1 {
                assert(s[j] == s.drop_last()[j]);
            }
        }
    } else {
        assert(s.take(s.len() as int) == s);
    }
}

} // verus!
