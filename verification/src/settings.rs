//! The engine's start-up settings, read from environment variables.
use vstd::prelude::*;
use crate::text::{append, chars_of, digit_value, digits_value, is_ascii_digit, owned, trim_end, trim_end_char};

verus! {

/// The value of a decimal `u16` as `str::parse::<u16>` reads it: an optional
/// `+` followed by one or more ASCII digits, whose value must fit in 16 bits.
pub open spec fn u16_value(s: Seq<char>) -> Option<u16> {
    let digits = unsigned_digits(s);
    if digits.len() == 0 {
        None
    } else if !all_digits(digits) {
        None
    } else if digits_value(digits) > 65535 {
        None
    } else {
        Some(digits_value(digits) as u16)
    }
}

/// The text after an optional leading `+`.
pub open spec fn unsigned_digits(s: Seq<char>) -> Seq<char> {
    if s.len() > 0 && s[0] == '+' { s.drop_first() } else { s }
}

/// Every character is an ASCII digit.
pub open spec fn all_digits(d: Seq<char>) -> bool {
    forall|i: int| 0 <= i < d.len() ==> is_ascii_digit(#[trigger] d[i])
}

/// `str::parse::<u16>`.
pub fn parse_u16(s: &str) -> (r: Option<u16>)
    ensures
        r == u16_value(s@),
{
    let v = chars_of(s);
    let n = v.len();
    let start: usize = if n > 0 && v[0] == '+' { 1 } else { 0 };
    let ghost digits = unsigned_digits(s@);
    assert(digits == s@.skip(start as int));
    if start == n {
        return None;
    }
    let mut value: u32 = 0;
    let mut overflow = false;
    let mut i = start;
    while i < n
        invariant
            n == v@.len(),
            v@ == s@,
            digits == s@.skip(start as int),
            digits == unsigned_digits(s@),
            start <= i <= n,
            forall|j: int| 0 <= j < i - start ==> is_ascii_digit(#[trigger] digits[j]),
            overflow ==> digits_value(digits.take(i - start)) > 65535,
            !overflow ==> value == digits_value(digits.take(i - start)) && value <= 65535,
        decreases n - i,
    {
        let c = v[i];
        assert(digits[i - start] == c);
        if !('0' <= c && c <= '9') {
            assert(!is_ascii_digit(digits[i - start]));
            assert(digits.len() > 0);
            return None;
        }
        let ghost k = (i - start) as int;
        assert(digits.take(k + 1).drop_last() == digits.take(k));
        assert(digits.take(k + 1).last() == c);
        if !overflow {
            let d: u32 = (c as u32) - ('0' as u32);
            assert(d == digit_value(c));
            value = value * 10 + d;
            if value > 65535 {
                overflow = true;
            }
        }
        i = i + 1;
    }
    assert(digits.take(n - start) == digits);
    if overflow {
        None
    } else {
        Some(value as u16)
    }
}

/// The port to listen on: `PORT` when it reads as a `u16`, else 3000.
pub open spec fn port_of(var: Option<Seq<char>>) -> u16 {
    match var {
        Some(s) => match u16_value(s) {
            Some(p) => p,
            None => 3000,
        },
        None => 3000,
    }
}

/// The port to listen on, from the value of `PORT` (absent when unset or not
/// Unicode).
pub fn port_setting(var: Option<&str>) -> (p: u16)
    ensures
        p == port_of(match var { Some(s) => Some(s@), None => None }),
{
    match var {
        Some(s) => match parse_u16(s) {
            Some(p) => p,
            None => 3000,
        },
        None => 3000,
    }
}

/// The value of a variable, or a default when it is absent.
pub fn setting_or(var: Option<&str>, default: &str) -> (r: String)
    ensures
        r@ == match var { Some(s) => s@, None => default@ },
{
    match var {
        Some(s) => owned(s),
        None => owned(default),
    }
}

/// The initial administrator password: `ADMIN_PASSWORD`, else `admin123`.
pub fn admin_password_setting(var: Option<&str>) -> (r: String)
    ensures
        r@ == match var { Some(s) => s@, None => "admin123"@ },
{
    setting_or(var, "admin123")
}

/// The data directory: `DB_PATH`, else `./data`.
pub fn db_dir_setting(var: Option<&str>) -> (r: String)
    ensures
        r@ == match var { Some(s) => s@, None => "./data"@ },
{
    setting_or(var, "./data")
}

/// The log filter: `RUST_LOG`, else `info,metrics_core=debug`.
pub fn log_filter_setting(var: Option<&str>) -> (r: String)
    ensures
        r@ == match var { Some(s) => s@, None => "info,metrics_core=debug"@ },
{
    setting_or(var, "info,metrics_core=debug")
}

/// The database file inside the data directory.
pub open spec fn db_file(dir: Seq<char>) -> Seq<char> {
    trim_end_char(dir, '/') + "/metrics.skv"@
}

/// The database file inside the data directory `dir`.
pub fn db_file_path(dir: &str) -> (r: String)
    ensures
        r@ == db_file(dir@),
{
    let mut r = trim_end(dir, '/');
    append(&mut r, "/metrics.skv");
    r
}

} // verus!
