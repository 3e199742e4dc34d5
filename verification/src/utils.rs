use vstd::prelude::*;
use vstd::string::*;

use std::time::{Duration, SystemTime, SystemTimeError, UNIX_EPOCH};

verus! {

/// The character `c` with an ASCII lower-case letter mapped to its upper-case form;
/// every other character is left as it is.
pub open spec fn ascii_upper(c: char) -> char {
    if 'a' <= c && c <= 'z' {
        ((c as u32) - 32) as char
    } else {
        c
    }
}

/// The text `s` with its first character made ASCII upper-case.
pub open spec fn capitalized(s: Seq<char>) -> Seq<char> {
    if s.len() == 0 {
        Seq::empty()
    } else {
        seq![ascii_upper(s[0])] + s.drop_first()
    }
}

/// The ASCII upper-case form of `c`: `'a'` to `'z'` become `'A'` to `'Z'`,
/// every other character is returned as it is (what std's
/// `char::to_ascii_uppercase` documents).
pub fn to_ascii_upper(c: char) -> (r: char)
    ensures
        r == ascii_upper(c),
{
    if 'a' <= c && c <= 'z' {
        let b: u8 = c as u8;
        assert(b == c as u32);
        (b - 32) as char
    } else {
        c
    }
}

/// Builds a one-character `String` (std's `String::from(char)`).
#[verifier::external_body]
fn string_of_char(c: char) -> (r: String)
    ensures
        r@ == seq![c],
{
    String::from(c)
}

/// Returns `s` with its first character turned into ASCII upper case.
pub fn capitalize(s: &str) -> (r: String)
    ensures
        r@ == capitalized(s@),
{
    let n: usize = s.unicode_len();
    if n == 0 {
        return String::new();
    }
    let first = s.get_char(0);
    let rest = s.substring_char(1, n);
    let head = string_of_char(to_ascii_upper(first));
    let r = head.concat(rest);
    assert(r@ =~= capitalized(s@));
    r
}


/// The byte at position `i` once every whole 4-byte pixel of `p` has its
/// last byte moved to the front; bytes after the last whole pixel stay put.
pub open spec fn argb_byte(p: Seq<u8>, i: int) -> u8 {
    if i < p.len() - p.len() % 4 {
        if i % 4 == 0 {
            p[i + 3]
        } else {
            p[i - 1]
        }
    } else {
        p[i]
    }
}

/// RGBA pixel bytes rearranged into ARGB order.
pub open spec fn argb_of(p: Seq<u8>) -> Seq<u8> {
    Seq::new(p.len(), |i: int| argb_byte(p, i))
}

/// Reorders 8-bit RGBA pixels into ARGB, the order that the tray expects:
/// in each whole 4-byte pixel the alpha byte moves to the front.
pub fn rgba_into_argb(data: Vec<u8>) -> (r: Vec<u8>)
    ensures
        r@ == argb_of(data@),
{
    let mut v = data;
    let n: usize = v.len();
    let mut i: usize = 0;
    while n - i >= 4
        invariant
            n == v.len(),
            n == data@.len(),
            i <= n,
            i % 4 == 0,
            forall|j: int| 0 <= j < i ==> v@[j] == argb_byte(data@, j),
            forall|j: int| i <= j < n ==> v@[j] == data@[j],
        decreases n - i,
    {
        let a: u8 = v[i + 3];
        let b: u8 = v[i + 2];
        let g: u8 = v[i + 1];
        let r: u8 = v[i];
        v.set(i, a);
        v.set(i + 1, r);
        v.set(i + 2, g);
        v.set(i + 3, b);
        assert((i + 1) % 4 == 1 && (i + 2) % 4 == 2 && (i + 3) % 4 == 3);
        i = i + 4;
    }
    assert(i == n - n % 4);
    assert(v@ =~= argb_of(data@));
    v
}


#[verifier::external_type_specification]
#[verifier::external_body]
pub struct ExSystemTime(SystemTime);

#[verifier::external_type_specification]
#[verifier::external_body]
pub struct ExSystemTimeError(SystemTimeError);

/// Reads the system clock (`SystemTime::now`).  Nothing is claimed of the
/// time it returns.
#[verifier::external_body]
fn clock_now() -> SystemTime {
    SystemTime::now()
}

/// How long after the Unix epoch `t` lies (`SystemTime::duration_since`
/// with `UNIX_EPOCH`); an error when `t` lies before the epoch.  Nothing is
/// claimed of which of the two comes back.
#[verifier::external_body]
fn since_unix_epoch(t: &SystemTime) -> Result<Duration, SystemTimeError> {
    t.duration_since(UNIX_EPOCH)
}

/// The whole seconds in `d` (`Duration::as_secs`).  Nothing is claimed of
/// the number.
#[verifier::external_body]
fn whole_seconds(d: &Duration) -> u64 {
    d.as_secs()
}

/// The nanoseconds in `d` beyond its whole seconds (`Duration::subsec_nanos`);
/// as std documents, always less than one billion.
#[verifier::external_body]
fn subsec_nanos(d: &Duration) -> (n: u32)
    ensures
        n < 1_000_000_000,
{
    d.subsec_nanos()
}

/// The whole milliseconds in a duration of `secs` seconds and `nanos`
/// nanoseconds beyond them, the rest of a millisecond dropped, as
/// `Duration::as_millis` counts them.
pub fn millis_of(secs: u64, nanos: u32) -> (ms: u128)
    ensures
        ms == secs * 1000 + nanos / 1_000_000,
{
    (secs as u128) * 1000 + (nanos / 1_000_000) as u128
}

/// The timestamp for a clock reading: the whole milliseconds since the Unix
/// epoch cut to an `i64` as `as` does, or `None` for a reading before the
/// epoch.
pub fn timestamp_from_millis(since_epoch: Option<u128>) -> (t: Option<i64>)
    ensures
        t == (match since_epoch {
            Some(ms) => Some(ms as i64),
            None => None,
        }),
{
    match since_epoch {
        Some(ms) => Some(ms as i64),
        None => None,
    }
}

/// The current time in milliseconds since the Unix epoch, cut to an `i64`
/// as `as` does; `None` when the system clock reads a time before the
/// epoch.  The value comes from the clock, so nothing is stated of it.
pub fn current_time() -> Option<i64> {
    let now = clock_now();
    let since_epoch: Option<u128> = match since_unix_epoch(&now) {
        Ok(elapsed) => Some(millis_of(whole_seconds(&elapsed), subsec_nanos(&elapsed))),
        Err(_) => None,
    };
    timestamp_from_millis(since_epoch)
}

/// The desktop-entry template `t` with every `{}` replaced by `exe`, the
/// matches taken from the left without overlap, as `str::replace` takes them.
pub open spec fn filled(t: Seq<char>, exe: Seq<char>) -> Seq<char>
    decreases t.len(),
{
    if t.len() == 0 {
        Seq::empty()
    } else if t.len() >= 2 && t[0] == '{' && t[1] == '}' {
        exe + filled(t.skip(2), exe)
    } else {
        seq![t[0]] + filled(t.skip(1), exe)
    }
}

/// Fills the application's desktop-entry template: every `{}` in
/// `template` becomes the path of the executable.
pub fn fill_desktop_entry(template: &str, exe_path: &str) -> (r: String)
    ensures
        r@ == filled(template@, exe_path@),
{
    let n: usize = template.unicode_len();
    let mut out = String::new();
    let mut i: usize = 0;
    assert(template@.skip(0) =~= template@);
    while i < n
        invariant
            n == template@.len(),
            i <= n,
            filled(template@, exe_path@) == out@ + filled(template@.skip(i as int), exe_path@),
        decreases n - i,
    {
        let ghost rest = template@.skip(i as int);
        if n - i >= 2 && template.get_char(i) == '{' && template.get_char(i + 1) == '}' {
            out.append(exe_path);
            assert(rest.skip(2) =~= template@.skip(i + 2));
            i = i + 2;
        } else {
            out.append(template.substring_char(i, i + 1));
            assert(rest.skip(1) =~= template@.skip(i + 1));
            i = i + 1;
        }
        assert(out@ + filled(template@.skip(i as int), exe_path@) =~= filled(
            template@,
            exe_path@,
        ));
    }
    assert(template@.skip(n as int) =~= Seq::<char>::empty());
    assert(out@ =~= filled(template@, exe_path@));
    out
}

} // verus!
