//! Parsing of a track's duration tag.
//!
//! Media metadata reports a duration as a clock string
//! `hours:minutes:seconds`, two digits per field.  The engine keeps only
//! the minutes and seconds fields (tracks are assumed to stay under one
//! hour; the hours field is ignored by design) and turns them into a
//! whole number of seconds.

use vstd::prelude::*;
use vstd::string::StrSliceExecFns;

use crate::errors::MusicError;

verus! {

/// An ASCII decimal digit.
pub open spec fn is_digit(c: char) -> bool {
    '0' <= c && c <= '9'
}

/// The numeric value of an ASCII decimal digit.
pub open spec fn digit_val(c: char) -> int {
    c as int - '0' as int
}

/// A well-formed duration tag: at least `HH:MM:SS` long, with colons
/// separating the fields and the minutes and seconds fields numeric.
/// Nothing is demanded of the hours field, which is never read.
pub open spec fn valid_duration(s: Seq<char>) -> bool {
    &&& s.len() >= 8
    &&& s[2] == ':'
    &&& s[5] == ':'
    &&& is_digit(s[3])
    &&& is_digit(s[4])
    &&& is_digit(s[6])
    &&& is_digit(s[7])
}

/// The seconds denoted by a well-formed duration tag: minutes times
/// sixty plus seconds, the hours field ignored.
pub open spec fn duration_secs(s: Seq<char>) -> int {
    (10 * digit_val(s[3]) + digit_val(s[4])) * 60 + 10 * digit_val(s[6]) + digit_val(s[7])
}

/// The numeric value of `c`, or `None` if `c` is not a decimal digit.
fn digit(c: char) -> (r: Option<u16>)
    ensures
        is_digit(c) ==> r == Some((digit_val(c)) as u16),
        !is_digit(c) ==> r == Option::<u16>::None,
{
    if '0' <= c && c <= '9' {
        Some(c as u16 - '0' as u16)
    } else {
        None
    }
}

/// Parses a duration tag into whole seconds.
///
/// Returns `Ok` exactly on well-formed tags; a tag that is too short,
/// lacks a colon, or has a non-numeric minutes or seconds field is
/// reported as `MetadataUnavailable`.
pub fn parse_duration(s: &str) -> (r: Result<u16, MusicError>)
    ensures
        valid_duration(s@) ==> r == Ok::<u16, MusicError>((duration_secs(s@)) as u16),
        !valid_duration(s@) ==> r == Err::<u16, MusicError>(MusicError::MetadataUnavailable),
{
    let n = s.unicode_len();
    if n < 8 {
        return Err(MusicError::MetadataUnavailable);
    }
    if s.get_char(2) != ':' || s.get_char(5) != ':' {
        return Err(MusicError::MetadataUnavailable);
    }
    let m10 = digit(s.get_char(3));
    let m1 = digit(s.get_char(4));
    let s10 = digit(s.get_char(6));
    let s1 = digit(s.get_char(7));
    match (m10, m1, s10, s1) {
        (Some(a), Some(b), Some(c), Some(d)) => Ok((10 * a + b) * 60 + 10 * c + d),
        _ => Err(MusicError::MetadataUnavailable),
    }
}

} // verus!
