//! How long a snapshot may get before it is rebuilt, as the operator wrote it.

use crate::text::chars_of;
use vstd::prelude::*;

verus! {

/// The interval used where none is set, or where the one set cannot be read:
/// five minutes, in milliseconds.
pub const DEFAULT_INTERVAL: u64 = 300_000;

/// How many decimal digits a setting may hold and still be read.
///
/// `humantime` adds up the seconds of all the spans it reads. With this many
/// digits in the whole text, however they are spread over spans, the sum stays
/// far below what a `u64` holds.
pub const MAX_SETTING_DIGITS: usize = 11;

/// `c` is one of `0` to `9`.
pub open spec fn is_decimal_digit(c: char) -> bool {
    '0' <= c && c <= '9'
}

/// How many characters of `text` are decimal digits.
pub open spec fn decimal_digits(text: Seq<char>) -> nat
    decreases text.len(),
{
    if text.len() == 0 {
        0
    } else {
        decimal_digits(text.drop_last()) + if is_decimal_digit(text.last()) {
            1nat
        } else {
            0nat
        }
    }
}

/// `text` is short enough to be handed to `humantime`.
pub open spec fn is_readable_setting(text: Seq<char>) -> bool {
    decimal_digits(text) <= MAX_SETTING_DIGITS
}

/// What `humantime` reads from `text`: the whole seconds of the duration and
/// the nanoseconds beyond them; `None` where it refuses `text`.
pub uninterp spec fn parsed_duration(text: Seq<char>) -> Option<(u64, u32)>;

/// Calls `humantime::parse_duration` and takes the result apart with
/// `Duration::as_secs` and `Duration::subsec_nanos`. The contract only gives
/// the result its name.
///
/// The outside function panics where the seconds it has added up are the
/// most a `u64` holds and the nanoseconds make one more; texts with more than
/// [`MAX_SETTING_DIGITS`] digits, which alone can add up to that, are left out.
#[verifier::external_body]
fn parse_duration(text: &str) -> (parsed: Option<(u64, u32)>)
    requires
        is_readable_setting(text@),
    ensures
        parsed == parsed_duration(text@),
{
    humantime::parse_duration(text).ok().map(|d| (d.as_secs(), d.subsec_nanos()))
}

/// The milliseconds in `seconds` seconds and `nanos` nanoseconds, rounded
/// down, and no more than a `u64` holds.
pub open spec fn milliseconds(seconds: u64, nanos: u32) -> u64 {
    if seconds * 1000 + nanos / 1_000_000 <= u64::MAX {
        (seconds * 1000 + nanos / 1_000_000) as u64
    } else {
        u64::MAX
    }
}

/// The interval that a reading gives: its milliseconds, or the default
/// where nothing could be read.
pub open spec fn interval_of(parsed: Option<(u64, u32)>) -> u64 {
    match parsed {
        Some((seconds, nanos)) => milliseconds(seconds, nanos),
        None => DEFAULT_INTERVAL,
    }
}

/// The interval for what the operator set: the duration written in the
/// setting where it is short enough to be read, the default where it is not
/// or where nothing is set.
pub open spec fn interval_for(setting: Option<Seq<char>>) -> u64 {
    match setting {
        Some(text) => if is_readable_setting(text) {
            interval_of(parsed_duration(text))
        } else {
            DEFAULT_INTERVAL
        },
        None => DEFAULT_INTERVAL,
    }
}

/// Whether `text` holds no more decimal digits than a setting may.
pub fn has_readable_length(text: &str) -> (readable: bool)
    ensures
        readable == is_readable_setting(text@),
{
    let chars = chars_of(text);
    let mut digits: usize = 0;
    let mut i: usize = 0;
    while i < chars.len()
        invariant
            i <= chars.len(),
            digits <= i,
            digits == decimal_digits(chars@.take(i as int)),
        decreases chars.len() - i,
    {
        assert(chars@.take(i + 1).drop_last() =~= chars@.take(i as int));
        if chars[i] >= '0' && chars[i] <= '9' {
            digits += 1;
        }
        i += 1;
    }
    assert(chars@.take(i as int) =~= chars@);
    digits <= MAX_SETTING_DIGITS
}

/// The interval, in milliseconds, that a reading of the setting gives.
pub fn interval_in_milliseconds(parsed: Option<(u64, u32)>) -> (interval: u64)
    ensures
        interval == interval_of(parsed),
{
    match parsed {
        Some((seconds, nanos)) => {
            let beyond: u64 = (nanos / 1_000_000) as u64;
            if seconds > (u64::MAX - beyond) / 1000 {
                u64::MAX
            } else {
                seconds * 1000 + beyond
            }
        },
        None => DEFAULT_INTERVAL,
    }
}

/// The interval between updates, in milliseconds, for what the operator
/// set: the duration written in `setting`, or the default where nothing is
/// set, where the setting holds more digits than can be read, or where what
/// is set cannot be read as a duration.
pub fn interval_between_updates(setting: Option<&str>) -> (interval: u64)
    ensures
        interval == interval_for(
            match setting {
                Some(text) => Some(text@),
                None => None,
            },
        ),
{
    match setting {
        Some(text) => {
            if has_readable_length(text) {
                interval_in_milliseconds(parse_duration(text))
            } else {
                DEFAULT_INTERVAL
            }
        },
        None => DEFAULT_INTERVAL,
    }
}

} // verus!
