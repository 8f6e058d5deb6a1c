use vstd::prelude::*;
use crate::error::UpdateError;
use crate::text::{absolute_name, full_record_name};

verus! {

/// The whole seconds of the duration that `humantime::parse_duration` reads
/// from a text such as "5s" or "2h 37min", or `None` where it refuses the text.
pub uninterp spec fn parsed_duration_secs(text: Seq<char>) -> Option<u64>;

/// The most decimal digits an interval text may hold. With at most this many
/// digits every sum of terms stays far below `u64::MAX` seconds (a year is
/// about 3.2e7 seconds), where humantime's carry of nanoseconds could
/// otherwise overflow the seconds of a `Duration` and panic.
pub const MAX_INTERVAL_DIGITS: usize = 11;

/// Whether `c` is one of the ASCII digits that humantime reads as a number.
pub open spec fn is_ascii_digit(c: char) -> bool {
    '0' <= c <= '9'
}

/// The number of ASCII digits in `s`.
pub open spec fn digit_count(s: Seq<char>) -> nat
    decreases s.len(),
{
    if s.len() == 0 {
        0
    } else {
        digit_count(s.drop_last()) + if is_ascii_digit(s.last()) {
            1nat
        } else {
            0nat
        }
    }
}

/// Relies on `humantime::parse_duration` to read a duration with unit
/// suffixes; keeps the whole seconds of what it returns. The bound on digits
/// keeps the parser away from the inputs on which it panics.
#[verifier::external_body]
fn parse_duration_secs(text: &str) -> (r: Option<u64>)
    requires
        digit_count(text@) <= MAX_INTERVAL_DIGITS,
    ensures
        r == parsed_duration_secs(text@),
{
    humantime::parse_duration(text).ok().map(|d| d.as_secs())
}

/// The polling interval for a number of seconds: it must fit in 32 bits.
pub open spec fn interval_of_secs(secs: u64) -> Result<u32, UpdateError> {
    if secs <= u32::MAX {
        Ok(secs as u32)
    } else {
        Err(UpdateError::Config)
    }
}

/// Checks that an interval of `secs` seconds is in the supported range.
pub fn interval_from_secs(secs: u64) -> (r: Result<u32, UpdateError>)
    ensures
        r == interval_of_secs(secs),
{
    if secs <= 0xffff_ffffu64 {
        Ok(secs as u32)
    } else {
        Err(UpdateError::Config)
    }
}

/// The polling interval that a text with a unit suffix stands for; a text
/// with more digits than any supported interval needs is out of range.
pub open spec fn interval_of_text(text: Seq<char>) -> Result<u32, UpdateError> {
    if digit_count(text) > MAX_INTERVAL_DIGITS {
        Err(UpdateError::Config)
    } else {
        match parsed_duration_secs(text) {
            Some(secs) => interval_of_secs(secs),
            None => Err(UpdateError::Config),
        }
    }
}

/// Counts the ASCII digits of `text`.
fn count_digits(text: &str) -> (n: usize)
    ensures
        n == digit_count(text@),
{
    let len = text.unicode_len();
    let mut n: usize = 0;
    let mut i: usize = 0;
    while i < len
        invariant
            len == text@.len(),
            i <= len,
            n <= i,
            n == digit_count(text@.subrange(0, i as int)),
        decreases len - i,
    {
        let c = text.get_char(i);
        assert(text@.subrange(0, i + 1).drop_last() =~= text@.subrange(0, i as int));
        if '0' <= c && c <= '9' {
            n = n + 1;
        }
        i = i + 1;
    }
    assert(text@.subrange(0, len as int) =~= text@);
    n
}

/// Reads a polling interval written with a unit suffix ("5s", "10min").
pub fn parse_interval(text: &str) -> (r: Result<u32, UpdateError>)
    ensures
        r == interval_of_text(text@),
{
    if count_digits(text) > MAX_INTERVAL_DIGITS {
        return Err(UpdateError::Config);
    }
    match parse_duration_secs(text) {
        Some(secs) => interval_from_secs(secs),
        None => Err(UpdateError::Config),
    }
}

/// The validated startup parameters of the updater, shared read-only by
/// every tick.
#[derive(Clone, Debug)]
pub struct Config {
    pub hosted_zone_id: String,
    /// The record's name in absolute (dot-terminated) form, used for both
    /// reading and writing.
    pub full_record_name: String,
    pub interval_seconds: u32,
    pub verbose: bool,
}

impl Config {
    /// Validates the startup parameters; the interval text (with a unit
    /// suffix) is checked before the updater makes any network call.
    pub fn new(hosted_zone_id: String, record_set_name: &str, interval: &str, verbose: bool) -> (r: Result<
        Config,
        UpdateError,
    >)
        ensures
            match interval_of_text(interval@) {
                Ok(secs) => r is Ok && r->Ok_0.hosted_zone_id == hosted_zone_id
                    && r->Ok_0.full_record_name@ == absolute_name(record_set_name@)
                    && r->Ok_0.interval_seconds == secs && r->Ok_0.verbose == verbose,
                Err(e) => r == Err::<Config, UpdateError>(e),
            },
    {
        match parse_interval(interval) {
            Ok(secs) => Ok(
                Config {
                    hosted_zone_id,
                    full_record_name: full_record_name(record_set_name),
                    interval_seconds: secs,
                    verbose,
                },
            ),
            Err(e) => Err(e),
        }
    }
}

} // verus!
