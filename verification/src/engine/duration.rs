//! Spans of time as whole seconds and a nanosecond remainder.

use vstd::prelude::*;
use crate::text::{count_digits, has_more_digits_than};

verus! {

/// What `humantime::parse_duration` makes of a text: the seconds and the
/// nanosecond remainder of the span it reads, or `None` where it reports an
/// error.
pub uninterp spec fn humantime_duration(text: Seq<char>) -> Option<(u64, u32)>;

/// The most decimal digits a text may hold for the reading to be certain to
/// return: with more, the seconds of the span may reach the end of their
/// range while it is being summed up.
pub const MAX_DURATION_DIGITS: usize = 11;

/// Whether a text is short enough in digits to be handed to the reader.
pub open spec fn readable(text: Seq<char>) -> bool {
    count_digits(text) <= MAX_DURATION_DIGITS
}

/// Reads a span such as `30s`, `15m` or `1h 30m`.
///
/// Trusted: calls `humantime::parse_duration`, whose result depends on the text
/// alone; the contract gives that result its name, and adds that the remainder
/// of a span it returns is under one second, as `Duration::subsec_nanos`
/// documents. The call can overflow inside `Duration::new` once the seconds
/// reach `u64::MAX`; a text needs more than eleven digits for that, so such
/// texts are kept out.
#[verifier::external_body]
fn humantime_parse(text: &str) -> (parsed: Option<Duration>)
    requires
        readable(text@),
    ensures
        parsed == as_duration(humantime_duration(text@)),
        parsed matches Some(d) ==> d.wf(),
{
    match humantime::parse_duration(text) {
        Ok(span) => Some(Duration { secs: span.as_secs(), nanos: span.subsec_nanos() }),
        Err(_) => None,
    }
}

/// The span made of seconds and a nanosecond remainder, where there is one.
pub open spec fn as_duration(parts: Option<(u64, u32)>) -> Option<Duration> {
    match parts {
        Some((secs, nanos)) => Some(Duration { secs, nanos }),
        None => None,
    }
}

/// Nanoseconds in one second.
pub const NANOS_PER_SEC: u32 = 1_000_000_000;

/// Nanoseconds in one millisecond.
pub const NANOS_PER_MILLI: u32 = 1_000_000;

/// A span of time: `secs` whole seconds and `nanos` further nanoseconds.
///
/// A well-formed span keeps `nanos` under one second, so that equal spans have
/// equal fields. Every constructor here returns a well-formed span.
#[derive(Clone, Copy, Debug, PartialEq, Eq, Structural)]
pub struct Duration {
    /// Whole seconds.
    pub secs: u64,
    /// Nanoseconds beyond the whole seconds.
    pub nanos: u32,
}

impl Duration {
    /// The remainder is less than one second.
    pub open spec fn wf(self) -> bool {
        self.nanos < NANOS_PER_SEC
    }

    /// The span in nanoseconds.
    pub open spec fn total_nanos(self) -> nat {
        (self.secs as nat) * (NANOS_PER_SEC as nat) + (self.nanos as nat)
    }

    /// The empty span.
    pub fn zero() -> (d: Self)
        ensures
            d == (Duration { secs: 0, nanos: 0 }),
            d.wf(),
    {
        Duration { secs: 0, nanos: 0 }
    }

    /// A span of `secs` seconds.
    pub fn from_secs(secs: u64) -> (d: Self)
        ensures
            d == (Duration { secs, nanos: 0 }),
            d.wf(),
    {
        Duration { secs, nanos: 0 }
    }

    /// A span of `millis` milliseconds.
    pub fn from_millis(millis: u64) -> (d: Self)
        ensures
            d.secs == millis / 1000,
            d.nanos == (millis % 1000) * NANOS_PER_MILLI,
            d.wf(),
            d.total_nanos() == millis * NANOS_PER_MILLI,
    {
        let rest: u32 = (millis % 1000) as u32;
        let d = Duration { secs: millis / 1000, nanos: rest * NANOS_PER_MILLI };
        assert(d.total_nanos() == millis * NANOS_PER_MILLI) by (nonlinear_arith)
            requires
                d.secs == millis / 1000,
                d.nanos == (millis % 1000) * 1_000_000,
                d.total_nanos() == d.secs * 1_000_000_000 + d.nanos,
        ;
        d
    }

    /// The span of `secs` seconds and `nanos` nanoseconds, with whole seconds
    /// among the nanoseconds carried over; `None` where the seconds would not
    /// fit.
    pub fn new(secs: u64, nanos: u32) -> (d: Option<Self>)
        ensures
            match d {
                Some(d) => d.wf() && d.secs == secs + nanos / NANOS_PER_SEC && d.nanos == nanos
                    % NANOS_PER_SEC,
                None => secs + nanos / NANOS_PER_SEC > u64::MAX,
            },
    {
        let carry: u64 = (nanos / NANOS_PER_SEC) as u64;
        if secs > u64::MAX - carry {
            None
        } else {
            Some(Duration { secs: secs + carry, nanos: nanos % NANOS_PER_SEC })
        }
    }

    /// The whole seconds of the span.
    pub fn as_secs(&self) -> (secs: u64)
        ensures
            secs == self.secs,
    {
        self.secs
    }

    /// The nanoseconds beyond the whole seconds.
    pub fn subsec_nanos(&self) -> (nanos: u32)
        ensures
            nanos == self.nanos,
    {
        self.nanos
    }

    /// The whole milliseconds of the span.
    pub fn as_millis(&self) -> (millis: u128)
        ensures
            millis == self.secs * 1000 + self.nanos / NANOS_PER_MILLI,
    {
        (self.secs as u128) * 1000 + ((self.nanos / NANOS_PER_MILLI) as u128)
    }

    /// The span that `text` is read as: what `humantime` makes of it.
    pub open spec fn spec_parse(text: Seq<char>) -> Option<Duration> {
        as_duration(humantime_duration(text))
    }

    /// Reads a span such as `30s`, `15m` or `1h 30m`; `None` for a text that
    /// is no span. The text may hold eleven digits at most: see
    /// [`Duration::read`] for a text of which that is not known.
    pub fn parse(text: &str) -> (parsed: Option<Self>)
        requires
            readable(text@),
        ensures
            parsed == Self::spec_parse(text@),
            parsed matches Some(d) ==> d.wf(),
    {
        humantime_parse(text)
    }

    /// Reads a span where the text holds eleven digits at most, and says so
    /// where it holds more: `None` means that nothing was read, `Some` holds
    /// what [`Duration::parse`] makes of the text.
    pub fn read(text: &str) -> (reading: Option<Option<Self>>)
        ensures
            match reading {
                Some(parsed) => readable(text@) && parsed == Self::spec_parse(text@) && (
                parsed matches Some(d) ==> d.wf()),
                None => !readable(text@),
            },
    {
        if has_more_digits_than(text, MAX_DURATION_DIGITS) {
            None
        } else {
            Some(humantime_parse(text))
        }
    }

    /// Whether the span is empty.
    pub fn is_zero(&self) -> (empty: bool)
        ensures
            empty == (self.secs == 0 && self.nanos == 0),
    {
        self.secs == 0 && self.nanos == 0
    }
}

} // verus!
