//! Spans of time, counted in whole milliseconds.

use vstd::prelude::*;

verus! {

/// A span of time in whole milliseconds. It may be negative.
#[derive(Debug, Clone, Copy, PartialEq, Eq, PartialOrd, Ord, Hash, Structural)]
pub struct TimeSpan {
    milliseconds: i64,
}

impl View for TimeSpan {
    type V = int;

    /// The span's length in milliseconds.
    closed spec fn view(&self) -> int {
        self.milliseconds as int
    }
}

impl TimeSpan {
    /// The span of `ms` milliseconds.
    pub fn from_milliseconds(ms: i64) -> (span: Self)
        ensures
            span@ == ms,
    {
        TimeSpan { milliseconds: ms }
    }

    /// The span of `seconds` seconds. The number of milliseconds must fit
    /// in an `i64`.
    pub fn from_seconds(seconds: i64) -> (span: Self)
        requires
            i64::MIN <= seconds * 1000 <= i64::MAX,
        ensures
            span@ == seconds * 1000,
    {
        TimeSpan { milliseconds: seconds * 1000 }
    }

    /// The span of `seconds` seconds where its milliseconds fit in an
    /// `i64`, and `None` where they do not.
    pub fn checked_from_seconds(seconds: i64) -> (span: Option<Self>)
        ensures
            span.is_some() == (i64::MIN <= seconds * 1000 <= i64::MAX),
            span.is_some() ==> span.unwrap()@ == seconds * 1000,
    {
        if -9223372036854775 <= seconds && seconds <= 9223372036854775 {
            Some(TimeSpan::from_seconds(seconds))
        } else {
            None
        }
    }

    /// The empty span.
    pub fn zero() -> (span: Self)
        ensures
            span@ == 0,
    {
        TimeSpan { milliseconds: 0 }
    }

    /// The span as the period of a timer: its milliseconds where it is not
    /// negative, and the milliseconds plus 2^64 where it is.
    pub fn period_milliseconds(&self) -> (ms: u64)
        ensures
            self@ >= 0 ==> ms == self@,
            self@ < 0 ==> ms == self@ + 0x1_0000_0000_0000_0000,
    {
        if self.milliseconds >= 0 {
            self.milliseconds as u64
        } else {
            let below: u64 = (-(self.milliseconds + 1)) as u64;
            u64::MAX - below
        }
    }

    /// The span's length in milliseconds.
    pub fn total_milliseconds(&self) -> (ms: i64)
        ensures
            ms == self@,
    {
        self.milliseconds
    }
}

/// Two spans with the same number of milliseconds are the same span.
pub proof fn lemma_span_is_its_milliseconds(a: TimeSpan, b: TimeSpan)
    ensures
        a@ == b@ <==> a == b,
{
}

/// What a ticker tells its listener at each tick.
#[derive(Debug, Clone, Copy)]
pub struct TickEvent {
    pub time_since_last_tick: TimeSpan,
    pub total_time_elapsed: TimeSpan,
}

/// Options of a ticker.
pub struct TickerOptions {
    /// Text to report when a tick fails.
    pub on_error: Option<String>,
}

impl Default for TickerOptions {
    fn default() -> (options: Self)
        ensures
            options.on_error is None,
    {
        TickerOptions { on_error: None }
    }
}

} // verus!
