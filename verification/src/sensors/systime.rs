//! The time of day, written out from a reading of the clock.

use crate::error::{BarError, BarErrorView};
use crate::message::{Message, MessageView};
use crate::sensors::wifi::text_view;
use crate::sensors::{PollPhase, Poller};
use std::time::Duration;
use vstd::prelude::*;

verus! {

/// The probe of the clock.
#[derive(Debug)]
pub struct SysTime {
    /// How long the probe sleeps between two readings.
    pub interval: Duration,
}

/// The moment `timestamp` seconds after the start of 1970 in UTC, on a clock
/// that stands `offset` seconds east of UTC, written as year, month, day,
/// hour, minute and second. There is none for a moment or an offset that
/// `chrono` cannot hold.
pub uninterp spec fn time_text(timestamp: int, offset: int) -> Option<Seq<char>>;

/// The text of the error for a reading of the clock that cannot be written.
pub open spec fn out_of_range_text() -> Seq<char> {
    "clock out of range"@
}

/// Writes a moment on a clock with a fixed offset.
///
/// Trusted: `chrono::DateTime::from_timestamp` and
/// `chrono::FixedOffset::east_opt`, which give nothing for what is out of
/// their range, then `DateTime::with_timezone` and `DateTime::format` with
/// `%Y-%m-%d %H:%M:%S`. The year takes at least four characters and each
/// other number two, so that the text has at least nineteen.
#[verifier::external_body]
fn format_time(timestamp: i64, offset: i32) -> (text: Option<String>)
    ensures
        text_view(text) == time_text(timestamp as int, offset as int),
        text is Some ==> text->Some_0@.len() >= 19,
{
    let utc = chrono::DateTime::from_timestamp(timestamp, 0)?;
    let zone = chrono::FixedOffset::east_opt(offset)?;
    Some(utc.with_timezone(&zone).format("%Y-%m-%d %H:%M:%S").to_string())
}

impl SysTime {
    /// A probe that reads the clock every `interval`.
    pub fn new(interval: Duration) -> (probe: SysTime)
        ensures
            probe.interval == interval,
    {
        SysTime { interval }
    }

    /// The rhythm of the probe: it starts whatever its first reading gives.
    pub fn poller(&self) -> (poller: Poller)
        ensures
            poller.phase == PollPhase::Registering,
            poller.interval == self.interval,
            !poller.fail_fast,
            poller.label@ == "SysTime ERROR: "@,
    {
        Poller::new(self.interval, false, "SysTime ERROR: ".to_owned())
    }

    /// The message of one reading of the clock, where the clock shows
    /// `timestamp` seconds since the start of 1970 in UTC and the local time
    /// stands `offset` seconds east of UTC: the local time as text. A reading
    /// that cannot be written is an error of the bar.
    pub fn reading(&self, timestamp: i64, offset: i32) -> (r: Result<Message, BarError>)
        ensures
            match time_text(timestamp as int, offset as int) {
                Some(text) => r is Ok && r->Ok_0@ == MessageView::Time(text) && text.len() >= 19,
                None => r is Err && r->Err_0@ == BarErrorView::Bar(out_of_range_text()),
            },
    {
        SysTime::message_of(format_time(timestamp, offset))
    }

    /// The message for a reading of the clock that was written as `written`:
    /// the time as it was written, or an error of the bar for a reading that
    /// could not be written.
    pub fn message_of(written: Option<String>) -> (r: Result<Message, BarError>)
        ensures
            match written {
                Some(text) => r is Ok && r->Ok_0@ == MessageView::Time(text@),
                None => r is Err && r->Err_0@ == BarErrorView::Bar(out_of_range_text()),
            },
    {
        match written {
            Some(text) => Ok(Message::Time(text)),
            None => Err(BarError::Bar("clock out of range".to_owned())),
        }
    }
}

} // verus!
