//! The battery, as the three files of the power supply describe it.

use crate::message::{Message, MessageView};
use crate::sensors::{PollPhase, Poller};
use crate::text::{chars_of, split, split_chars, string_of, trim, trimmed, views};
use std::time::Duration;
use vstd::prelude::*;

verus! {

/// The file that holds the capacity of the battery in percent.
pub const CAPACITY_PATH: &'static str = "/sys/class/power_supply/BAT1/capacity";

/// The file that says whether mains power is on.
pub const AC_PATH: &'static str = "/sys/class/power_supply/AC/online";

/// The file that says whether the battery charges or discharges.
pub const STATUS_PATH: &'static str = "/sys/class/power_supply/BAT1/status";

/// The probe of the battery.
#[derive(Debug)]
pub struct Battery {
    /// How long the probe sleeps between two readings.
    pub interval: Duration,
}

/// What a file of the power supply says: its first line, without the white
/// space round it.
pub open spec fn info_line(contents: Seq<char>) -> Seq<char> {
    trimmed(split(contents, '\n').first())
}

impl Battery {
    /// A probe that reads the battery every `interval`.
    pub fn new(interval: Duration) -> (probe: Battery)
        ensures
            probe.interval == interval,
    {
        Battery { interval }
    }

    /// The rhythm of the probe: without a first reading it does not start.
    pub fn poller(&self) -> (poller: Poller)
        ensures
            poller.phase == PollPhase::Registering,
            poller.interval == self.interval,
            poller.fail_fast,
            poller.label@ == "Battery Sensor Error: "@,
    {
        Poller::new(self.interval, true, "Battery Sensor Error: ".to_owned())
    }

    /// The message of one reading, from the contents of the three files.
    pub fn reading(capacity: &str, status: &str, ac: &str) -> (msg: Message)
        ensures
            msg@ == MessageView::Battery(info_line(capacity@), info_line(status@), info_line(ac@)),
    {
        Message::Battery((read_info_file(capacity), read_info_file(status), read_info_file(ac)))
    }
}

/// What a file of the power supply says.
pub fn read_info_file(contents: &str) -> (line: String)
    ensures
        line@ == info_line(contents@),
{
    let chars = chars_of(contents);
    let lines = split_chars(&chars, '\n');
    assert(views(lines@).len() == lines@.len());
    assert(split(chars@, '\n').len() >= 1);
    let kept = trim(&lines[0]);
    string_of(kept.as_slice())
}

} // verus!
