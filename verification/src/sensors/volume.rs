//! The volume of the sound output, as the command `vol get` prints it.

use crate::error::{BarError, BarErrorView};
use crate::message::{Message, MessageView};
use crate::sensors::{output_text, said, text_result_is, Output, PollPhase, Poller};
use crate::text::{trim_text, trimmed};
use std::time::Duration;
use vstd::prelude::*;

verus! {

/// The probe of the volume.
#[derive(Debug)]
pub struct Volume {
    /// How long the probe sleeps between two readings.
    pub interval: Duration,
}

impl Volume {
    /// A probe that reads the volume every `interval`.
    pub fn new(interval: Duration) -> (probe: Volume)
        ensures
            probe.interval == interval,
    {
        Volume { interval }
    }

    /// The rhythm of the probe: without a first reading it does not start.
    pub fn poller(&self) -> (poller: Poller)
        ensures
            poller.phase == PollPhase::Registering,
            poller.interval == self.interval,
            poller.fail_fast,
            poller.label@ == "volume sensor ERROR: "@,
    {
        Poller::new(self.interval, true, "volume sensor ERROR: ".to_owned())
    }

    /// The message of one reading, from what `vol get` left behind.
    pub fn reading(&self, output: &Output) -> (r: Result<Message, BarError>)
        ensures
            match volume_said(*output) {
                Ok(text) => r is Ok && r->Ok_0@ == MessageView::Volume(text),
                Err(e) => r is Err && r->Err_0@ == e,
            },
    {
        match get_volume(output) {
            Ok(text) => Ok(Message::Volume(text)),
            Err(e) => Err(e),
        }
    }
}

/// The volume that the command printed: its output without the white space
/// round it, or why there is none.
pub open spec fn volume_said(output: Output) -> Result<Seq<char>, BarErrorView> {
    match said(output, "'vol get' ERROR: "@) {
        Ok(text) => Ok(trimmed(text)),
        Err(e) => Err(e),
    }
}

/// The volume that `vol get` printed.
pub fn get_volume(output: &Output) -> (r: Result<String, BarError>)
    ensures
        text_result_is(r, volume_said(*output)),
{
    match output_text(output, "'vol get' ERROR: ") {
        Ok(text) => Ok(trim_text(text.as_str())),
        Err(e) => Err(e),
    }
}

} // verus!
