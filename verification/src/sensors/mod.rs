//! The probes that feed the bar, each as the rules by which its readings
//! become messages, and the rhythm in which a polling probe reads.

use crate::error::{BarError, BarErrorView};
use crate::message::{Message, MessageView};
use crate::text::concat;
use std::time::Duration;
use vstd::prelude::*;
use vstd::utf8::{decode_utf8, valid_utf8};

pub mod battery;
pub mod diskusage;
pub mod i3workspace;
pub mod ipc;
pub mod systime;
pub mod volume;
pub mod wifi;

verus! {

/// What a command left behind when it ended.
#[derive(Debug)]
pub struct Output {
    /// Whether the command ended well.
    pub success: bool,
    /// What it wrote to its standard output.
    pub stdout: Vec<u8>,
    /// What it wrote to its standard error.
    pub stderr: Vec<u8>,
}

/// The text with which `std::str::from_utf8` refuses bytes that are not
/// UTF-8.
pub uninterp spec fn utf8_error_text(bytes: Seq<u8>) -> Seq<char>;

/// The text of `bytes`, or why they are no text.
///
/// Trusted: `std::str::from_utf8`, which gives the text of bytes that are
/// valid UTF-8 and an error for all others; the error is handed on as the
/// text that it displays.
#[verifier::external_body]
pub(crate) fn strict_text(bytes: &[u8]) -> (r: Result<String, String>)
    ensures
        match r {
            Ok(text) => valid_utf8(bytes@) && text@ == decode_utf8(bytes@),
            Err(why) => !valid_utf8(bytes@) && why@ == utf8_error_text(bytes@),
        },
{
    match std::str::from_utf8(bytes) {
        Ok(text) => Ok(text.to_owned()),
        Err(e) => Err(e.to_string()),
    }
}

/// What a command has to say: the text of its standard output where it ended
/// well, and else an error of the bar that holds `label` and the text of its
/// standard error. Output that is not UTF-8 is a UTF-8 error either way.
pub open spec fn said(output: Output, label: Seq<char>) -> Result<Seq<char>, BarErrorView> {
    if !output.success {
        if valid_utf8(output.stderr@) {
            Err(BarErrorView::Bar(label + decode_utf8(output.stderr@)))
        } else {
            Err(BarErrorView::Utf8(utf8_error_text(output.stderr@)))
        }
    } else if valid_utf8(output.stdout@) {
        Ok(decode_utf8(output.stdout@))
    } else {
        Err(BarErrorView::Utf8(utf8_error_text(output.stdout@)))
    }
}

/// Whether a text or an error is the one that is expected, each taken by its
/// view.
pub open spec fn text_result_is(
    r: Result<String, BarError>,
    expected: Result<Seq<char>, BarErrorView>,
) -> bool {
    match r {
        Ok(text) => expected == Ok::<Seq<char>, BarErrorView>(text@),
        Err(e) => expected == Err::<Seq<char>, BarErrorView>(e@),
    }
}

/// What a command has to say.
pub fn output_text(output: &Output, label: &str) -> (r: Result<String, BarError>)
    ensures
        text_result_is(r, said(*output, label@)),
{
    if !output.success {
        match strict_text(output.stderr.as_slice()) {
            Ok(complaint) => Err(BarError::Bar(concat(label, complaint.as_str()))),
            Err(why) => Err(BarError::Utf8(why)),
        }
    } else {
        match strict_text(output.stdout.as_slice()) {
            Ok(text) => Ok(text),
            Err(why) => Err(BarError::Utf8(why)),
        }
    }
}

/// Where a polling probe stands.
#[derive(Debug, Clone, Copy, PartialEq, Eq, Structural)]
pub enum PollPhase {
    /// The first reading is due, before the probe counts as started.
    Registering,
    /// A further reading is due.
    Reading,
    /// The probe sleeps for its interval, unless it is woken before.
    Parked,
    /// The first reading failed and the probe was not started.
    Failed,
}

/// What happened to a polling probe.
#[derive(Debug)]
pub enum PollEvent {
    /// The reading that was due has been made, or has failed.
    Read(Result<Message, BarError>),
    /// The sleep has ended: the interval is over, or the probe was woken.
    Woken,
}

/// A `PollEvent` by its views.
pub enum PollEventView {
    Read(Result<MessageView, BarErrorView>),
    Woken,
}

impl View for PollEvent {
    type V = PollEventView;

    open spec fn view(&self) -> PollEventView {
        match self {
            PollEvent::Read(Ok(msg)) => PollEventView::Read(Ok(msg@)),
            PollEvent::Read(Err(e)) => PollEventView::Read(Err(e@)),
            PollEvent::Woken => PollEventView::Woken,
        }
    }
}

/// What a polling probe asks for after an event.
#[derive(Debug, PartialEq, Eq)]
pub struct PollDecision {
    /// A reading for the bus.
    pub send: Option<Message>,
    /// A failure to tell the user of; the probe goes on.
    pub report: Option<String>,
    /// The failure for which the probe was not started.
    pub failure: Option<BarError>,
}

/// The views of what a polling probe asks for.
pub struct PollDecisionView {
    pub send: Option<MessageView>,
    pub report: Option<Seq<char>>,
    pub failure: Option<BarErrorView>,
}

impl View for PollDecision {
    type V = PollDecisionView;

    open spec fn view(&self) -> PollDecisionView {
        PollDecisionView {
            send: match self.send {
                Some(msg) => Some(msg@),
                None => None,
            },
            report: match self.report {
                Some(text) => Some(text@),
                None => None,
            },
            failure: match self.failure {
                Some(e) => Some(e@),
                None => None,
            },
        }
    }
}

/// The rhythm of a probe that reads at intervals: one reading at once, then
/// a sleep of one interval before each further reading.
#[derive(Debug)]
pub struct Poller {
    pub phase: PollPhase,
    /// How long the probe sleeps between two readings.
    pub interval: Duration,
    /// Whether the probe needs its first reading to succeed: without it the
    /// probe is not started.
    pub fail_fast: bool,
    /// The words that come before the text of a failure that is reported.
    pub label: String,
}

/// The phase of a polling probe after an event. A reading, made or failed,
/// is followed by a sleep, but for the first reading of a probe that needs
/// it: its failure ends the probe. The end of a sleep is followed by a
/// reading. An event that the phase does not wait for changes nothing.
pub open spec fn poll_next(phase: PollPhase, fail_fast: bool, event: PollEventView) -> PollPhase {
    match (phase, event) {
        (PollPhase::Registering, PollEventView::Read(Err(_))) => if fail_fast {
            PollPhase::Failed
        } else {
            PollPhase::Parked
        },
        (PollPhase::Registering, PollEventView::Read(Ok(_))) => PollPhase::Parked,
        (PollPhase::Reading, PollEventView::Read(_)) => PollPhase::Parked,
        (PollPhase::Parked, PollEventView::Woken) => PollPhase::Reading,
        _ => phase,
    }
}

/// What a polling probe asks for after an event: a reading that was made
/// goes to the bus; a reading that failed is reported with the probe's label
/// before it, but for the first reading of a probe that needs it, which is
/// the failure of the probe.
pub open spec fn poll_decision(
    phase: PollPhase,
    fail_fast: bool,
    label: Seq<char>,
    event: PollEventView,
) -> PollDecisionView {
    let nothing = PollDecisionView { send: None, report: None, failure: None };
    match event {
        PollEventView::Read(read) => if phase == PollPhase::Registering || phase
            == PollPhase::Reading {
            match read {
                Ok(msg) => PollDecisionView { send: Some(msg), ..nothing },
                Err(e) => if phase == PollPhase::Registering && fail_fast {
                    PollDecisionView { failure: Some(e), ..nothing }
                } else {
                    PollDecisionView { report: Some(label + e.report()), ..nothing }
                },
            }
        } else {
            nothing
        },
        PollEventView::Woken => nothing,
    }
}

impl Poller {
    /// A probe whose first reading is due.
    pub fn new(interval: Duration, fail_fast: bool, label: String) -> (poller: Poller)
        ensures
            poller.phase == PollPhase::Registering,
            poller.interval == interval,
            poller.fail_fast == fail_fast,
            poller.label == label,
    {
        Poller { phase: PollPhase::Registering, interval, fail_fast, label }
    }

    /// Whether a reading is due now.
    pub fn wants_reading(&self) -> (due: bool)
        ensures
            due == (self.phase == PollPhase::Registering || self.phase == PollPhase::Reading),
    {
        self.phase == PollPhase::Registering || self.phase == PollPhase::Reading
    }

    /// Takes one event and says what goes to the bus and what is reported.
    pub fn step(&mut self, event: PollEvent) -> (decision: PollDecision)
        ensures
            final(self).phase == poll_next(old(self).phase, old(self).fail_fast, event@),
            final(self).interval == old(self).interval,
            final(self).fail_fast == old(self).fail_fast,
            final(self).label == old(self).label,
            decision@ == poll_decision(
                old(self).phase,
                old(self).fail_fast,
                old(self).label@,
                event@,
            ),
    {
        match event {
            PollEvent::Read(read) => {
                if self.phase == PollPhase::Registering || self.phase == PollPhase::Reading {
                    match read {
                        Ok(msg) => {
                            self.phase = PollPhase::Parked;
                            PollDecision { send: Some(msg), report: None, failure: None }
                        },
                        Err(e) => {
                            if self.phase == PollPhase::Registering && self.fail_fast {
                                self.phase = PollPhase::Failed;
                                PollDecision { send: None, report: None, failure: Some(e) }
                            } else {
                                self.phase = PollPhase::Parked;
                                let text = e.to_string();
                                let report = concat(self.label.as_str(), text.as_str());
                                PollDecision { send: None, report: Some(report), failure: None }
                            }
                        },
                    }
                } else {
                    PollDecision { send: None, report: None, failure: None }
                }
            },
            PollEvent::Woken => {
                if self.phase == PollPhase::Parked {
                    self.phase = PollPhase::Reading;
                }
                PollDecision { send: None, report: None, failure: None }
            },
        }
    }
}

/// The phase of a polling probe after a run of events, from its start.
pub open spec fn poll_phase_after(fail_fast: bool, events: Seq<PollEventView>) -> PollPhase
    decreases events.len(),
{
    if events.len() == 0 {
        PollPhase::Registering
    } else {
        poll_next(poll_phase_after(fail_fast, events.drop_last()), fail_fast, events.last())
    }
}

/// The number of readings that a polling probe takes in a run of events.
pub open spec fn readings_taken(fail_fast: bool, events: Seq<PollEventView>) -> nat
    decreases events.len(),
{
    if events.len() == 0 {
        0
    } else {
        let before = poll_phase_after(fail_fast, events.drop_last());
        if events.last() is Read && (before == PollPhase::Registering || before
            == PollPhase::Reading) {
            readings_taken(fail_fast, events.drop_last()) + 1
        } else {
            readings_taken(fail_fast, events.drop_last())
        }
    }
}

/// The number of sleeps that a polling probe ends in a run of events.
pub open spec fn sleeps_ended(fail_fast: bool, events: Seq<PollEventView>) -> nat
    decreases events.len(),
{
    if events.len() == 0 {
        0
    } else if events.last() is Woken && poll_phase_after(fail_fast, events.drop_last())
        == PollPhase::Parked {
        sleeps_ended(fail_fast, events.drop_last()) + 1
    } else {
        sleeps_ended(fail_fast, events.drop_last())
    }
}

/// A polling probe takes its first reading at once and each further reading
/// only after a sleep: with a reading due, as many readings were taken as
/// sleeps have ended, and otherwise one more.
pub proof fn lemma_one_sleep_between_readings(fail_fast: bool, events: Seq<PollEventView>)
    ensures
        match poll_phase_after(fail_fast, events) {
            PollPhase::Registering => readings_taken(fail_fast, events) == 0 && sleeps_ended(
                fail_fast,
                events,
            ) == 0,
            PollPhase::Reading => readings_taken(fail_fast, events) == sleeps_ended(
                fail_fast,
                events,
            ),
            PollPhase::Parked => readings_taken(fail_fast, events) == sleeps_ended(
                fail_fast,
                events,
            ) + 1,
            PollPhase::Failed => readings_taken(fail_fast, events) == 1 && sleeps_ended(
                fail_fast,
                events,
            ) == 0,
        },
    decreases events.len(),
{
    if events.len() > 0 {
        lemma_one_sleep_between_readings(fail_fast, events.drop_last());
    }
}

/// A failed reading after the first does not end a polling probe: once the
/// probe has slept, it never fails.
pub proof fn lemma_transient_failure_goes_on(fail_fast: bool, events: Seq<PollEventView>)
    requires
        readings_taken(fail_fast, events) >= 1,
        poll_phase_after(fail_fast, events) != PollPhase::Failed,
    ensures
        forall|event: PollEventView|
            poll_next(poll_phase_after(fail_fast, events), fail_fast, event) != PollPhase::Failed,
{
    lemma_one_sleep_between_readings(fail_fast, events);
}

} // verus!
