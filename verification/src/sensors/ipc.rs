//! The control socket: how a request becomes a message, what is replied,
//! and when a connection ends.

use crate::error::{BarError, BarErrorView, IoError, IoErrorView, IoKind};
use crate::json::{escape, escaped};
use crate::message::{webpack_of_text, Message, MessageView, WebpackInfo};
use crate::r3ipc::{
    encode_text, frame, too_long_text, REPLY, R3_UNIX_SOCK, RESERVED, UNPARK, WEBPACK,
};
use crate::text::{concat, decimal, decimal_text};
use vstd::prelude::*;
use vstd::utf8::encode_utf8;

verus! {

/// The bit of the type field that marks a frame as an event. It is no part of
/// the type.
pub const EVENT_BIT: u32 = 0x8000_0000;

/// The server of the control socket.
#[derive(Debug)]
pub struct Ipc {
    /// Where the socket is bound.
    pub socket_path: String,
}

impl Ipc {
    /// A server at `socket_path`, or at the usual path where none is given.
    pub fn new(socket_path: Option<&str>) -> (r: Result<Ipc, BarError>)
        ensures
            r is Ok,
            r->Ok_0.socket_path@ == match socket_path {
                Some(path) => path@,
                None => R3_UNIX_SOCK@,
            },
    {
        let socket_path = match socket_path {
            Some(path) => path.to_owned(),
            None => R3_UNIX_SOCK.to_owned(),
        };
        Ok(Ipc { socket_path })
    }

    /// What the server does with the outcome of waiting for a client: it
    /// serves a client that came, and reports a failure and goes on waiting.
    pub fn on_accept(&self, accepted: Result<(), IoError>) -> (report: Option<String>)
        ensures
            match accepted {
                Ok(_) => report is None,
                Err(e) => report is Some && report->Some_0@ == "Ipc ERROR: "@ + e.text@,
            },
    {
        match accepted {
            Ok(_) => None,
            Err(e) => Some(concat("Ipc ERROR: ", e.text.as_str())),
        }
    }
}

/// The type field without the bit that marks an event.
pub open spec fn strip_event_bit(msgint: u32) -> u32 {
    if msgint >= EVENT_BIT {
        (msgint - EVENT_BIT) as u32
    } else {
        msgint
    }
}

/// The text of the error for a type in the reserved range.
pub open spec fn reserved_text(msgtype: u32) -> Seq<char> {
    "r3ipc: reserved code range "@ + decimal(msgtype as nat)
}

/// The text of the error for a type that no request has.
pub open spec fn unknown_text(msgtype: u32) -> Seq<char> {
    "r3ipc: msgtype '"@ + decimal(msgtype as nat) + "' not implemented"@
}

/// The message that a request of type `msgtype` with the given payload
/// stands for. The types up to `RESERVED` are refused, `UNPARK` and `WEBPACK`
/// are the two requests there are, and every other type is refused.
pub open spec fn mapping(msgtype: u32, payload: Seq<char>) -> Result<MessageView, BarErrorView> {
    if msgtype <= RESERVED {
        Err(BarErrorView::Bar(reserved_text(msgtype)))
    } else if msgtype == WEBPACK {
        match webpack_of_text(payload) {
            Ok(info) => Ok(MessageView::Webpack(info)),
            Err(e) => Err(e),
        }
    } else if msgtype == UNPARK {
        Ok(MessageView::Unpark)
    } else {
        Err(BarErrorView::Bar(unknown_text(msgtype)))
    }
}

/// Whether a result is the one that `mapping` gives, each side by its view.
pub open spec fn mapping_is(
    r: Result<Message, BarError>,
    expected: Result<MessageView, BarErrorView>,
) -> bool {
    match r {
        Ok(msg) => expected == Ok::<MessageView, BarErrorView>(msg@),
        Err(e) => expected == Err::<MessageView, BarErrorView>(e@),
    }
}

/// The payload of the reply to a request that was taken.
pub open spec fn ok_text() -> Seq<char> {
    "[{\"success\": true}]"@
}

/// The payload of the reply to a request that was refused for `errmsg`: a
/// JSON document whose one outcome holds `errmsg` as a JSON string.
pub open spec fn err_text(errmsg: Seq<char>) -> Seq<char> {
    "[{\"success\": false, \"error\": \""@ + escaped(errmsg) + "\"}]"@
}

/// The type field without the bit that marks an event.
pub fn logical_type(msgint: u32) -> (msgtype: u32)
    ensures
        msgtype == strip_event_bit(msgint),
        msgtype < EVENT_BIT,
{
    if msgint >= EVENT_BIT {
        msgint - EVENT_BIT
    } else {
        msgint
    }
}

/// The message that a request stands for, or why it stands for none.
pub fn to_message(msgtype: u32, payload: String) -> (r: Result<Message, BarError>)
    ensures
        mapping_is(r, mapping(msgtype, payload@)),
{
    if msgtype <= RESERVED {
        let number = decimal_text(msgtype);
        Err(BarError::Bar(concat("r3ipc: reserved code range ", number.as_str())))
    } else if msgtype == WEBPACK {
        match WebpackInfo::from_str(payload.as_str()) {
            Ok(info) => Ok(Message::Webpack(info)),
            Err(e) => Err(e),
        }
    } else if msgtype == UNPARK {
        Ok(Message::Unpark)
    } else {
        let number = decimal_text(msgtype);
        let front = concat("r3ipc: msgtype '", number.as_str());
        Err(BarError::Bar(concat(front.as_str(), "' not implemented")))
    }
}

/// The payload of the reply to a request that was taken.
pub fn reply_ok() -> (reply: String)
    ensures
        reply@ == ok_text(),
{
    "[{\"success\": true}]".to_owned()
}

/// The payload of the reply to a request that was refused for `errmsg`.
pub fn reply_err(errmsg: String) -> (reply: String)
    ensures
        reply@ == err_text(errmsg@),
{
    let written = escape(errmsg.as_str());
    let front = concat("[{\"success\": false, \"error\": \"", written.as_str());
    concat(front.as_str(), "\"}]")
}

/// The frame that answers a request: a frame of type `REPLY` with the UTF-8
/// of `reply` as its payload. A reply that is too long for the length field
/// of a frame is a failure, and nothing is to be written.
pub fn reply_frame(reply: &str) -> (r: Result<Vec<u8>, IoError>)
    ensures
        encode_utf8(reply@).len() <= u32::MAX ==> r is Ok && r->Ok_0@ == frame(
            REPLY,
            encode_utf8(reply@),
        ),
        encode_utf8(reply@).len() > u32::MAX ==> r is Err && r->Err_0.kind == IoKind::Other
            && r->Err_0.text@ == too_long_text(),
{
    encode_text(REPLY, reply)
}

/// What a connection waits for.
#[derive(Debug, Clone, Copy, PartialEq, Eq, Structural)]
pub enum Phase {
    /// The next request is to be read.
    Receiving,
    /// A reply is to be written; `close` where the request was refused and
    /// the connection ends once the reply is out.
    Replying { close: bool },
    /// The connection has ended.
    Closed,
}

/// What happened on the socket of a connection.
#[derive(Debug)]
pub enum ClientEvent {
    /// A frame was read: its type field and the text of its payload.
    Frame(u32, String),
    /// No frame could be read.
    ReceiveFailed(IoError),
    /// The reply was written.
    ReplySent,
    /// The reply could not be written.
    ReplyFailed(IoError),
}

/// A `ClientEvent` with its texts as sequences of characters.
pub enum ClientEventView {
    Frame(u32, Seq<char>),
    ReceiveFailed(IoErrorView),
    ReplySent,
    ReplyFailed(IoErrorView),
}

impl View for ClientEvent {
    type V = ClientEventView;

    open spec fn view(&self) -> ClientEventView {
        match self {
            ClientEvent::Frame(msgint, payload) => ClientEventView::Frame(*msgint, payload@),
            ClientEvent::ReceiveFailed(e) => ClientEventView::ReceiveFailed(e@),
            ClientEvent::ReplySent => ClientEventView::ReplySent,
            ClientEvent::ReplyFailed(e) => ClientEventView::ReplyFailed(e@),
        }
    }
}

/// What a connection asks for after an event: a message for the bus, and the
/// payload of a reply to write.
#[derive(Debug, PartialEq, Eq)]
pub struct Decision {
    pub forward: Option<Message>,
    pub reply: Option<String>,
}

/// Whether a request is read at this step: a frame that comes while the
/// connection waits for one.
pub open spec fn reads_request(phase: Phase, event: ClientEventView) -> bool {
    phase == Phase::Receiving && event is Frame
}

/// The phase after an event. A request leads to its reply, and the reply
/// back to the next request unless the request was refused. A failure of the
/// socket ends the connection, and so does an event that the phase does not
/// wait for.
pub open spec fn next_phase(phase: Phase, event: ClientEventView) -> Phase {
    match (phase, event) {
        (Phase::Receiving, ClientEventView::Frame(msgint, payload)) => Phase::Replying {
            close: mapping(strip_event_bit(msgint), payload) is Err,
        },
        (Phase::Replying { close }, ClientEventView::ReplySent) => if close {
            Phase::Closed
        } else {
            Phase::Receiving
        },
        _ => Phase::Closed,
    }
}

/// The message that goes to the bus at an event: the message of a request
/// that was taken, the error of one that was refused, and the failure of the
/// socket unless it is the end of the stream.
pub open spec fn forwarded(phase: Phase, event: ClientEventView) -> Option<MessageView> {
    match (phase, event) {
        (Phase::Receiving, ClientEventView::Frame(msgint, payload)) => match mapping(
            strip_event_bit(msgint),
            payload,
        ) {
            Ok(msg) => Some(msg),
            Err(e) => Some(MessageView::Error(e)),
        },
        (Phase::Receiving, ClientEventView::ReceiveFailed(e)) => if e.kind
            == IoKind::UnexpectedEof {
            None
        } else {
            Some(MessageView::Error(BarErrorView::Io(e)))
        },
        (Phase::Replying { close }, ClientEventView::ReplyFailed(e)) => Some(
            MessageView::Error(BarErrorView::Io(e)),
        ),
        _ => None,
    }
}

/// The payload of the reply that is to be written after an event: one for
/// each request that is read, and none otherwise.
pub open spec fn replied(phase: Phase, event: ClientEventView) -> Option<Seq<char>> {
    match (phase, event) {
        (Phase::Receiving, ClientEventView::Frame(msgint, payload)) => match mapping(
            strip_event_bit(msgint),
            payload,
        ) {
            Ok(_) => Some(ok_text()),
            Err(e) => Some(err_text(e.report())),
        },
        _ => None,
    }
}

/// The view of a message that may be absent.
pub open spec fn forward_view(forward: Option<Message>) -> Option<MessageView> {
    match forward {
        Some(msg) => Some(msg@),
        None => None,
    }
}

/// The view of a reply that may be absent.
pub open spec fn reply_view(reply: Option<String>) -> Option<Seq<char>> {
    match reply {
        Some(text) => Some(text@),
        None => None,
    }
}

/// One connection of a client, from the first request to the end.
#[derive(Debug)]
pub struct Connection {
    pub phase: Phase,
}

impl Connection {
    /// A connection that waits for its first request.
    pub fn new() -> (connection: Connection)
        ensures
            connection.phase == Phase::Receiving,
    {
        Connection { phase: Phase::Receiving }
    }

    /// Whether the connection has ended.
    pub fn is_closed(&self) -> (closed: bool)
        ensures
            closed == (self.phase == Phase::Closed),
    {
        self.phase == Phase::Closed
    }

    /// Takes one event and says what goes to the bus and what is replied.
    pub fn step(&mut self, event: ClientEvent) -> (decision: Decision)
        ensures
            final(self).phase == next_phase(old(self).phase, event@),
            forward_view(decision.forward) == forwarded(old(self).phase, event@),
            reply_view(decision.reply) == replied(old(self).phase, event@),
    {
        match (self.phase, event) {
            (Phase::Receiving, ClientEvent::Frame(msgint, payload)) => {
                let msgtype = logical_type(msgint);
                match to_message(msgtype, payload) {
                    Ok(msg) => {
                        self.phase = Phase::Replying { close: false };
                        Decision { forward: Some(msg), reply: Some(reply_ok()) }
                    },
                    Err(e) => {
                        self.phase = Phase::Replying { close: true };
                        let reply = reply_err(e.to_string());
                        Decision { forward: Some(Message::Error(e)), reply: Some(reply) }
                    },
                }
            },
            (Phase::Receiving, ClientEvent::ReceiveFailed(e)) => {
                self.phase = Phase::Closed;
                if e.kind == IoKind::UnexpectedEof {
                    Decision { forward: None, reply: None }
                } else {
                    Decision { forward: Some(Message::Error(BarError::Io(e))), reply: None }
                }
            },
            (Phase::Replying { close }, ClientEvent::ReplySent) => {
                if close {
                    self.phase = Phase::Closed;
                } else {
                    self.phase = Phase::Receiving;
                }
                Decision { forward: None, reply: None }
            },
            (Phase::Replying { close }, ClientEvent::ReplyFailed(e)) => {
                self.phase = Phase::Closed;
                Decision { forward: Some(Message::Error(BarError::Io(e))), reply: None }
            },
            _ => {
                self.phase = Phase::Closed;
                Decision { forward: None, reply: None }
            },
        }
    }
}

/// The phase of a connection after a run of events, from its start.
pub open spec fn phase_after(events: Seq<ClientEventView>) -> Phase
    decreases events.len(),
{
    if events.len() == 0 {
        Phase::Receiving
    } else {
        next_phase(phase_after(events.drop_last()), events.last())
    }
}

/// The number of requests that are read in a run of events.
pub open spec fn requests_read(events: Seq<ClientEventView>) -> nat
    decreases events.len(),
{
    if events.len() == 0 {
        0
    } else if reads_request(phase_after(events.drop_last()), events.last()) {
        requests_read(events.drop_last()) + 1
    } else {
        requests_read(events.drop_last())
    }
}

/// The number of replies that the connection hands out to be written in a
/// run of events.
pub open spec fn replies_issued(events: Seq<ClientEventView>) -> nat
    decreases events.len(),
{
    if events.len() == 0 {
        0
    } else if replied(phase_after(events.drop_last()), events.last()) is Some {
        replies_issued(events.drop_last()) + 1
    } else {
        replies_issued(events.drop_last())
    }
}

/// The number of replies that are written in a run of events: the writes that
/// succeed while the connection waits for one.
pub open spec fn replies_written(events: Seq<ClientEventView>) -> nat
    decreases events.len(),
{
    if events.len() == 0 {
        0
    } else if phase_after(events.drop_last()) is Replying && events.last() is ReplySent {
        replies_written(events.drop_last()) + 1
    } else {
        replies_written(events.drop_last())
    }
}

/// Whether a connection in this phase will read no further request.
pub open spec fn ending(phase: Phase) -> bool {
    phase == Phase::Closed || phase == (Phase::Replying { close: true })
}

/// A request whose type lies in the reserved range is refused whatever its
/// payload: it maps to no message, only the error goes to the bus, and the
/// connection ends after the reply.
pub proof fn lemma_reserved_rejected(msgint: u32, payload: Seq<char>)
    requires
        strip_event_bit(msgint) <= RESERVED,
    ensures
        mapping(strip_event_bit(msgint), payload) == Err::<MessageView, BarErrorView>(
            BarErrorView::Bar(reserved_text(strip_event_bit(msgint))),
        ),
        forwarded(Phase::Receiving, ClientEventView::Frame(msgint, payload)) == Some(
            MessageView::Error(BarErrorView::Bar(reserved_text(strip_event_bit(msgint)))),
        ),
        next_phase(Phase::Receiving, ClientEventView::Frame(msgint, payload)) == (Phase::Replying {
            close: true,
        }),
{
}

/// Every request that is read gets exactly one reply, and no request is read
/// before the reply to the one before it was written: while the connection
/// waits for a request, as many replies were written as requests were read;
/// while it waits for a write, one reply is outstanding.
pub proof fn lemma_one_reply_per_request(events: Seq<ClientEventView>)
    ensures
        replies_issued(events) == requests_read(events),
        match phase_after(events) {
            Phase::Receiving => replies_written(events) == requests_read(events),
            Phase::Replying { close } => replies_written(events) + 1 == requests_read(events),
            Phase::Closed => replies_written(events) <= requests_read(events),
        },
    decreases events.len(),
{
    if events.len() > 0 {
        lemma_one_reply_per_request(events.drop_last());
    }
}

/// A connection that is ending stays so, and reads no request, whatever
/// events follow.
pub proof fn lemma_ending_stays(before: Seq<ClientEventView>, after: Seq<ClientEventView>)
    requires
        ending(phase_after(before)),
    ensures
        ending(phase_after(before + after)),
        requests_read(before + after) == requests_read(before),
    decreases after.len(),
{
    if after.len() == 0 {
        assert(before + after =~= before);
    } else {
        lemma_ending_stays(before, after.drop_last());
        assert((before + after).drop_last() =~= before + after.drop_last());
        assert((before + after).last() == after.last());
    }
}

/// A request that is refused is the last of its connection: whatever events
/// follow it, no further request is read and the connection does not return
/// to waiting for one.
pub proof fn lemma_refused_request_is_last(
    before: Seq<ClientEventView>,
    msgint: u32,
    payload: Seq<char>,
    after: Seq<ClientEventView>,
)
    requires
        phase_after(before) == Phase::Receiving,
        mapping(strip_event_bit(msgint), payload) is Err,
    ensures
        requests_read(before.push(ClientEventView::Frame(msgint, payload)) + after)
            == requests_read(before) + 1,
        phase_after(before.push(ClientEventView::Frame(msgint, payload)) + after)
            != Phase::Receiving,
{
    let upto = before.push(ClientEventView::Frame(msgint, payload));
    assert(upto.drop_last() =~= before);
    assert(upto.last() == ClientEventView::Frame(msgint, payload));
    lemma_ending_stays(upto, after);
}

/// A request to wake the probes is taken whatever its payload: the message
/// goes to the bus, the reply tells of success, and the connection waits for
/// the next request once the reply is out.
pub proof fn lemma_unpark_is_acknowledged(msgint: u32, payload: Seq<char>)
    requires
        strip_event_bit(msgint) == UNPARK,
    ensures
        forwarded(Phase::Receiving, ClientEventView::Frame(msgint, payload)) == Some(
            MessageView::Unpark,
        ),
        replied(Phase::Receiving, ClientEventView::Frame(msgint, payload)) == Some(ok_text()),
        next_phase(Phase::Receiving, ClientEventView::Frame(msgint, payload)) == (Phase::Replying {
            close: false,
        }),
        next_phase(
            next_phase(Phase::Receiving, ClientEventView::Frame(msgint, payload)),
            ClientEventView::ReplySent,
        ) == Phase::Receiving,
{
}

} // verus!
