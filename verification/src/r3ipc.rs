//! The wire frame of the control socket: six bytes that name the protocol,
//! the length of the payload and the type of the message as 32-bit integers
//! with the least significant byte first, then the payload.

use crate::error::{IoError, IoKind};
use crate::json::{json_document, read_document, Json};
use crate::text::concat;
use byteorder::{ByteOrder, LittleEndian, WriteBytesExt};
use vstd::prelude::*;
use vstd::slice::{slice_subrange, slice_to_vec};
use vstd::utf8::{decode_utf8, encode_utf8, valid_utf8};

verus! {

/// Where the control socket is found unless another path is given.
pub const R3_UNIX_SOCK: &'static str = "/tmp/rubar.sock";

/// The types up to this one are not for clients.
pub const RESERVED: u32 = 20;

/// The type of the frame that answers a request.
pub const REPLY: u32 = 21;

/// The type of the request that wakes every sleeping probe.
pub const UNPARK: u32 = 22;

/// The type of the request that tells what the build tool is doing.
pub const WEBPACK: u32 = 23;

/// The type kept for a tick at regular intervals.
pub const TICKER: u32 = 24;

/// The number of bytes that name the protocol.
pub const MAGIC_LEN: usize = 6;

/// The number of bytes before the payload.
pub const HEADER_LEN: usize = 14;

/// The bytes that every frame begins with: `i3-ipc` in ASCII.
pub open spec fn magic() -> Seq<u8> {
    seq![0x69u8, 0x33u8, 0x2du8, 0x69u8, 0x70u8, 0x63u8]
}

/// The four bytes of `n`, the least significant first.
pub open spec fn le_bytes(n: u32) -> Seq<u8> {
    seq![
        (n % 256) as u8,
        (n / 256 % 256) as u8,
        (n / 65536 % 256) as u8,
        (n / 16777216 % 256) as u8,
    ]
}

/// The number that the first four bytes of `bytes` encode, the least
/// significant first.
pub open spec fn le_value(bytes: Seq<u8>) -> int
    recommends
        bytes.len() >= 4,
{
    bytes[0] + 256 * bytes[1] + 65536 * bytes[2] + 16777216 * bytes[3]
}

/// The frame of a message of type `message_type` with the given payload.
pub open spec fn frame(message_type: u32, payload: Seq<u8>) -> Seq<u8>
    recommends
        payload.len() <= u32::MAX,
{
    magic() + le_bytes(payload.len() as u32) + le_bytes(message_type) + payload
}

/// What the front of a stream of bytes holds.
pub enum Parsed {
    /// A whole frame: its type and its payload.
    Frame { message_type: u32, payload: Seq<u8> },
    /// Six bytes that do not name the protocol.
    BadMagic,
    /// The stream ends before the frame does.
    Truncated,
}

/// The length that the header at the front of `stream` declares.
pub open spec fn declared_len(stream: Seq<u8>) -> int
    recommends
        stream.len() >= HEADER_LEN,
{
    le_value(stream.subrange(6, 10))
}

/// Reads the front of `stream` as a frame. The six magic bytes are judged as
/// soon as they are there; a frame needs its header and as many bytes of
/// payload as the header declares, and what follows them is not read.
pub open spec fn parse(stream: Seq<u8>) -> Parsed {
    if stream.len() < MAGIC_LEN {
        Parsed::Truncated
    } else if stream.take(MAGIC_LEN as int) != magic() {
        Parsed::BadMagic
    } else if stream.len() < HEADER_LEN || stream.len() < HEADER_LEN + declared_len(stream) {
        Parsed::Truncated
    } else {
        Parsed::Frame {
            message_type: le_value(stream.subrange(10, 14)) as u32,
            payload: stream.subrange(HEADER_LEN as int, HEADER_LEN + declared_len(stream)),
        }
    }
}

/// The number of bytes that a reader takes from `stream` for one frame: six
/// where they do not name the protocol, the whole frame where it is there,
/// and all there is where the stream ends early.
pub open spec fn consumed(stream: Seq<u8>) -> nat {
    match parse(stream) {
        Parsed::Frame { message_type, payload } => HEADER_LEN as nat + payload.len(),
        Parsed::BadMagic => MAGIC_LEN as nat,
        Parsed::Truncated => stream.len(),
    }
}

/// The text that `String::from_utf8_lossy` makes of `bytes`: their text where
/// they are UTF-8, and else a text with U+FFFD in place of what is not.
pub uninterp spec fn lossy_text(bytes: Seq<u8>) -> Seq<char>;

/// The text of a failure to find the magic bytes, which shows what came in
/// their place.
pub open spec fn bad_magic_text(got: Seq<u8>) -> Seq<char> {
    "unexpected magic string: expected 'i3-ipc' but got "@ + lossy_text(got)
}

/// The text of a failure to read as many bytes as were asked for.
pub open spec fn truncated_text() -> Seq<char> {
    "failed to fill whole buffer"@
}

/// Four bytes, the least significant first, encode the number they were made
/// from.
pub proof fn lemma_le_round_trip(n: u32)
    ensures
        le_bytes(n).len() == 4,
        le_value(le_bytes(n)) == n,
{
}

/// Appends the four bytes of `n`, the least significant first.
///
/// Trusted: `byteorder::WriteBytesExt::write_u32::<LittleEndian>` on a
/// `Vec<u8>`, which writes `n.to_le_bytes()` at the end of the vector and
/// cannot fail there.
#[verifier::external_body]
fn write_u32_le(bytes: &mut Vec<u8>, n: u32)
    ensures
        final(bytes)@ == old(bytes)@ + le_bytes(n),
{
    let _ = bytes.write_u32::<LittleEndian>(n);
}

/// The number that the first four bytes of `bytes` encode.
///
/// Trusted: `byteorder::ByteOrder::read_u32` of `LittleEndian`, which is
/// `u32::from_le_bytes` of the first four bytes and panics on fewer.
#[verifier::external_body]
fn read_u32_le(bytes: &[u8]) -> (n: u32)
    requires
        bytes@.len() >= 4,
    ensures
        n == le_value(bytes@),
{
    LittleEndian::read_u32(bytes)
}

/// The text of `bytes`, with U+FFFD in place of what is not UTF-8.
///
/// Trusted: `String::from_utf8_lossy`, which hands back the text itself where
/// the bytes are valid UTF-8.
#[verifier::external_body]
fn text_of_bytes(bytes: &[u8]) -> (s: String)
    ensures
        s@ == lossy_text(bytes@),
        valid_utf8(bytes@) ==> s@ == decode_utf8(bytes@),
{
    String::from_utf8_lossy(bytes).into_owned()
}

/// The six bytes that name the protocol.
fn magic_bytes() -> (bytes: Vec<u8>)
    ensures
        bytes@ == magic(),
{
    let mut bytes: Vec<u8> = Vec::new();
    bytes.push(0x69u8);
    bytes.push(0x33u8);
    bytes.push(0x2du8);
    bytes.push(0x69u8);
    bytes.push(0x70u8);
    bytes.push(0x63u8);
    assert(bytes@ =~= magic());
    bytes
}

/// Whether `bytes` are the six bytes that name the protocol.
fn is_magic(bytes: &[u8]) -> (b: bool)
    ensures
        b == (bytes@ == magic()),
{
    if bytes.len() != MAGIC_LEN {
        return false;
    }
    let same = bytes[0] == 0x69u8 && bytes[1] == 0x33u8 && bytes[2] == 0x2du8 && bytes[3] == 0x69u8
        && bytes[4] == 0x70u8 && bytes[5] == 0x63u8;
    assert(same ==> bytes@ =~= magic());
    same
}

/// The frame of a message of type `message_type` with the given payload.
pub fn encode(message_type: u32, payload: &[u8]) -> (bytes: Vec<u8>)
    requires
        payload@.len() <= u32::MAX,
    ensures
        bytes@ == frame(message_type, payload@),
{
    let mut bytes = magic_bytes();
    write_u32_le(&mut bytes, payload.len() as u32);
    write_u32_le(&mut bytes, message_type);
    bytes.extend_from_slice(payload);
    bytes
}

/// The text of the failure to frame a payload that is too long for the
/// length field.
pub open spec fn too_long_text() -> Seq<char> {
    "payload too long for a frame"@
}

/// The frame of a message of type `message_type` whose payload is the UTF-8
/// of `payload`, or a failure where the payload is too long for the length
/// field of a frame.
pub fn encode_text(message_type: u32, payload: &str) -> (r: Result<Vec<u8>, IoError>)
    ensures
        encode_utf8(payload@).len() <= u32::MAX ==> r is Ok && r->Ok_0@ == frame(
            message_type,
            encode_utf8(payload@),
        ),
        encode_utf8(payload@).len() > u32::MAX ==> r is Err && r->Err_0.kind == IoKind::Other
            && r->Err_0.text@ == too_long_text(),
{
    let bytes = payload.as_bytes();
    if bytes.len() > u32::MAX as usize {
        return Err(
            IoError { kind: IoKind::Other, text: "payload too long for a frame".to_owned() },
        );
    }
    Ok(encode(message_type, bytes))
}

/// The failure to find the magic bytes, where `got` came in their place.
fn bad_magic(got: &[u8]) -> (e: IoError)
    ensures
        e.kind == IoKind::Protocol,
        e.text@ == bad_magic_text(got@),
{
    let shown = text_of_bytes(got);
    IoError {
        kind: IoKind::Protocol,
        text: concat("unexpected magic string: expected 'i3-ipc' but got ", shown.as_str()),
    }
}

/// The failure of a stream that ended before the frame did.
fn truncated() -> (e: IoError)
    ensures
        e.kind == IoKind::UnexpectedEof,
        e.text@ == truncated_text(),
{
    IoError { kind: IoKind::UnexpectedEof, text: "failed to fill whole buffer".to_owned() }
}

/// Reads the front of `stream` as a frame. A whole frame gives its type and
/// its payload; bytes that follow the frame are not read. Six bytes that do
/// not name the protocol give a `Protocol` failure, and a stream that ends
/// before the frame does gives `UnexpectedEof`.
pub fn decode(stream: &[u8]) -> (r: Result<(u32, Vec<u8>), IoError>)
    ensures
        match parse(stream@) {
            Parsed::Frame { message_type, payload } => r is Ok && r->Ok_0.0 == message_type
                && r->Ok_0.1@ == payload,
            Parsed::BadMagic => r is Err && r->Err_0.kind == IoKind::Protocol && r->Err_0.text@
                == bad_magic_text(stream@.take(MAGIC_LEN as int)),
            Parsed::Truncated => r is Err && r->Err_0.kind == IoKind::UnexpectedEof
                && r->Err_0.text@ == truncated_text(),
        },
{
    let n: usize = stream.len();
    if n < MAGIC_LEN {
        return Err(truncated());
    }
    let front = slice_subrange(stream, 0, MAGIC_LEN);
    assert(front@ == stream@.take(MAGIC_LEN as int));
    if !is_magic(front) {
        return Err(bad_magic(front));
    }
    if n < HEADER_LEN {
        return Err(truncated());
    }
    let length: u32 = read_u32_le(slice_subrange(stream, 6, 10));
    let message_type: u32 = read_u32_le(slice_subrange(stream, 10, 14));
    if n - HEADER_LEN < length as usize {
        return Err(truncated());
    }
    let payload = slice_to_vec(slice_subrange(stream, HEADER_LEN, HEADER_LEN + length as usize));
    Ok((message_type, payload))
}

/// A frame that was encoded is decoded to what it was made of: the same type
/// and the same payload, whatever follows the frame in the stream.
pub proof fn lemma_round_trip(message_type: u32, payload: Seq<u8>, rest: Seq<u8>)
    requires
        payload.len() <= u32::MAX,
    ensures
        parse(frame(message_type, payload) + rest) == (Parsed::Frame { message_type, payload }),
        consumed(frame(message_type, payload) + rest) == frame(message_type, payload).len(),
{
    let stream = frame(message_type, payload) + rest;
    lemma_le_round_trip(payload.len() as u32);
    lemma_le_round_trip(message_type);
    assert(stream.take(MAGIC_LEN as int) =~= magic());
    assert(stream.subrange(6, 10) =~= le_bytes(payload.len() as u32));
    assert(stream.subrange(10, 14) =~= le_bytes(message_type));
    assert(stream.subrange(HEADER_LEN as int, HEADER_LEN + payload.len()) =~= payload);
}

/// A stream whose first six bytes are not the magic bytes is refused, and of
/// its bytes only those six are taken.
pub proof fn lemma_magic_rejection(stream: Seq<u8>)
    requires
        stream.len() >= MAGIC_LEN,
        stream.take(MAGIC_LEN as int) != magic(),
    ensures
        parse(stream) == Parsed::BadMagic,
        consumed(stream) == MAGIC_LEN,
{
}

/// A frame whose payload is the UTF-8 of a text is decoded to that text: the
/// payload is valid UTF-8, and its text is the one that was encoded.
pub proof fn lemma_text_round_trip(message_type: u32, text: Seq<char>, rest: Seq<u8>)
    requires
        encode_utf8(text).len() <= u32::MAX,
    ensures
        parse(frame(message_type, encode_utf8(text)) + rest) == (Parsed::Frame {
            message_type,
            payload: encode_utf8(text),
        }),
        valid_utf8(encode_utf8(text)),
        decode_utf8(encode_utf8(text)) == text,
{
    lemma_round_trip(message_type, encode_utf8(text), rest);
    vstd::utf8::encode_utf8_valid_utf8(text);
    vstd::utf8::encode_utf8_decode_utf8(text);
}

/// How one command of a request came out.
#[derive(Debug, PartialEq, Eq)]
pub struct CommandOutcome {
    /// Whether the command was carried out.
    pub success: bool,
    /// Why it was not, where a reason was given.
    pub error: Option<String>,
}

/// The reply to a request: the outcome of each of its commands.
#[derive(Debug, PartialEq, Eq)]
pub struct Command {
    pub outcomes: Vec<CommandOutcome>,
}

/// A stream of frames: what a connection to the control socket can do.
///
/// A stream is described by the bytes that it has taken to be written and by
/// the bytes that it has yet to hand out. An implementor says what the two
/// are; of one that does not, nothing is proved.
pub trait R3Funcs {
    /// The bytes that the stream has taken to be written, in their order.
    open spec fn written(&self) -> Seq<u8> {
        Seq::empty()
    }

    /// The bytes that the stream has yet to hand out, in their order.
    open spec fn pending(&self) -> Seq<u8> {
        Seq::empty()
    }

    /// Writes one frame with the given type and the UTF-8 of `payload`. A
    /// frame that is taken stands behind what was written before; what is
    /// yet to be read is not touched.
    fn send_i3_message(&mut self, message_type: u32, payload: &str) -> (r: Result<(), IoError>)
        ensures
            final(self).pending() == old(self).pending(),
            r is Ok ==> final(self).written() == old(self).written() + frame(
                message_type,
                encode_utf8(payload@),
            ),
    ;

    /// Reads one frame and gives its type and the text of its payload. A
    /// frame that is read is the one at the front of what was pending, and
    /// it is pending no longer; what was written is not touched.
    fn receive_i3_message(&mut self) -> (r: Result<(u32, String), IoError>)
        ensures
            final(self).written() == old(self).written(),
            r is Ok ==> parse(old(self).pending()) is Frame && r->Ok_0.0 == parse(
                old(self).pending(),
            )->message_type && r->Ok_0.1@ == lossy_text(parse(old(self).pending())->payload)
                && final(self).pending() == old(self).pending().skip(
                consumed(old(self).pending()) as int,
            ),
    ;
}

/// How far the reading of one frame has come.
#[derive(Debug, Clone, Copy, PartialEq, Eq, Structural)]
pub enum Stage {
    /// The magic bytes are next.
    Magic,
    /// The length of the payload is next.
    Length,
    /// The type of the message is next.
    Kind,
    /// The payload is next.
    Payload,
    /// The frame has been read.
    Finished,
    /// The magic bytes were wrong: nothing more is read.
    Failed,
}

/// Reads one frame piece by piece, for a stream that hands out bytes only
/// when told how many. The reader says how many bytes it wants next; whoever
/// drives it reads exactly that many and hands them in.
#[derive(Debug, Clone, Copy)]
pub struct FrameReader {
    pub stage: Stage,
    /// The length of the payload, once it has been read.
    pub length: u32,
    /// The type of the message, once it has been read.
    pub message_type: u32,
}

impl FrameReader {
    /// The number of bytes that the reader wants next: the six magic bytes,
    /// four for the length, four for the type, then the payload. A reader that
    /// has finished or failed wants none.
    pub open spec fn wants(self) -> nat {
        match self.stage {
            Stage::Magic => MAGIC_LEN as nat,
            Stage::Length => 4,
            Stage::Kind => 4,
            Stage::Payload => self.length as nat,
            Stage::Finished => 0,
            Stage::Failed => 0,
        }
    }

    /// Whether the reader still takes bytes.
    pub open spec fn active(self) -> bool {
        self.stage != Stage::Finished && self.stage != Stage::Failed
    }

    /// A reader at the start of a frame.
    pub fn new() -> (reader: FrameReader)
        ensures
            reader == (FrameReader { stage: Stage::Magic, length: 0, message_type: 0 }),
    {
        FrameReader { stage: Stage::Magic, length: 0, message_type: 0 }
    }

    /// Whether the reader has finished or failed.
    pub fn is_done(&self) -> (done: bool)
        ensures
            done == !self.active(),
    {
        self.stage == Stage::Finished || self.stage == Stage::Failed
    }

    /// The number of bytes that the reader wants next.
    pub fn wanted(&self) -> (n: usize)
        ensures
            n == self.wants(),
    {
        match self.stage {
            Stage::Magic => MAGIC_LEN,
            Stage::Length => 4,
            Stage::Kind => 4,
            Stage::Payload => self.length as usize,
            Stage::Finished => 0,
            Stage::Failed => 0,
        }
    }

    /// Takes the bytes that the reader wanted. Wrong magic bytes fail the
    /// frame at once; the payload completes it and is handed out as text; the
    /// pieces between give nothing yet.
    pub fn accept(&mut self, bytes: &[u8]) -> (r: Option<Result<(u32, String), IoError>>)
        requires
            old(self).active(),
            bytes@.len() == old(self).wants(),
        ensures
            match old(self).stage {
                Stage::Magic => if bytes@ == magic() {
                    r is None && *final(self) == (FrameReader { stage: Stage::Length, ..*old(self) })
                } else {
                    final(self).stage == Stage::Failed && r is Some && r->Some_0 is Err
                        && r->Some_0->Err_0.kind == IoKind::Protocol && r->Some_0->Err_0.text@
                        == bad_magic_text(bytes@)
                },
                Stage::Length => r is None && *final(self) == (FrameReader {
                    stage: Stage::Kind,
                    length: le_value(bytes@) as u32,
                    ..*old(self)
                }),
                Stage::Kind => r is None && *final(self) == (FrameReader {
                    stage: Stage::Payload,
                    message_type: le_value(bytes@) as u32,
                    ..*old(self)
                }),
                _ => final(self).stage == Stage::Finished && r is Some && r->Some_0 is Ok
                    && r->Some_0->Ok_0.0 == old(self).message_type && r->Some_0->Ok_0.1@
                    == lossy_text(bytes@) && (valid_utf8(bytes@) ==> r->Some_0->Ok_0.1@
                    == decode_utf8(bytes@)),
            },
    {
        match self.stage {
            Stage::Magic => {
                if is_magic(bytes) {
                    self.stage = Stage::Length;
                    None
                } else {
                    self.stage = Stage::Failed;
                    Some(Err(bad_magic(bytes)))
                }
            },
            Stage::Length => {
                self.length = read_u32_le(bytes);
                self.stage = Stage::Kind;
                None
            },
            Stage::Kind => {
                self.message_type = read_u32_le(bytes);
                self.stage = Stage::Payload;
                None
            },
            _ => {
                self.stage = Stage::Finished;
                Some(Ok((self.message_type, text_of_bytes(bytes))))
            },
        }
    }
}

/// A stream in memory: bytes to be read, how many of them have been read,
/// and the bytes that were written.
#[derive(Debug)]
pub struct Pipe {
    pub inbound: Vec<u8>,
    pub position: usize,
    pub outbound: Vec<u8>,
}

impl Pipe {
    /// A stream that holds `inbound` to be read and has nothing written.
    pub fn new(inbound: Vec<u8>) -> (pipe: Pipe)
        ensures
            pipe.inbound == inbound,
            pipe.position == 0,
            pipe.outbound@ == Seq::<u8>::empty(),
    {
        Pipe { inbound, position: 0, outbound: Vec::new() }
    }

    /// Takes the next `n` bytes, or none where fewer are left; then all that
    /// was left counts as read.
    fn take(&mut self, n: usize) -> (got: Option<Vec<u8>>)
        ensures
            final(self).inbound == old(self).inbound,
            final(self).outbound == old(self).outbound,
            old(self).pending().len() >= n ==> got is Some && got->Some_0@ == old(
                self,
            ).pending().take(n as int) && final(self).position == old(self).position + n
                && final(self).pending() == old(self).pending().skip(n as int),
            old(self).pending().len() < n ==> got is None && final(self).pending().len() == 0
                && final(self).position >= old(self).position,
    {
        let len: usize = self.inbound.len();
        if self.position > len {
            if n == 0 {
                let got: Vec<u8> = Vec::new();
                assert(got@ =~= old(self).pending().take(0));
                assert(self.pending() =~= old(self).pending().skip(0));
                return Some(got);
            }
            return None;
        }
        if len - self.position < n {
            self.position = len;
            return None;
        }
        let from: usize = self.position;
        let got = slice_to_vec(slice_subrange(self.inbound.as_slice(), from, from + n));
        self.position = from + n;
        assert(got@ =~= old(self).pending().take(n as int));
        assert(self.pending() =~= old(self).pending().skip(n as int));
        Some(got)
    }
}

impl R3Funcs for Pipe {
    /// The bytes that were written.
    open spec fn written(&self) -> Seq<u8> {
        self.outbound@
    }

    /// The bytes that have not been read yet.
    open spec fn pending(&self) -> Seq<u8> {
        if self.position <= self.inbound@.len() {
            self.inbound@.skip(self.position as int)
        } else {
            Seq::empty()
        }
    }

    /// Appends the frame to what was written. A payload too long for the
    /// length field of the frame is refused, and nothing is written.
    fn send_i3_message(&mut self, message_type: u32, payload: &str) -> (r: Result<(), IoError>)
        ensures
            final(self).inbound == old(self).inbound,
            final(self).position == old(self).position,
            encode_utf8(payload@).len() <= u32::MAX ==> r is Ok && final(self).outbound@ == old(
                self,
            ).outbound@ + frame(message_type, encode_utf8(payload@)),
            encode_utf8(payload@).len() > u32::MAX ==> r is Err && r->Err_0.kind == IoKind::Other
                && final(self).outbound@ == old(self).outbound@,
    {
        match encode_text(message_type, payload) {
            Ok(framed) => {
                self.outbound.extend_from_slice(framed.as_slice());
                Ok(())
            },
            Err(e) => Err(e),
        }
    }

    /// Reads the next frame from the bytes that are pending. A whole frame
    /// is taken and no byte more; wrong magic bytes take six bytes and fail
    /// with `Protocol`; a stream that ends early fails with `UnexpectedEof`
    /// and leaves nothing pending.
    fn receive_i3_message(&mut self) -> (r: Result<(u32, String), IoError>)
        ensures
            final(self).inbound == old(self).inbound,
            final(self).outbound == old(self).outbound,
            final(self).pending() == old(self).pending().skip(
                consumed(old(self).pending()) as int,
            ),
            match parse(old(self).pending()) {
                Parsed::Frame { message_type, payload } => r is Ok && r->Ok_0.0 == message_type
                    && r->Ok_0.1@ == lossy_text(payload) && (valid_utf8(payload) ==> r->Ok_0.1@
                    == decode_utf8(payload)),
                Parsed::BadMagic => r is Err && r->Err_0.kind == IoKind::Protocol && r->Err_0.text@
                    == bad_magic_text(old(self).pending().take(MAGIC_LEN as int)),
                Parsed::Truncated => r is Err && r->Err_0.kind == IoKind::UnexpectedEof
                    && r->Err_0.text@ == truncated_text(),
            },
    {
        let ghost stream = self.pending();
        let mut reader = FrameReader::new();
        let magic = match self.take(reader.wanted()) {
            Some(bytes) => bytes,
            None => {
                return Err(truncated());
            },
        };
        assert(magic@ == stream.take(MAGIC_LEN as int));
        match reader.accept(magic.as_slice()) {
            Some(Err(e)) => {
                return Err(e);
            },
            _ => {},
        }
        let length = match self.take(reader.wanted()) {
            Some(bytes) => bytes,
            None => {
                return Err(truncated());
            },
        };
        assert(length@ =~= stream.subrange(6, 10));
        let _ = reader.accept(length.as_slice());
        let kind = match self.take(reader.wanted()) {
            Some(bytes) => bytes,
            None => {
                return Err(truncated());
            },
        };
        assert(kind@ =~= stream.subrange(10, 14));
        let _ = reader.accept(kind.as_slice());
        let payload = match self.take(reader.wanted()) {
            Some(bytes) => bytes,
            None => {
                return Err(truncated());
            },
        };
        assert(payload@ =~= stream.subrange(HEADER_LEN as int, HEADER_LEN + declared_len(stream)));
        assert(self.pending() =~= stream.skip(HEADER_LEN + declared_len(stream)));
        match reader.accept(payload.as_slice()) {
            Some(Ok(read)) => Ok(read),
            _ => Err(truncated()),
        }
    }
}

/// Why no connection to the control socket was made.
#[derive(Debug, PartialEq, Eq)]
pub enum EstablishError {
    /// The path of the socket could not be found out.
    GetSocketPathError(IoError),
    /// The socket could not be reached.
    SocketError(IoError),
}

/// Why a request got no reply that could be read.
#[derive(Debug, PartialEq, Eq)]
pub enum MessageError {
    /// The request could not be sent.
    Send(IoError),
    /// The reply could not be received.
    Receive(IoError),
    /// The reply came, but is no list of outcomes in JSON.
    JsonCouldntParse(String),
}

impl MessageError {
    /// What went wrong, in words.
    pub fn description(&self) -> (words: &'static str)
        ensures
            words@ == match self {
                MessageError::Send(_) => "Network error while sending message to i3"@,
                MessageError::Receive(_) => "Network error while receiving message from i3"@,
                MessageError::JsonCouldntParse(_) =>
                    "Got a response from i3 but couldn't parse the JSON"@,
            },
    {
        match self {
            MessageError::Send(_) => "Network error while sending message to i3",
            MessageError::Receive(_) => "Network error while receiving message from i3",
            MessageError::JsonCouldntParse(_) => "Got a response from i3 but couldn't parse the JSON",
        }
    }
}

/// The text of the error for a reply that is JSON but no list of outcomes.
pub open spec fn malformed_text() -> Seq<char> {
    "reply is not a list of outcomes"@
}

/// The outcome that an item of a reply stands for: an object whose member
/// `success` is a boolean and whose member `error`, where it has one, is a
/// text. Any other item stands for none.
pub open spec fn outcome_of_item(item: Json) -> Option<(bool, Option<Seq<char>>)> {
    match item {
        Json::Object(_) => match item.member("success"@) {
            Some(Json::Bool(success)) => match item.member("error"@) {
                None => Some((success, None)),
                Some(Json::Text(reason)) => Some((success, Some(reason@))),
                Some(_) => None,
            },
            _ => None,
        },
        _ => None,
    }
}

/// The success and the reason of an outcome.
pub open spec fn outcome_view(outcome: CommandOutcome) -> (bool, Option<Seq<char>>) {
    (
        outcome.success,
        match outcome.error {
            Some(reason) => Some(reason@),
            None => None,
        },
    )
}

/// Whether `command` holds the outcomes that the JSON value `value` lists:
/// the value is an array, and each item stands for the outcome in its place.
pub open spec fn lists_outcomes(value: Json, command: Command) -> bool {
    match value {
        Json::Array(items) => command.outcomes@.len() == items@.len() && forall|i: int|
            0 <= i < items@.len() ==> outcome_of_item(#[trigger] items@[i]) == Some(
                outcome_view(command.outcomes@[i]),
            ),
        _ => false,
    }
}

/// Whether the JSON value `value` lists outcomes: it is an array, and each
/// item stands for an outcome.
pub open spec fn is_outcome_list(value: Json) -> bool {
    match value {
        Json::Array(items) => forall|i: int|
            0 <= i < items@.len() ==> outcome_of_item(#[trigger] items@[i]) is Some,
        _ => false,
    }
}

/// The outcome that an item of a reply stands for.
pub fn outcome_from_json(item: &Json) -> (r: Option<CommandOutcome>)
    ensures
        match r {
            Some(outcome) => outcome_of_item(*item) == Some(outcome_view(outcome)),
            None => outcome_of_item(*item) is None,
        },
{
    match item {
        Json::Object(_) => {},
        _ => {
            return None;
        },
    }
    let success = match item.get("success") {
        Some(Json::Bool(success)) => *success,
        _ => {
            return None;
        },
    };
    match item.get("error") {
        None => Some(CommandOutcome { success, error: None }),
        Some(Json::Text(reason)) => Some(CommandOutcome { success, error: Some(reason.clone()) }),
        Some(_) => None,
    }
}

/// The outcomes that a JSON value lists, or an error where it lists none.
pub fn command_from_json(value: &Json) -> (r: Result<Command, MessageError>)
    ensures
        match r {
            Ok(command) => lists_outcomes(*value, command),
            Err(e) => !is_outcome_list(*value) && (e matches MessageError::JsonCouldntParse(why)
                && why@ == malformed_text()),
        },
{
    match value {
        Json::Array(items) => {
            let mut outcomes: Vec<CommandOutcome> = Vec::new();
            let mut i: usize = 0;
            while i < items.len()
                invariant
                    *value == Json::Array(*items),
                    i <= items@.len(),
                    outcomes@.len() == i,
                    forall|k: int|
                        0 <= k < i ==> outcome_of_item(#[trigger] items@[k]) == Some(
                            outcome_view(outcomes@[k]),
                        ),
                decreases items@.len() - i,
            {
                match outcome_from_json(&items[i]) {
                    Some(outcome) => {
                        outcomes.push(outcome);
                    },
                    None => {
                        return Err(
                            MessageError::JsonCouldntParse(
                                "reply is not a list of outcomes".to_owned(),
                            ),
                        );
                    },
                }
                i += 1;
            }
            Ok(Command { outcomes })
        },
        _ => Err(MessageError::JsonCouldntParse("reply is not a list of outcomes".to_owned())),
    }
}

/// Whether a reply was read as the payload `payload` demands: a JSON
/// document that lists outcomes gives them; one that lists none, and a
/// payload that is no JSON document, give an error of JSON.
pub open spec fn reply_is(payload: Seq<char>, r: Result<Command, MessageError>) -> bool {
    match json_document(payload) {
        Ok(value) => match r {
            Ok(command) => lists_outcomes(value, command),
            Err(e) => !is_outcome_list(value) && (e matches MessageError::JsonCouldntParse(why)
                && why@ == malformed_text()),
        },
        Err(text) => r matches Err(MessageError::JsonCouldntParse(why)) && why@ == text,
    }
}

/// The outcomes that the payload of a reply lists.
pub fn read_reply(payload: &str) -> (r: Result<Command, MessageError>)
    ensures
        reply_is(payload@, r),
{
    match read_document(payload) {
        Ok(value) => command_from_json(&value),
        Err(why) => Err(MessageError::JsonCouldntParse(why)),
    }
}

/// A client of the control socket, on a stream of frames.
#[derive(Debug)]
pub struct R3Msg<S: R3Funcs> {
    pub stream: S,
}

impl<S: R3Funcs> R3Msg<S> {
    /// A client on a stream that is connected.
    pub fn new(stream: S) -> (client: R3Msg<S>)
        ensures
            client.stream == stream,
    {
        R3Msg { stream }
    }

    /// A client on the stream that an attempt to connect gave, or the error
    /// of a socket that could not be reached.
    pub fn establish(connected: Result<S, IoError>) -> (r: Result<R3Msg<S>, EstablishError>)
        ensures
            match connected {
                Ok(stream) => r is Ok && r->Ok_0.stream == stream,
                Err(e) => r matches Err(EstablishError::SocketError(got)) && got == e,
            },
    {
        match connected {
            Ok(stream) => Ok(R3Msg { stream }),
            Err(e) => Err(EstablishError::SocketError(e)),
        }
    }

    /// Sends a request and reads the outcomes from its reply. A request that
    /// the stream does not take is a failure to send, and no reply is waited
    /// for. Else the stream was handed the frame of the request, once, and
    /// the result is what `read_received` makes of what the stream hands
    /// back: the failure to receive, or what the payload of the frame at
    /// the front of the pending bytes lists, of whatever type that frame is.
    pub fn send_msg(&mut self, msgtype: u32, payload: &str) -> (r: Result<Command, MessageError>)
        ensures
            (r is Err && r->Err_0 is Send) || (final(self).stream.written() == old(
                self,
            ).stream.written() + frame(msgtype, encode_utf8(payload@)) && ((r is Err
                && r->Err_0 is Receive) || (parse(old(self).stream.pending()) is Frame && reply_is(
                lossy_text(parse(old(self).stream.pending())->payload),
                r,
            ) && final(self).stream.pending() == old(self).stream.pending().skip(
                consumed(old(self).stream.pending()) as int,
            )))),
    {
        match self.stream.send_i3_message(msgtype, payload) {
            Ok(_) => {},
            Err(e) => {
                return Err(MessageError::Send(e));
            },
        }
        let received = self.stream.receive_i3_message();
        let r = read_received(received);
        assert(receipt_is(received, r));
        r
    }
}

/// Whether `r` is what a received frame comes to: the payload of a frame
/// that came, of whatever type, is read as a reply, and a failure to receive
/// one is handed on as it is.
pub open spec fn receipt_is(
    received: Result<(u32, String), IoError>,
    r: Result<Command, MessageError>,
) -> bool {
    match received {
        Ok(frame) => reply_is(frame.1@, r),
        Err(e) => r is Err && r->Err_0 is Receive && r->Err_0->Receive_0 == e,
    }
}

/// What a received frame comes to: the outcomes that its payload lists, an
/// error of JSON for a payload that lists none, or the failure to receive.
pub fn read_received(received: Result<(u32, String), IoError>) -> (r: Result<
    Command,
    MessageError,
>)
    ensures
        receipt_is(received, r),
{
    match received {
        Ok((_, reply)) => read_reply(reply.as_str()),
        Err(e) => Err(MessageError::Receive(e)),
    }
}

} // verus!
