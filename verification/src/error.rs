//! The errors of the bar, and the text that reports each.

use crate::text::concat;
use vstd::prelude::*;

verus! {

/// What kind of failure a stream reported.
#[derive(Debug, Clone, Copy, PartialEq, Eq, Structural)]
pub enum IoKind {
    /// The stream ended before the bytes that were asked for had come: the
    /// peer has closed the connection.
    UnexpectedEof,
    /// The bytes that came are not a frame of the protocol.
    Protocol,
    /// Any other failure to read or to write.
    Other,
}

/// A failure to read from a stream or to write to it.
#[derive(Debug, PartialEq, Eq)]
pub struct IoError {
    pub kind: IoKind,
    pub text: String,
}

/// An `IoError` with its text as a sequence of characters.
pub struct IoErrorView {
    pub kind: IoKind,
    pub text: Seq<char>,
}

impl View for IoError {
    type V = IoErrorView;

    open spec fn view(&self) -> IoErrorView {
        IoErrorView { kind: self.kind, text: self.text@ }
    }
}

/// Anything that goes wrong in the bar. Each variant carries the text of the
/// failure it stands for.
#[derive(Debug, PartialEq, Eq)]
pub enum BarError {
    /// Reading or writing failed.
    Io(IoError),
    /// A font could not be loaded.
    Font(String),
    /// Bytes that should be text are not UTF-8.
    Utf8(String),
    /// Text that should be JSON is not.
    Json(String),
    /// No connection to the window manager could be made.
    I3Establish(String),
    /// The window manager did not take or answer a message.
    I3Message(String),
    /// A rule of the bar itself was broken.
    Bar(String),
}

/// A `BarError` with its text as a sequence of characters.
pub enum BarErrorView {
    Io(IoErrorView),
    Font(Seq<char>),
    Utf8(Seq<char>),
    Json(Seq<char>),
    I3Establish(Seq<char>),
    I3Message(Seq<char>),
    Bar(Seq<char>),
}

impl BarErrorView {
    /// The text that reports the error: what kind it is, then its own text.
    pub open spec fn report(self) -> Seq<char> {
        match self {
            BarErrorView::Io(e) => "IO error: "@ + e.text,
            BarErrorView::Font(t) => "Font error: "@ + t,
            BarErrorView::Utf8(t) => "Utf8 error: "@ + t,
            BarErrorView::Json(t) => "Json error: "@ + t,
            BarErrorView::I3Establish(t) => "I3 establish error: "@ + t,
            BarErrorView::I3Message(t) => "I3 message error: "@ + t,
            BarErrorView::Bar(t) => "Bar error: "@ + t,
        }
    }
}

impl View for BarError {
    type V = BarErrorView;

    open spec fn view(&self) -> BarErrorView {
        match self {
            BarError::Io(e) => BarErrorView::Io(e@),
            BarError::Font(t) => BarErrorView::Font(t@),
            BarError::Utf8(t) => BarErrorView::Utf8(t@),
            BarError::Json(t) => BarErrorView::Json(t@),
            BarError::I3Establish(t) => BarErrorView::I3Establish(t@),
            BarError::I3Message(t) => BarErrorView::I3Message(t@),
            BarError::Bar(t) => BarErrorView::Bar(t@),
        }
    }
}

impl BarError {
    /// The text that reports the error.
    pub fn to_string(&self) -> (s: String)
        ensures
            s@ == self@.report(),
    {
        match self {
            BarError::Io(e) => concat("IO error: ", e.text.as_str()),
            BarError::Font(t) => concat("Font error: ", t.as_str()),
            BarError::Utf8(t) => concat("Utf8 error: ", t.as_str()),
            BarError::Json(t) => concat("Json error: ", t.as_str()),
            BarError::I3Establish(t) => concat("I3 establish error: ", t.as_str()),
            BarError::I3Message(t) => concat("I3 message error: ", t.as_str()),
            BarError::Bar(t) => concat("Bar error: ", t.as_str()),
        }
    }

    /// The error's own text, without the word for its kind.
    pub fn description(&self) -> (s: &str)
        ensures
            s@ == self@.detail(),
    {
        match self {
            BarError::Io(e) => e.text.as_str(),
            BarError::Font(t) => t.as_str(),
            BarError::Utf8(t) => t.as_str(),
            BarError::Json(t) => t.as_str(),
            BarError::I3Establish(t) => t.as_str(),
            BarError::I3Message(t) => t.as_str(),
            BarError::Bar(t) => t.as_str(),
        }
    }
}

impl BarErrorView {
    /// The error's own text, without the word for its kind.
    pub open spec fn detail(self) -> Seq<char> {
        match self {
            BarErrorView::Io(e) => e.text,
            BarErrorView::Font(t) => t,
            BarErrorView::Utf8(t) => t,
            BarErrorView::Json(t) => t,
            BarErrorView::I3Establish(t) => t,
            BarErrorView::I3Message(t) => t,
            BarErrorView::Bar(t) => t,
        }
    }
}

impl From<String> for BarError {
    /// A text alone is an error of the bar itself.
    fn from(err: String) -> (e: BarError) {
        BarError::Bar(err)
    }
}

impl vstd::std_specs::convert::FromSpecImpl<String> for BarError {
    open spec fn obeys_from_spec() -> bool {
        true
    }

    open spec fn from_spec(err: String) -> BarError {
        BarError::Bar(err)
    }
}

impl From<IoError> for BarError {
    /// A failure of a stream is an error of reading or writing.
    fn from(err: IoError) -> (e: BarError) {
        BarError::Io(err)
    }
}

impl vstd::std_specs::convert::FromSpecImpl<IoError> for BarError {
    open spec fn obeys_from_spec() -> bool {
        true
    }

    open spec fn from_spec(err: IoError) -> BarError {
        BarError::Io(err)
    }
}

} // verus!
