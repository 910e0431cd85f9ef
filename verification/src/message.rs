//! The messages that probes and the control socket put on the bus.

use crate::error::{BarError, BarErrorView};
use crate::json::{json_document, read_document, Json};
use crate::sensors::wifi::{WifiStatus, WifiStatusView};
use crate::text::equal;
use vstd::prelude::*;

verus! {

/// What a build tool that watches the sources is doing.
#[derive(Debug, Clone, Copy, PartialEq, Eq, Structural)]
pub enum WebpackInfo {
    /// A build is running.
    Compile,
    /// The last build has ended.
    Done,
}

/// What a JSON value says of the build tool: the value is an object whose
/// member `change` is the text `compile` or the text `done`. Any other value
/// is an error of the bar.
pub open spec fn webpack_of(value: Json) -> Result<WebpackInfo, BarErrorView> {
    match value {
        Json::Object(_) => match value.member("change"@) {
            Some(Json::Text(change)) => if change@ == "compile"@ {
                Ok(WebpackInfo::Compile)
            } else if change@ == "done"@ {
                Ok(WebpackInfo::Done)
            } else {
                Err(BarErrorView::Bar("change field neither compile nor done"@))
            },
            _ => Err(BarErrorView::Bar("change field missing String"@)),
        },
        _ => Err(BarErrorView::Bar("webpack json not object"@)),
    }
}

/// What a payload says of the build tool: what its JSON document says, and a
/// JSON error where the payload is no JSON document.
pub open spec fn webpack_of_text(payload: Seq<char>) -> Result<WebpackInfo, BarErrorView> {
    match json_document(payload) {
        Ok(value) => webpack_of(value),
        Err(why) => Err(BarErrorView::Json(why)),
    }
}

/// Whether a result is the one that is expected, the error taken by its
/// view.
pub open spec fn webpack_result_is(
    r: Result<WebpackInfo, BarError>,
    expected: Result<WebpackInfo, BarErrorView>,
) -> bool {
    match r {
        Ok(info) => expected == Ok::<WebpackInfo, BarErrorView>(info),
        Err(e) => expected == Err::<WebpackInfo, BarErrorView>(e@),
    }
}

impl WebpackInfo {
    /// Reads what the build tool is doing from a JSON value.
    pub fn from_json(value: &Json) -> (r: Result<WebpackInfo, BarError>)
        ensures
            webpack_result_is(r, webpack_of(*value)),
    {
        match value {
            Json::Object(_) => {},
            _ => {
                return Err(BarError::Bar("webpack json not object".to_owned()));
            },
        }
        match value.get("change") {
            Some(Json::Text(change)) => {
                if equal(change.as_str(), "compile") {
                    Ok(WebpackInfo::Compile)
                } else if equal(change.as_str(), "done") {
                    Ok(WebpackInfo::Done)
                } else {
                    Err(BarError::Bar("change field neither compile nor done".to_owned()))
                }
            },
            _ => Err(BarError::Bar("change field missing String".to_owned())),
        }
    }

    /// Reads what the build tool is doing from the payload of a request.
    pub fn from_str(s: &str) -> (r: Result<WebpackInfo, BarError>)
        ensures
            webpack_result_is(r, webpack_of_text(s@)),
    {
        match read_document(s) {
            Ok(value) => WebpackInfo::from_json(&value),
            Err(why) => Err(BarError::Json(why)),
        }
    }
}

/// One workspace of the window manager, as far as the bar shows it.
#[derive(Debug, Clone, PartialEq, Eq)]
pub struct Workspace {
    pub name: String,
    pub focused: bool,
    pub urgent: bool,
}

/// A `Workspace` with its name as a sequence of characters.
pub struct WorkspaceView {
    pub name: Seq<char>,
    pub focused: bool,
    pub urgent: bool,
}

impl View for Workspace {
    type V = WorkspaceView;

    open spec fn view(&self) -> WorkspaceView {
        WorkspaceView { name: self.name@, focused: self.focused, urgent: self.urgent }
    }
}

/// One event on the bus. A message is made by one producer and read once.
#[derive(Debug, PartialEq, Eq)]
pub enum Message {
    /// The battery's capacity, its status and whether mains power is on, each
    /// as the text that the system gives.
    Battery((String, String, String)),
    /// Something went wrong that the user should hear of.
    Error(BarError),
    /// The bar is to end with this exit code.
    Exit(i32),
    /// The binding mode of the window manager.
    I3Mode(String),
    /// The time of day.
    Time(String),
    /// Every sleeping probe is to read again now.
    Unpark,
    /// How full the watched file systems are.
    DiskUsage(String),
    /// The volume of the sound output, as text.
    Volume(String),
    /// What the build tool is doing.
    Webpack(WebpackInfo),
    /// The state of the wireless link.
    Wifi(WifiStatus),
    /// The workspaces of the window manager, in its order.
    Workspaces(Vec<Workspace>),
}

/// A `Message` with its texts as sequences of characters.
pub enum MessageView {
    Battery(Seq<char>, Seq<char>, Seq<char>),
    Error(BarErrorView),
    Exit(i32),
    I3Mode(Seq<char>),
    Time(Seq<char>),
    Unpark,
    DiskUsage(Seq<char>),
    Volume(Seq<char>),
    Webpack(WebpackInfo),
    Wifi(WifiStatusView),
    Workspaces(Seq<WorkspaceView>),
}

/// The workspaces of a list, each by its view.
pub open spec fn workspaces_view(list: Seq<Workspace>) -> Seq<WorkspaceView> {
    Seq::new(list.len(), |i: int| list[i]@)
}

impl View for Message {
    type V = MessageView;

    open spec fn view(&self) -> MessageView {
        match self {
            Message::Battery(b) => MessageView::Battery(b.0@, b.1@, b.2@),
            Message::Error(e) => MessageView::Error(e@),
            Message::Exit(code) => MessageView::Exit(*code),
            Message::I3Mode(mode) => MessageView::I3Mode(mode@),
            Message::Time(time) => MessageView::Time(time@),
            Message::Unpark => MessageView::Unpark,
            Message::DiskUsage(usage) => MessageView::DiskUsage(usage@),
            Message::Volume(volume) => MessageView::Volume(volume@),
            Message::Webpack(info) => MessageView::Webpack(*info),
            Message::Wifi(status) => MessageView::Wifi(status@),
            Message::Workspaces(list) => MessageView::Workspaces(workspaces_view(list@)),
        }
    }
}

impl Message {
    /// The text of the message that stands for a number: the capacity of a
    /// battery and the volume. No other message has one.
    pub fn numeric_text(&self) -> (text: Option<&str>)
        ensures
            match self@ {
                MessageView::Battery(capacity, _, _) => text is Some && text->Some_0@ == capacity,
                MessageView::Volume(volume) => text is Some && text->Some_0@ == volume,
                _ => text is None,
            },
    {
        match self {
            Message::Battery(reading) => Some(reading.0.as_str()),
            Message::Volume(volume) => Some(volume.as_str()),
            _ => None,
        }
    }
}

} // verus!
