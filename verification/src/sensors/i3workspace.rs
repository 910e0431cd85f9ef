//! The window manager: which of its events change what the bar shows, and
//! the command that moves to a workspace.

use crate::error::{BarError, BarErrorView};
use crate::message::{Message, MessageView};
use crate::r3ipc::CommandOutcome;
use crate::text::concat;
use vstd::prelude::*;

verus! {

/// The probe of the window manager.
#[derive(Debug)]
pub struct I3Workspace {}

/// An event of the window manager, as far as the bar tells them apart.
#[derive(Debug)]
pub enum I3Event {
    /// A workspace was made, left or changed.
    Workspace,
    /// A window was made, closed or changed.
    Window,
    /// The binding mode changed to the one named.
    Mode(String),
    /// Any other event, or a failure to read one.
    Other,
}

/// What the probe does about an event.
#[derive(Debug, PartialEq, Eq)]
pub enum I3Action {
    /// Ask the window manager for its workspaces and send them to the bus.
    Refresh,
    /// Send this message to the bus.
    Send(Message),
    /// Tell the user this text and wait for the next event.
    Skip(String),
}

/// An `I3Action` by its views.
pub enum I3ActionView {
    Refresh,
    Send(MessageView),
    Skip(Seq<char>),
}

impl View for I3Action {
    type V = I3ActionView;

    open spec fn view(&self) -> I3ActionView {
        match self {
            I3Action::Refresh => I3ActionView::Refresh,
            I3Action::Send(msg) => I3ActionView::Send(msg@),
            I3Action::Skip(text) => I3ActionView::Skip(text@),
        }
    }
}

/// The command that shows `workspace` and moves it to `output`.
pub open spec fn command_text(workspace: Seq<char>, output: Seq<char>) -> Seq<char> {
    "workspace "@ + workspace + ", move workspace to "@ + output
}

/// The place of the first outcome that is a failure, or the number of
/// outcomes where all are successes.
pub open spec fn first_failure(outcomes: Seq<CommandOutcome>) -> nat
    decreases outcomes.len(),
{
    if outcomes.len() > 0 && outcomes.first().success {
        1 + first_failure(outcomes.drop_first())
    } else {
        0
    }
}

/// Whether a command went through: the first outcome that is a failure is
/// the error, with its reason where it gives one.
pub open spec fn outcome_of(outcomes: Seq<CommandOutcome>) -> Result<(), BarErrorView> {
    let i = first_failure(outcomes) as int;
    if i >= outcomes.len() {
        Ok(())
    } else {
        match outcomes[i].error {
            Some(reason) => Err(BarErrorView::Bar(reason@)),
            None => Err(BarErrorView::Bar("Couldn't switch workspace unknown reason"@)),
        }
    }
}

impl I3Workspace {
    /// A probe of the window manager.
    pub fn new() -> (probe: I3Workspace) {
        I3Workspace {  }
    }

    /// What the probe does about an event: a change of workspaces or windows
    /// asks for the workspaces anew, a change of mode is sent as it is, and
    /// anything else is reported and passed over.
    pub fn on_event(event: I3Event) -> (action: I3Action)
        ensures
            action@ == match event {
                I3Event::Workspace => I3ActionView::Refresh,
                I3Event::Window => I3ActionView::Refresh,
                I3Event::Mode(change) => I3ActionView::Send(MessageView::I3Mode(change@)),
                I3Event::Other => I3ActionView::Skip("bad things from i3workspace"@),
            },
    {
        match event {
            I3Event::Workspace => I3Action::Refresh,
            I3Event::Window => I3Action::Refresh,
            I3Event::Mode(change) => I3Action::Send(Message::I3Mode(change)),
            I3Event::Other => I3Action::Skip("bad things from i3workspace".to_owned()),
        }
    }

    /// The command that shows `workspace` and moves it to `output`.
    pub fn change_workspace_command(workspace: &str, output: &str) -> (command: String)
        ensures
            command@ == command_text(workspace@, output@),
    {
        let shown = concat("workspace ", workspace);
        let moved = concat(shown.as_str(), ", move workspace to ");
        concat(moved.as_str(), output)
    }

    /// Whether the command went through, from the outcomes that the window
    /// manager replied.
    pub fn change_workspace_result(outcomes: Vec<CommandOutcome>) -> (r: Result<(), BarError>)
        ensures
            match r {
                Ok(_) => outcome_of(outcomes@) is Ok,
                Err(e) => outcome_of(outcomes@) == Err::<(), BarErrorView>(e@),
            },
    {
        let ghost all = outcomes@;
        assert(all.skip(0) =~= all);
        for outcome in it: outcomes
            invariant
                it.seq() == all,
                first_failure(all) == it.index() + first_failure(all.skip(it.index() as int)),
        {
            proof {
                let rest = all.skip(it.index() as int);
                assert(rest.first() == outcome);
                assert(rest.drop_first() =~= all.skip(it.index() + 1));
            }
            if !outcome.success {
                return match outcome.error {
                    Some(reason) => Err(BarError::Bar(reason)),
                    None => Err(
                        BarError::Bar("Couldn't switch workspace unknown reason".to_owned()),
                    ),
                };
            }
        }
        Ok(())
    }
}

} // verus!
