//! The closed set of UI events the tray shell delivers, and the fixed
//! policy that maps each event to the shell's response.

use vstd::prelude::*;

verus! {

/// The discrete events the tray/UI shell can deliver.
#[derive(Clone, Copy, Debug, PartialEq, Eq, Structural)]
pub enum UiEvent {
    /// The tray icon was clicked or double-clicked.
    IconClicked,
    /// The user picked the menu entry that opens the log file.
    OpenLogRequested,
    /// The user picked the menu entry that quits.
    ExitRequested,
}

/// What the shell must do in response to an event.
#[derive(Clone, Copy, Debug, PartialEq, Eq, Structural)]
pub enum UiAction {
    /// Do nothing.
    Ignore,
    /// Attempt a non-blocking flush of the shared buffer, then hand the
    /// log file's path to the platform's default opener.
    FlushAndOpenLog,
    /// Terminate the process.
    Exit,
}

/// The fixed event-to-action policy.
pub open spec fn action_for(event: UiEvent) -> UiAction {
    match event {
        UiEvent::IconClicked => UiAction::Ignore,
        UiEvent::OpenLogRequested => UiAction::FlushAndOpenLog,
        UiEvent::ExitRequested => UiAction::Exit,
    }
}

/// Decides the shell's response to one UI event.
pub fn react(event: UiEvent) -> (a: UiAction)
    ensures
        a == action_for(event),
{
    match event {
        UiEvent::IconClicked => UiAction::Ignore,
        UiEvent::OpenLogRequested => UiAction::FlushAndOpenLog,
        UiEvent::ExitRequested => UiAction::Exit,
    }
}

} // verus!
