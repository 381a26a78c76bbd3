//! What the capture loop tells the rest of the program.

use vstd::prelude::*;

verus! {

/// A gamepad as the input backend lists it.
#[derive(Clone, Debug, PartialEq, Eq)]
pub struct GamepadInfo {
    /// The identifier that the backend gave the gamepad.
    pub id: usize,
    /// The name under which the gamepad presents itself.
    pub name: String,
}

/// A gamepad has come or gone.
#[derive(Clone, Debug, PartialEq, Eq)]
pub struct ControllerConnectionEvent {
    /// `true` if the gamepad is connected, `false` otherwise.
    pub connected: bool,
    /// The gamepad's identifier.
    pub controller_id: usize,
    /// The gamepad's name.
    pub gamepad_name: String,
}

/// A `ControllerConnectionEvent` with its name as a sequence of characters.
pub struct ConnectionEventView {
    pub connected: bool,
    pub controller_id: usize,
    pub gamepad_name: Seq<char>,
}

impl View for ControllerConnectionEvent {
    type V = ConnectionEventView;

    open spec fn view(&self) -> ConnectionEventView {
        ConnectionEventView {
            connected: self.connected,
            controller_id: self.controller_id,
            gamepad_name: self.gamepad_name@,
        }
    }
}

/// A notice for the user interface: a gamepad is being used, has come to
/// rest, or has come or gone.
#[derive(Clone, Debug, PartialEq, Eq)]
pub enum ControllerHighlightEvent {
    Highlight(usize),
    Unhighlight(usize),
    ConnectionEvent(ControllerConnectionEvent),
}

/// A `ControllerHighlightEvent` with its name as a sequence of characters.
pub enum HighlightEventView {
    Highlight(usize),
    Unhighlight(usize),
    ConnectionEvent(ConnectionEventView),
}

impl View for ControllerHighlightEvent {
    type V = HighlightEventView;

    open spec fn view(&self) -> HighlightEventView {
        match self {
            ControllerHighlightEvent::Highlight(id) => HighlightEventView::Highlight(*id),
            ControllerHighlightEvent::Unhighlight(id) => HighlightEventView::Unhighlight(*id),
            ControllerHighlightEvent::ConnectionEvent(e) => HighlightEventView::ConnectionEvent(
                e@,
            ),
        }
    }
}

/// The notice that the gamepad `id`, called `name`, has come or gone.
pub open spec fn spec_connection_notice(
    connected: bool,
    id: usize,
    name: Seq<char>,
) -> HighlightEventView {
    HighlightEventView::ConnectionEvent(
        ConnectionEventView { connected, controller_id: id, gamepad_name: name },
    )
}

/// Makes the notice that the gamepad `id`, called `name`, has come or gone.
pub fn connection_notice(connected: bool, id: usize, name: &str) -> (notice:
    ControllerHighlightEvent)
    ensures
        notice@ == spec_connection_notice(connected, id, name@),
{
    ControllerHighlightEvent::ConnectionEvent(
        ControllerConnectionEvent {
            connected,
            controller_id: id,
            gamepad_name: String::from_str(name),
        },
    )
}

} // verus!
