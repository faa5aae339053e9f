//! When the viewer leaves its running state.

use vstd::prelude::*;

verus! {

/// What the viewer learns from one event, reduced to what decides quitting.
#[derive(Clone, Copy, Debug, PartialEq, Eq, Structural)]
pub enum ViewerEvent {
    /// A window event: whether it asks to close, and whether Escape is down.
    Window { close_requested: bool, escape_down: bool },
    /// Any event that does not come from the window.
    Other,
}

/// The state change that an event calls for.
#[derive(Clone, Copy, Debug, PartialEq, Eq, Structural)]
pub enum Transition {
    Stay,
    Quit,
}

/// Whether `event` ends the viewer: a window event that requests closing or
/// holds the Escape key down.
pub open spec fn quits_on(event: ViewerEvent) -> bool {
    match event {
        ViewerEvent::Window { close_requested, escape_down } => close_requested || escape_down,
        ViewerEvent::Other => false,
    }
}

/// The transition for one event: quit exactly when the event asks to.
pub fn handle_event(event: ViewerEvent) -> (r: Transition)
    ensures
        r == (if quits_on(event) { Transition::Quit } else { Transition::Stay }),
{
    match event {
        ViewerEvent::Window { close_requested, escape_down } => {
            if close_requested || escape_down {
                Transition::Quit
            } else {
                Transition::Stay
            }
        },
        ViewerEvent::Other => Transition::Stay,
    }
}

} // verus!
