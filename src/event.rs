use vstd::prelude::*;

verus! {

/// A terminal event, reduced to what the event loop decides on.
#[derive(Clone, Copy, Debug, PartialEq, Eq, Structural)]
pub enum TerminalEvent {
    /// A key press: the character it types, if any, and whether Control was
    /// the one modifier held.
    Key { ch: Option<char>, control_only: bool },
    Resize(u16, u16),
    ScrollDown,
    ScrollUp,
    Other,
}

/// What the event loop does with an event.
#[derive(Clone, Copy, Debug, PartialEq, Eq, Structural)]
pub enum EventAction {
    /// Stop the application.
    Exit,
    /// Hand the key press to the application.
    DeliverKey,
    /// Hand the application a press of the down arrow.
    DeliverDown,
    /// Hand the application a press of the up arrow.
    DeliverUp,
    /// Resize the renderer to the given width and height.
    Resize(u16, u16),
    /// Nothing to do.
    Ignore,
}

pub open spec fn spec_decide(event: TerminalEvent) -> EventAction {
    match event {
        TerminalEvent::Key { ch, control_only } => if control_only && (ch == Some('c') || ch == Some(
            'd',
        )) {
            EventAction::Exit
        } else {
            EventAction::DeliverKey
        },
        TerminalEvent::Resize(w, h) => EventAction::Resize(w, h),
        TerminalEvent::ScrollDown => EventAction::DeliverDown,
        TerminalEvent::ScrollUp => EventAction::DeliverUp,
        TerminalEvent::Other => EventAction::Ignore,
    }
}

/// Control-C and Control-D end the application; other keys go to it; a
/// resize resizes the renderer; the mouse wheel reads as the arrow keys;
/// anything else is ignored.
pub fn decide_event(event: TerminalEvent) -> (r: EventAction)
    ensures
        r == spec_decide(event),
{
    match event {
        TerminalEvent::Key { ch, control_only } => {
            let stop = match ch {
                Some(c) => control_only && (c == 'c' || c == 'd'),
                None => false,
            };
            if stop {
                EventAction::Exit
            } else {
                EventAction::DeliverKey
            }
        },
        TerminalEvent::Resize(w, h) => EventAction::Resize(w, h),
        TerminalEvent::ScrollDown => EventAction::DeliverDown,
        TerminalEvent::ScrollUp => EventAction::DeliverUp,
        TerminalEvent::Other => EventAction::Ignore,
    }
}

} // verus!
