//! Which connected gamepad drives the robot.
use vstd::prelude::*;

verus! {

/// A connection event of the gamepad library, pads named by their numeric id.
#[derive(Debug, Clone, Copy, PartialEq, Eq, Structural)]
pub enum PadEvent {
    Connected(usize),
    Disconnected(usize),
    /// Any other event (buttons, axes, ...): no effect on the choice of pad.
    Other,
}

/// What to do with the choice of active pad after an event.
#[derive(Debug, Clone, Copy, PartialEq, Eq, Structural)]
pub enum PadSelection {
    /// Keep the current choice.
    Keep,
    /// Make this pad the active one.
    Select(usize),
    /// The active pad went away: take the first pad still connected, if any.
    FirstConnected,
}

/// The choice after `event` when `active` is the current one: a newly connected pad
/// is taken only when none is active, and only the loss of the active pad moves
/// the choice on.
pub open spec fn pad_selection(active: Option<usize>, event: PadEvent) -> PadSelection {
    match event {
        PadEvent::Connected(id) => if active is None {
            PadSelection::Select(id)
        } else {
            PadSelection::Keep
        },
        PadEvent::Disconnected(id) => if active == Some(id) {
            PadSelection::FirstConnected
        } else {
            PadSelection::Keep
        },
        PadEvent::Other => PadSelection::Keep,
    }
}

/// Decides how `event` changes the choice of active pad.
pub fn select_pad(active: Option<usize>, event: PadEvent) -> (sel: PadSelection)
    ensures
        sel == pad_selection(active, event),
{
    match event {
        PadEvent::Connected(id) => {
            if active.is_none() {
                PadSelection::Select(id)
            } else {
                PadSelection::Keep
            }
        },
        PadEvent::Disconnected(id) => {
            match active {
                Some(a) => {
                    if a == id {
                        PadSelection::FirstConnected
                    } else {
                        PadSelection::Keep
                    }
                },
                None => PadSelection::Keep,
            }
        },
        PadEvent::Other => PadSelection::Keep,
    }
}

/// The active pad after applying `sel`, where `first_connected` is the first pad the
/// library still lists as connected.
pub open spec fn apply_selection(active: Option<usize>, sel: PadSelection, first_connected: Option<usize>) -> Option<usize> {
    match sel {
        PadSelection::Keep => active,
        PadSelection::Select(id) => Some(id),
        PadSelection::FirstConnected => first_connected,
    }
}

/// Once a pad is active, connecting further pads never takes the choice from it,
/// and neither does losing another pad.
pub proof fn lemma_active_pad_is_sticky(active: usize, event: PadEvent, first_connected: Option<usize>)
    requires
        event != PadEvent::Disconnected(active),
    ensures
        apply_selection(Some(active), pad_selection(Some(active), event), first_connected) == Some(active),
{
}

} // verus!
