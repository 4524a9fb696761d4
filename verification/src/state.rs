//! The current state of the world, as far as the relay follows it.

use crate::event::{EventView, SalvageEvent};
use vstd::prelude::*;

verus! {

/// Data about the current state of the world: whether a shift is under way.
#[derive(Debug)]
pub struct LedgerState {
    in_shift: bool,
}

/// Whether a shift is under way after `event`, given whether one was before.
pub open spec fn shift_after(in_shift: bool, event: EventView) -> bool {
    match event {
        EventView::StartShiftEvent { .. } => true,
        EventView::EndShiftEvent { .. } => false,
        _ => in_shift,
    }
}

/// The body of the status answer.
pub open spec fn status_text(in_shift: bool) -> Seq<char> {
    if in_shift {
        "{\"inShift\":true}"@
    } else {
        "{\"inShift\":false}"@
    }
}

impl View for LedgerState {
    type V = bool;

    closed spec fn view(&self) -> bool {
        self.in_shift
    }
}

impl Default for LedgerState {
    /// No shift is under way until an event says so.
    fn default() -> (state: LedgerState)
        ensures
            !state@,
    {
        LedgerState { in_shift: false }
    }
}

impl LedgerState {
    /// Whether a shift is under way.
    pub fn in_shift(&self) -> (in_shift: bool)
        ensures
            in_shift == self@,
    {
        self.in_shift
    }

    /// Follows one event: the start of a shift sets the flag, the end of a
    /// shift clears it, any other event leaves it.
    pub fn apply(&mut self, event: &SalvageEvent)
        ensures
            final(self)@ == shift_after(old(self)@, event@),
    {
        match event {
            SalvageEvent::StartShiftEvent { .. } => {
                self.in_shift = true;
            },
            SalvageEvent::EndShiftEvent { .. } => {
                self.in_shift = false;
            },
            _ => {},
        }
    }
}

/// Answers the status query: the state as a JSON object.
pub fn handle_status(state: &LedgerState) -> (body: String)
    ensures
        body@ == status_text(state@),
{
    if state.in_shift {
        String::from_str("{\"inShift\":true}")
    } else {
        String::from_str("{\"inShift\":false}")
    }
}

} // verus!
