//! Wire-level events and the message that routes one to a component.

use vstd::prelude::*;

use crate::control::button::ButtonClick;
use crate::control::slider::SliderChange;
use crate::layout::ComponentIndex;

verus! {

/// A client interaction, tagged by kind.
#[derive(Debug, Clone, Copy, PartialEq, Eq, Structural)]
pub enum Event {
    ButtonClick(ButtonClick),
    SliderChange(SliderChange),
}

/// The name of an event's kind, as it appears in error reports.
pub open spec fn spec_event_name(e: Event) -> Seq<char> {
    match e {
        Event::ButtonClick(_) => "ButtonClick"@,
        Event::SliderChange(_) => "SliderChange"@,
    }
}

impl Event {
    /// The kind of this event, by name.
    pub fn name(&self) -> (r: &str)
        ensures
            r@ == spec_event_name(*self),
    {
        match *self {
            Event::ButtonClick(_) => "ButtonClick",
            Event::SliderChange(_) => "SliderChange",
        }
    }
}

/// A wire message routing an event to the component holding the target
/// handle.
#[derive(Debug, Clone, Copy, PartialEq, Eq, Structural)]
pub struct EventMessage {
    pub idx: ComponentIndex,
    pub event: Event,
}

} // verus!
