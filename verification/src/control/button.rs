//! The button control: accepts clicks and nothing else.

use vstd::prelude::*;

use crate::error::RhubarbError;
use crate::event::Event;
use crate::wire::{json_string, spec_json_string};

verus! {

/// The payload of a button click: the click itself carries no data.
#[derive(Debug, Clone, Copy, PartialEq, Eq, Structural)]
pub struct ButtonClick {}

/// A clickable button with a label and an optional click handler.
///
/// The handler is a pure capability `(payload, state) -> Result<state, _>`;
/// it is shared read-only once the layout is frozen, so it must not capture
/// mutable state.
#[derive(Debug, Clone)]
pub struct ButtonControl<FB> {
    text: String,
    on_click: Option<FB>,
}

/// How a button appears on the wire: its label alone; the handler
/// capability is never serialized.
pub open spec fn spec_button_wire<FB>(b: ButtonControl<FB>) -> Seq<char> {
    "{\"text\":"@ + spec_json_string(b.spec_text()) + "}"@
}

/// What dispatching an event at a button returns: a click goes to the
/// handler if one is set and passes the state through otherwise; any other
/// event kind is rejected as invalid for a `ButtonControl`.
pub open spec fn button_dispatch_ensures<St, FB>(
    btn: ButtonControl<FB>,
    event: Event,
    state: St,
    r: Result<St, RhubarbError>,
) -> bool where FB: Fn(ButtonClick, St) -> Result<St, RhubarbError> {
    match event {
        Event::ButtonClick(c) => match btn.spec_on_click() {
            Some(h) => call_ensures(h, (c, state), r),
            None => r == Ok::<St, RhubarbError>(state),
        },
        _ => {
            &&& r matches Err(RhubarbError::InvalidEvent { event: e, component_type: t })
            &&& e == event
            &&& t@ == "ButtonControl"@
        },
    }
}

impl<FB> ButtonControl<FB> {
    /// The button's label.
    pub closed spec fn spec_text(&self) -> Seq<char> {
        self.text@
    }

    /// The button's click handler, if one is set.
    pub closed spec fn spec_on_click(&self) -> Option<FB> {
        self.on_click
    }

    /// A new button with the given label and no click handler.
    pub fn new(text: &str) -> (r: ButtonControl<FB>)
        ensures
            r.spec_text() == text@,
            r.spec_on_click() is None,
    {
        ButtonControl { text: text.to_owned(), on_click: None }
    }

    /// The same button with its click handler set to `f`.
    pub fn with_on_click(self, f: FB) -> (r: ButtonControl<FB>)
        ensures
            r.spec_text() == self.spec_text(),
            r.spec_on_click() == Some(f),
    {
        ButtonControl { text: self.text, on_click: Some(f) }
    }

    /// Hands back the button's label.
    pub fn text(&self) -> (r: &String)
        ensures
            r@ == self.spec_text(),
    {
        &self.text
    }

    /// Encodes the button for the wire.
    pub fn to_wire(&self) -> (r: String)
        ensures
            r@ == spec_button_wire(*self),
    {
        let mut out = "{\"text\":".to_owned();
        out.append(json_string(self.text.as_str()).as_str());
        out.append("}");
        proof {
            assert(out@ =~= spec_button_wire(*self));
        }
        out
    }

    /// Accepts only `ButtonClick`: with a handler set the handler decides,
    /// without one the state passes through unchanged; any other event kind
    /// is a hard error.
    pub fn handle_event<St>(&self, event: Event, state: St) -> (r: Result<St, RhubarbError>) where
        FB: Fn(ButtonClick, St) -> Result<St, RhubarbError>,

        requires
            event matches Event::ButtonClick(c) ==> (self.spec_on_click() matches Some(h)
                ==> call_requires(h, (c, state))),
        ensures
            button_dispatch_ensures(*self, event, state, r),
    {
        match event {
            Event::ButtonClick(click_details) => match &self.on_click {
                Some(handler) => handler(click_details, state),
                None => Ok(state),
            },
            _ => Err(
                RhubarbError::InvalidEvent { event, component_type: "ButtonControl".to_owned() },
            ),
        }
    }
}

} // verus!
