//! Interactive controls: the leaves of the component tree that accept
//! events.

use vstd::prelude::*;

pub mod button;
pub mod slider;

use crate::control::button::{spec_button_wire, ButtonClick, ButtonControl};
use crate::control::slider::{spec_slider_wire, SliderChange, SliderControl};
use crate::error::RhubarbError;
use crate::event::Event;

verus! {

/// An interactive component, tagged by kind.
///
/// `FB` is the type of a button's click handler, `FS` the type of a slider's
/// change handler.
#[derive(Debug, Clone)]
pub enum Control<FB, FS> {
    Button(ButtonControl<FB>),
    Slider(SliderControl<FS>),
}

/// How a control appears on the wire: tagged with its kind, its
/// client-visible attributes under `properties`.
pub open spec fn spec_control_wire<FB, FS>(c: Control<FB, FS>) -> Seq<char> {
    match c {
        Control::Button(b) => "{\"type\":\"button\",\"properties\":"@ + spec_button_wire(b)
            + "}"@,
        Control::Slider(s) => "{\"type\":\"slider\",\"properties\":"@ + spec_slider_wire(s)
            + "}"@,
    }
}

/// What a caller must guarantee before an event is dispatched at a control:
/// if the event matches the control's kind and a handler is present, the
/// handler must accept the payload and state.
pub open spec fn control_dispatch_requires<St, FB, FS>(
    ctrl: Control<FB, FS>,
    event: Event,
    state: St,
) -> bool where
    FB: Fn(ButtonClick, St) -> Result<St, RhubarbError>,
    FS: Fn(SliderChange, St) -> Result<St, RhubarbError>,
 {
    match (ctrl, event) {
        (Control::Button(b), Event::ButtonClick(c)) => b.spec_on_click() matches Some(h)
            ==> call_requires(h, (c, state)),
        (Control::Slider(s), Event::SliderChange(c)) => s.spec_on_change() matches Some(h)
            ==> call_requires(h, (c, state)),
        _ => true,
    }
}

/// What dispatching an event at a control returns: the matching handler's
/// result, the state passed through when no handler is set, and a typed
/// error on an event of the wrong kind.
pub open spec fn control_dispatch_ensures<St, FB, FS>(
    ctrl: Control<FB, FS>,
    event: Event,
    state: St,
    r: Result<St, RhubarbError>,
) -> bool where
    FB: Fn(ButtonClick, St) -> Result<St, RhubarbError>,
    FS: Fn(SliderChange, St) -> Result<St, RhubarbError>,
 {
    match ctrl {
        Control::Button(b) => button::button_dispatch_ensures(b, event, state, r),
        Control::Slider(s) => slider::slider_dispatch_ensures(s, event, state, r),
    }
}

impl<FB, FS> Control<FB, FS> {
    /// Encodes the control for the wire, tagged with its kind.
    pub fn to_wire(&self) -> (r: String)
        ensures
            r@ == spec_control_wire(*self),
    {
        match self {
            Control::Button(btn) => {
                let mut out = "{\"type\":\"button\",\"properties\":".to_owned();
                out.append(btn.to_wire().as_str());
                out.append("}");
                proof {
                    assert(out@ =~= spec_control_wire(*self));
                }
                out
            },
            Control::Slider(slider) => {
                let mut out = "{\"type\":\"slider\",\"properties\":".to_owned();
                out.append(slider.to_wire().as_str());
                out.append("}");
                proof {
                    assert(out@ =~= spec_control_wire(*self));
                }
                out
            },
        }
    }

    /// Delegates the event to the inner variant.
    pub fn handle_event<St>(&self, event: Event, state: St) -> (r: Result<St, RhubarbError>) where
        FB: Fn(ButtonClick, St) -> Result<St, RhubarbError>,
        FS: Fn(SliderChange, St) -> Result<St, RhubarbError>,

        requires
            control_dispatch_requires(*self, event, state),
        ensures
            control_dispatch_ensures(*self, event, state, r),
    {
        match self {
            Control::Button(btn) => btn.handle_event(event, state),
            Control::Slider(slider) => slider.handle_event(event, state),
        }
    }
}

} // verus!
