//! The slider control: a labelled range of options with a current
//! selection.

use vstd::prelude::*;

use crate::error::RhubarbError;
use crate::event::Event;
use crate::wire::{dec_rep, json_string, lemma_join_comma_push, spec_join_comma, spec_json_string, usize_to_dec};

verus! {

/// The payload of a slider change: the index of the newly selected option.
#[derive(Debug, Clone, Copy, PartialEq, Eq, Structural)]
pub struct SliderChange {
    pub idx: usize,
}

/// A slider over an ordered sequence of option labels, with the index of the
/// current selection and an optional change handler.
#[derive(Debug, Clone)]
pub struct SliderControl<FS> {
    values: Vec<String>,
    pub curr_value: usize,
    on_change: Option<FS>,
}

/// How a slider appears on the wire: its option labels and the current
/// selection; the handler capability is never serialized.
pub open spec fn spec_slider_wire<FS>(s: SliderControl<FS>) -> Seq<char> {
    "{\"values\":["@ + spec_join_comma(s.spec_values().map_values(|v: String| spec_json_string(v@)))
        + "],\"curr_value\":"@ + dec_rep(s.spec_curr_value() as nat) + "}"@
}

/// What dispatching an event at a slider returns: a change goes to the
/// handler if one is set and passes the state through otherwise; any other
/// event kind is rejected as invalid for a `SliderControl`.
pub open spec fn slider_dispatch_ensures<St, FS>(
    slider: SliderControl<FS>,
    event: Event,
    state: St,
    r: Result<St, RhubarbError>,
) -> bool where FS: Fn(SliderChange, St) -> Result<St, RhubarbError> {
    match event {
        Event::SliderChange(c) => match slider.spec_on_change() {
            Some(h) => call_ensures(h, (c, state), r),
            None => r == Ok::<St, RhubarbError>(state),
        },
        _ => {
            &&& r matches Err(RhubarbError::InvalidEvent { event: e, component_type: t })
            &&& e == event
            &&& t@ == "SliderControl"@
        },
    }
}

impl<FS> SliderControl<FS> {
    /// The option labels, in order.
    pub closed spec fn spec_values(&self) -> Seq<String> {
        self.values@
    }

    /// The index of the current selection.
    pub closed spec fn spec_curr_value(&self) -> usize {
        self.curr_value
    }

    /// The slider's change handler, if one is set.
    pub closed spec fn spec_on_change(&self) -> Option<FS> {
        self.on_change
    }

    /// A new slider with the given option labels and current selection, and
    /// no change handler.
    pub fn new(values: Vec<String>, curr_value: usize) -> (r: SliderControl<FS>)
        ensures
            r.spec_values() == values@,
            r.spec_curr_value() == curr_value,
            r.spec_on_change() is None,
    {
        SliderControl { values, curr_value, on_change: None }
    }

    /// The same slider with its change handler set to `f`.
    pub fn with_on_change(self, f: FS) -> (r: SliderControl<FS>)
        ensures
            r.spec_values() == self.spec_values(),
            r.spec_curr_value() == self.spec_curr_value(),
            r.spec_on_change() == Some(f),
    {
        SliderControl { values: self.values, curr_value: self.curr_value, on_change: Some(f) }
    }

    /// Hands back the option labels.
    pub fn values(&self) -> (r: &Vec<String>)
        ensures
            r@ == self.spec_values(),
    {
        &self.values
    }

    /// Encodes the slider for the wire, labels first, selection second.
    pub fn to_wire(&self) -> (r: String)
        ensures
            r@ == spec_slider_wire(*self),
    {
        let ghost vals = self.spec_values();
        let ghost pieces = vals.map_values(|v: String| spec_json_string(v@));
        let mut out = "{\"values\":[".to_owned();
        let ghost prefix = out@;
        let mut i: usize = 0;
        proof {
            reveal_strlit(",");
            assert(vals.subrange(0, 0).map_values(|v: String| spec_json_string(v@)) =~= Seq::<
                Seq<char>,
            >::empty());
        }
        while i < self.values.len()
            invariant
                i <= vals.len(),
                vals == self.spec_values(),
                vals.len() == self.values@.len(),
                out@ == prefix + spec_join_comma(
                    vals.subrange(0, i as int).map_values(|v: String| spec_json_string(v@)),
                ),
            decreases vals.len() - i,
        {
            let ghost done = vals.subrange(0, i as int).map_values(
                |v: String| spec_json_string(v@),
            );
            if i > 0 {
                out.append(",");
            }
            out.append(json_string(self.values[i].as_str()).as_str());
            proof {
                reveal_strlit(",");
                lemma_join_comma_push(done, spec_json_string(vals[i as int]@));
                assert(vals.subrange(0, i + 1 as int).map_values(
                    |v: String| spec_json_string(v@),
                ) =~= done.push(spec_json_string(vals[i as int]@)));
                assert(out@ =~= prefix + spec_join_comma(
                    vals.subrange(0, i + 1 as int).map_values(|v: String| spec_json_string(v@)),
                ));
            }
            i = i + 1;
        }
        out.append("],\"curr_value\":");
        out.append(usize_to_dec(self.curr_value).as_str());
        out.append("}");
        proof {
            assert(vals.subrange(0, vals.len() as int) =~= vals);
            assert(out@ =~= spec_slider_wire(*self));
        }
        out
    }

    /// Accepts only `SliderChange`: with a handler set the handler decides,
    /// without one the state passes through unchanged; any other event kind
    /// is a hard error.
    pub fn handle_event<St>(&self, event: Event, state: St) -> (r: Result<St, RhubarbError>) where
        FS: Fn(SliderChange, St) -> Result<St, RhubarbError>,

        requires
            event matches Event::SliderChange(c) ==> (self.spec_on_change() matches Some(h)
                ==> call_requires(h, (c, state))),
        ensures
            slider_dispatch_ensures(*self, event, state, r),
    {
        match event {
            Event::SliderChange(change_details) => match &self.on_change {
                Some(handler) => handler(change_details, state),
                None => Ok(state),
            },
            _ => Err(
                RhubarbError::InvalidEvent { event, component_type: "SliderControl".to_owned() },
            ),
        }
    }
}

} // verus!
