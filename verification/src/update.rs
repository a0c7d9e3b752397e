//! The update envelope: what a response tells the client, and the
//! capability that decides what changed.

use vstd::prelude::*;

use crate::error::RhubarbError;
use crate::event::EventMessage;
use crate::layout::{
    spec_indexed_component_wire, spec_layout_wire, Component, ComponentIndex, IndexedComponent,
    Layout,
};
use crate::wire::{lemma_join_comma_push, spec_join_comma};
use crate::Chart;

verus! {

/// The request body: the application state the client echoes back, and the
/// event it wants dispatched.
#[derive(Debug)]
pub struct ClientMessage<St> {
    pub ui_state: St,
    pub event_message: EventMessage,
}

/// The incremental response envelope: an optional regenerated chart, an
/// ordered list of targeted component replacements, and the new application
/// state.
#[derive(Debug)]
pub struct Update<St, FB, FS> {
    chart: Option<Chart>,
    components: Vec<IndexedComponent<FB, FS>>,
    state: St,
}

/// How the replacements list appears on the wire: each replacement tagged
/// with the handle it targets.
pub open spec fn spec_replacements_wire<FB, FS>(list: Seq<IndexedComponent<FB, FS>>) -> Seq<
    char,
> {
    "["@ + spec_join_comma(
        list.map_values(
            |ic: IndexedComponent<FB, FS>| spec_indexed_component_wire(ic.idx as nat, ic.component),
        ),
    ) + "]"@
}

/// The chart field of an envelope, present only when a chart was
/// regenerated; the document is spliced in verbatim.
pub open spec fn spec_chart_field(chart: Option<Chart>) -> Seq<char> {
    match chart {
        Some(ch) => "\"chart\":"@ + ch.spec_document() + ","@,
        None => Seq::<char>::empty(),
    }
}

/// How an incremental update appears on the wire.  The encoded application
/// state is supplied by the transport layer, which alone can read the state
/// type, and is spliced in verbatim.
pub open spec fn spec_update_wire<St, FB, FS>(
    u: Update<St, FB, FS>,
    state_json: Seq<char>,
) -> Seq<char> {
    "{"@ + spec_chart_field(u.spec_chart()) + "\"components\":"@ + spec_replacements_wire(
        u.spec_replacements(),
    ) + ",\"state\":"@ + state_json + "}"@
}

impl<St, FB, FS> Update<St, FB, FS> {
    /// The chart to ship, if one was regenerated.
    pub closed spec fn spec_chart(&self) -> Option<Chart> {
        self.chart
    }

    /// The replacements to ship, in order.
    pub closed spec fn spec_replacements(&self) -> Seq<IndexedComponent<FB, FS>> {
        self.components@
    }

    /// The application state to ship.
    pub closed spec fn spec_state(&self) -> St {
        self.state
    }

    /// A new envelope with no replacements yet.
    pub fn new(chart: Option<Chart>, state: St) -> (r: Update<St, FB, FS>)
        ensures
            r.spec_chart() == chart,
            r.spec_replacements() == Seq::<IndexedComponent<FB, FS>>::empty(),
            r.spec_state() == state,
    {
        Update { chart, components: vec![], state }
    }

    /// Sets the chart to ship.
    pub fn set_chart(&mut self, chart: Chart)
        ensures
            final(self).spec_chart() == Some(chart),
            final(self).spec_replacements() == old(self).spec_replacements(),
            final(self).spec_state() == old(self).spec_state(),
    {
        self.chart = Some(chart);
    }

    /// Appends a replacement: the new value the client should render for
    /// the component at `component_idx`.
    pub fn add_component(
        &mut self,
        component_idx: ComponentIndex,
        updated_component: Component<FB, FS>,
    ) -> (r: Result<(), RhubarbError>)
        ensures
            r is Ok,
            final(self).spec_replacements() == old(self).spec_replacements().push(
                IndexedComponent { idx: component_idx, component: updated_component },
            ),
            final(self).spec_chart() == old(self).spec_chart(),
            final(self).spec_state() == old(self).spec_state(),
    {
        self.components.push(IndexedComponent { idx: component_idx, component: updated_component });
        Ok(())
    }

    /// Hands back the chart to ship, if any.
    pub fn chart(&self) -> (r: &Option<Chart>)
        ensures
            *r == self.spec_chart(),
    {
        &self.chart
    }

    /// Hands back the replacements to ship.
    pub fn components(&self) -> (r: &Vec<IndexedComponent<FB, FS>>)
        ensures
            r@ == self.spec_replacements(),
    {
        &self.components
    }

    /// Hands back the application state to ship.
    pub fn state(&self) -> (r: &St)
        ensures
            *r == self.spec_state(),
    {
        &self.state
    }

    /// Encodes the envelope for the wire around the already encoded
    /// application state.
    pub fn to_wire(&self, state_json: &str) -> (r: String)
        ensures
            r@ == spec_update_wire(*self, state_json@),
    {
        let mut out = "{".to_owned();
        append_chart_field(&mut out, &self.chart);
        out.append("\"components\":");
        out.append(replacements_to_wire(&self.components).as_str());
        out.append(",\"state\":");
        out.append(state_json);
        out.append("}");
        proof {
            assert(out@ =~= spec_update_wire(*self, state_json@));
        }
        out
    }
}

/// The first-contact response envelope: an incremental update plus the full
/// serialized tree, so the client can render from nothing.
pub struct LayoutUpdate<'a, St, FB, FS> {
    update: Update<St, FB, FS>,
    layout: &'a Layout<FB, FS>,
}

/// How a first-contact response appears on the wire: the incremental
/// envelope widened by the full tree.
pub open spec fn spec_layout_update_wire<St, FB, FS>(
    u: Update<St, FB, FS>,
    l: Layout<FB, FS>,
    state_json: Seq<char>,
) -> Seq<char> {
    "{"@ + spec_chart_field(u.spec_chart()) + "\"layout\":"@ + spec_layout_wire(l)
        + ",\"components\":"@ + spec_replacements_wire(u.spec_replacements()) + ",\"state\":"@
        + state_json + "}"@
}

impl<'a, St, FB, FS> LayoutUpdate<'a, St, FB, FS> {
    /// The incremental part of the response.
    pub closed spec fn spec_update(&self) -> Update<St, FB, FS> {
        self.update
    }

    /// The layout the response carries in full.
    pub closed spec fn spec_layout(&self) -> Layout<FB, FS> {
        *self.layout
    }

    /// Wraps an update together with the full tree.
    pub fn new(update: Update<St, FB, FS>, layout: &'a Layout<FB, FS>) -> (r: LayoutUpdate<
        'a,
        St,
        FB,
        FS,
    >)
        ensures
            r.spec_update() == update,
            r.spec_layout() == *layout,
    {
        LayoutUpdate { update, layout }
    }

    /// Hands back the incremental part of the response.
    pub fn update(&self) -> (r: &Update<St, FB, FS>)
        ensures
            *r == self.spec_update(),
    {
        &self.update
    }

    /// Hands back the layout the response carries in full.
    pub fn layout(&self) -> (r: &'a Layout<FB, FS>)
        ensures
            *r == self.spec_layout(),
    {
        self.layout
    }

    /// Encodes the first-contact response for the wire around the already
    /// encoded application state.
    pub fn to_wire(&self, state_json: &str) -> (r: String)
        ensures
            r@ == spec_layout_update_wire(self.spec_update(), self.spec_layout(), state_json@),
    {
        let mut out = "{".to_owned();
        append_chart_field(&mut out, self.update.chart());
        out.append("\"layout\":");
        out.append(self.layout.to_wire().as_str());
        out.append(",\"components\":");
        out.append(replacements_to_wire(self.update.components()).as_str());
        out.append(",\"state\":");
        out.append(state_json);
        out.append("}");
        proof {
            assert(out@ =~= spec_layout_update_wire(
                self.spec_update(),
                self.spec_layout(),
                state_json@,
            ));
        }
        out
    }
}

/// Appends the chart field of an envelope, if a chart is present.
fn append_chart_field(out: &mut String, chart: &Option<Chart>)
    ensures
        final(out)@ == old(out)@ + spec_chart_field(*chart),
{
    match chart {
        Some(ch) => {
            out.append("\"chart\":");
            out.append(ch.document().as_str());
            out.append(",");
            proof {
                assert(out@ =~= old(out)@ + spec_chart_field(*chart));
            }
        },
        None => {
            proof {
                assert(out@ =~= old(out)@ + spec_chart_field(*chart));
            }
        },
    }
}

/// Encodes the replacements list for the wire.
fn replacements_to_wire<FB, FS>(list: &Vec<IndexedComponent<FB, FS>>) -> (r: String)
    ensures
        r@ == spec_replacements_wire(list@),
{
    let ghost enc = |ic: IndexedComponent<FB, FS>|
        spec_indexed_component_wire(ic.idx as nat, ic.component);
    let mut out = "[".to_owned();
    let ghost prefix = out@;
    let mut i: usize = 0;
    proof {
        assert(list@.subrange(0, 0).map_values(enc) =~= Seq::<Seq<char>>::empty());
    }
    while i < list.len()
        invariant
            i <= list@.len(),
            prefix == "["@,
            out@ == prefix + spec_join_comma(list@.subrange(0, i as int).map_values(enc)),
            enc == (|ic: IndexedComponent<FB, FS>|
                spec_indexed_component_wire(ic.idx as nat, ic.component)),
        decreases list@.len() - i,
    {
        let ghost done = list@.subrange(0, i as int).map_values(enc);
        if i > 0 {
            out.append(",");
        }
        out.append(list[i].to_wire().as_str());
        proof {
            reveal_strlit(",");
            lemma_join_comma_push(done, enc(list@[i as int]));
            assert(list@.subrange(0, i + 1 as int).map_values(enc) =~= done.push(
                enc(list@[i as int]),
            ));
            assert(out@ =~= prefix + spec_join_comma(
                list@.subrange(0, i + 1 as int).map_values(enc),
            ));
        }
        i = i + 1;
    }
    out.append("]");
    proof {
        assert(list@.subrange(0, list@.len() as int) =~= list@);
        assert(out@ =~= spec_replacements_wire(list@));
    }
    out
}

/// A client's rendering, modelled as a map from handle to the rendered
/// component, after one replacement entry is applied: the entry sets the
/// rendering at its target handle to the replacement value.
pub open spec fn spec_apply_replacement<FB, FS>(
    rendering: Map<int, Seq<char>>,
    r: IndexedComponent<FB, FS>,
) -> Map<int, Seq<char>> {
    rendering.insert(r.idx as int, spec_indexed_component_wire(r.idx as nat, r.component))
}

/// Replacement entries are idempotent set operations keyed by handle:
/// applying the same entry to a client's rendering twice yields exactly the
/// rendering that applying it once yields, whatever the rendering held
/// before.
pub proof fn lemma_replacement_idempotent<FB, FS>(
    rendering: Map<int, Seq<char>>,
    r: IndexedComponent<FB, FS>,
)
    ensures
        spec_apply_replacement(spec_apply_replacement(rendering, r), r) == spec_apply_replacement(
            rendering,
            r,
        ),
{
    assert(spec_apply_replacement(spec_apply_replacement(rendering, r), r)
        =~= spec_apply_replacement(rendering, r));
}

/// The externally supplied capability that decides what changed between two
/// application states: whether the chart is regenerated and which components
/// need replacement values.  It must not mutate the layout; all its output
/// is the returned envelope.
pub trait GenerateUpdate<St, FB, FS> {
    /// Builds the update envelope for a state transition; `prev_state` is
    /// absent exactly on the first request of a session.
    fn update(
        &self,
        layout: &Layout<FB, FS>,
        prev_state: Option<St>,
        state: St,
    ) -> Result<Update<St, FB, FS>, RhubarbError>;
}

} // verus!
