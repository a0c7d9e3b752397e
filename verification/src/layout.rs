//! The component tree: an arena of components addressed by stable integer
//! handles, a name registry, and the list of roots.

use vstd::prelude::*;

use crate::control::button::ButtonClick;
use crate::control::slider::SliderChange;
use crate::control::{
    control_dispatch_ensures, control_dispatch_requires, spec_control_wire, Control,
};
use crate::error::RhubarbError;
use crate::event::{Event, EventMessage};
use crate::wire::{
    dec_array, dec_rep, dec_val, lemma_dec_round_trip, lemma_join_comma_push, spec_dec_array,
    spec_join_comma, usize_to_dec,
};

verus! {

/// A stable handle into the component arena: assigned as the arena length at
/// insertion time, never reused, valid for lookups below the arena length.
pub type ComponentIndex = usize;

/// A purely structural container holding the handles of its children, in
/// order.  Panels never accept events.
#[derive(Debug, Clone)]
pub struct Panel {
    children: Vec<ComponentIndex>,
}

impl Panel {
    /// The handles of the panel's children, in order.
    pub closed spec fn spec_children(&self) -> Seq<ComponentIndex> {
        self.children@
    }

    /// A new panel with no children.
    pub fn new() -> (r: Panel)
        ensures
            r.spec_children() == Seq::<ComponentIndex>::empty(),
    {
        Panel { children: vec![] }
    }

    /// Appends a child handle to the panel.
    pub fn add_child(&mut self, component_idx: ComponentIndex)
        ensures
            final(self).spec_children() == old(self).spec_children().push(component_idx),
    {
        self.children.push(component_idx);
    }

    /// Hands back the handles of the children.
    pub fn children(&self) -> (r: &Vec<ComponentIndex>)
        ensures
            r@ == self.spec_children(),
    {
        &self.children
    }

    /// Encodes the panel for the wire: the handles of its children.
    pub fn to_wire(&self) -> (r: String)
        ensures
            r@ == spec_panel_wire(*self),
    {
        let mut out = "{\"children\":".to_owned();
        out.append(dec_array(&self.children).as_str());
        out.append("}");
        proof {
            assert(out@ =~= spec_panel_wire(*self));
        }
        out
    }

    /// Panels are purely structural: every event addressed at one is
    /// rejected.
    pub fn handle_event<St>(&self, event: Event, _state: St) -> (r: Result<St, RhubarbError>)
        ensures
            r matches Err(RhubarbError::InvalidEvent { event: e, component_type: t }) && e == event
                && t@ == "panel"@,
    {
        Err(RhubarbError::InvalidEvent { event, component_type: "panel".to_owned() })
    }
}

/// How a panel appears on the wire: the handles of its children.
pub open spec fn spec_panel_wire(p: Panel) -> Seq<char> {
    "{\"children\":"@ + spec_dec_array(p.spec_children()) + "}"@
}

/// A node of the tree: either an interactive control or a structural panel.
#[derive(Debug, Clone)]
pub enum Component<FB, FS> {
    Control(Control<FB, FS>),
    Panel(Panel),
}

/// What a caller must guarantee before an event is dispatched at a
/// component: nothing for a panel, the control's own obligation otherwise.
pub open spec fn component_dispatch_requires<St, FB, FS>(
    component: Component<FB, FS>,
    event: Event,
    state: St,
) -> bool where
    FB: Fn(ButtonClick, St) -> Result<St, RhubarbError>,
    FS: Fn(SliderChange, St) -> Result<St, RhubarbError>,
 {
    match component {
        Component::Control(ctrl) => control_dispatch_requires(ctrl, event, state),
        Component::Panel(_) => true,
    }
}

/// What dispatching an event at a component returns: a control decides as
/// its kind prescribes; a panel rejects every event.
pub open spec fn component_dispatch_ensures<St, FB, FS>(
    component: Component<FB, FS>,
    event: Event,
    state: St,
    r: Result<St, RhubarbError>,
) -> bool where
    FB: Fn(ButtonClick, St) -> Result<St, RhubarbError>,
    FS: Fn(SliderChange, St) -> Result<St, RhubarbError>,
 {
    match component {
        Component::Control(ctrl) => control_dispatch_ensures(ctrl, event, state, r),
        Component::Panel(_) => {
            &&& r matches Err(RhubarbError::InvalidEvent { event: e, component_type: t })
            &&& e == event
            &&& t@ == "panel"@
        },
    }
}

/// How a component appears on the wire: tagged with its own handle and its
/// variant, so the client can build a handle-to-rendering map directly.
pub open spec fn spec_indexed_component_wire<FB, FS>(idx: nat, c: Component<FB, FS>) -> Seq<
    char,
> {
    "{\"idx\":"@ + dec_rep(idx) + (match c {
        Component::Control(ctrl) => ",\"control\":"@ + spec_control_wire(ctrl),
        Component::Panel(p) => ",\"panel\":"@ + spec_panel_wire(p),
    }) + "}"@
}

impl<FB, FS> Component<FB, FS> {
    /// Encodes the component for the wire, tagged with the handle `idx`.
    pub fn to_wire_indexed(&self, idx: ComponentIndex) -> (r: String)
        ensures
            r@ == spec_indexed_component_wire(idx as nat, *self),
    {
        let mut out = "{\"idx\":".to_owned();
        out.append(usize_to_dec(idx).as_str());
        match self {
            Component::Control(ctrl) => {
                out.append(",\"control\":");
                out.append(ctrl.to_wire().as_str());
            },
            Component::Panel(panel) => {
                out.append(",\"panel\":");
                out.append(panel.to_wire().as_str());
            },
        }
        out.append("}");
        proof {
            assert(out@ =~= spec_indexed_component_wire(idx as nat, *self));
        }
        out
    }

    /// Delegates the event to a control; rejects it at a panel.
    pub fn handle_event<St>(&self, event: Event, state: St) -> (r: Result<St, RhubarbError>) where
        FB: Fn(ButtonClick, St) -> Result<St, RhubarbError>,
        FS: Fn(SliderChange, St) -> Result<St, RhubarbError>,

        requires
            component_dispatch_requires(*self, event, state),
        ensures
            component_dispatch_ensures(*self, event, state, r),
    {
        match self {
            Component::Control(ctrl) => ctrl.handle_event(event, state),
            Component::Panel(panel) => panel.handle_event(event, state),
        }
    }
}

/// A component paired with its handle, as replacements carry it on the wire.
#[derive(Debug, Clone)]
pub struct IndexedComponent<FB, FS> {
    pub idx: ComponentIndex,
    pub component: Component<FB, FS>,
}

impl<FB, FS> IndexedComponent<FB, FS> {
    /// Encodes the pair for the wire, the component tagged with its handle.
    pub fn to_wire(&self) -> (r: String)
        ensures
            r@ == spec_indexed_component_wire(self.idx as nat, self.component),
    {
        self.component.to_wire_indexed(self.idx)
    }
}

/// Every child handle a panel holds lies below the arena length `n`;
/// controls hold no handles.
pub open spec fn component_in_bounds<FB, FS>(c: Component<FB, FS>, n: int) -> bool {
    match c {
        Component::Panel(p) => forall|j: int|
            0 <= j < p.spec_children().len() ==> (#[trigger] p.spec_children()[j]) < n,
        Component::Control(_) => true,
    }
}

/// First-match lookup over the registry entries, oldest first: the first
/// registration of a name wins.
pub open spec fn spec_registry_lookup(
    reg: Seq<(String, ComponentIndex)>,
    name: Seq<char>,
) -> Option<ComponentIndex>
    decreases reg.len(),
{
    if reg.len() == 0 {
        None
    } else if reg[0].0@ == name {
        Some(reg[0].1)
    } else {
        spec_registry_lookup(reg.drop_first(), name)
    }
}

/// Appending a fresh entry changes the lookup only for names not yet
/// registered: the first registration of a name wins.
pub proof fn lemma_registry_lookup_push(
    reg: Seq<(String, ComponentIndex)>,
    e: (String, ComponentIndex),
    name: Seq<char>,
)
    ensures
        spec_registry_lookup(reg.push(e), name) == (if spec_registry_lookup(reg, name) is Some {
            spec_registry_lookup(reg, name)
        } else if e.0@ == name {
            Some(e.1)
        } else {
            None::<ComponentIndex>
        }),
    decreases reg.len(),
{
    if reg.len() == 0 {
        assert(reg.push(e).len() == 1);
        assert(reg.push(e)[0] == e);
        assert(reg.push(e).drop_first() =~= Seq::<(String, ComponentIndex)>::empty());
        assert(spec_registry_lookup(reg.push(e), name) == (if reg.push(e)[0].0@ == name {
            Some(reg.push(e)[0].1)
        } else {
            spec_registry_lookup(reg.push(e).drop_first(), name)
        }));
        assert(spec_registry_lookup(Seq::<(String, ComponentIndex)>::empty(), name) is None);
        assert(spec_registry_lookup(reg, name) is None);
    } else {
        lemma_registry_lookup_push(reg.drop_first(), e, name);
        assert(reg.push(e)[0] == reg[0]);
        assert(reg.push(e).drop_first() =~= reg.drop_first().push(e));
        assert(spec_registry_lookup(reg.push(e), name) == (if reg.push(e)[0].0@ == name {
            Some(reg.push(e)[0].1)
        } else {
            spec_registry_lookup(reg.push(e).drop_first(), name)
        }));
        assert(spec_registry_lookup(reg, name) == (if reg[0].0@ == name {
            Some(reg[0].1)
        } else {
            spec_registry_lookup(reg.drop_first(), name)
        }));
    }
}

/// The message reported when a component cannot be attached at the given
/// parent handle.
pub open spec fn spec_invalid_parent_msg(name: Seq<char>, parent: nat) -> Seq<char> {
    "unable to add component "@ + name + " to non-panel with index "@ + dec_rep(parent)
}

/// What a caller must guarantee before a message is dispatched through a
/// layout: the obligation of the addressed component, if the handle is in
/// bounds at all.
pub open spec fn layout_dispatch_requires<St, FB, FS>(
    components: Seq<Component<FB, FS>>,
    msg: EventMessage,
    state: St,
) -> bool where
    FB: Fn(ButtonClick, St) -> Result<St, RhubarbError>,
    FS: Fn(SliderChange, St) -> Result<St, RhubarbError>,
 {
    msg.idx < components.len() ==> component_dispatch_requires(
        components[msg.idx as int],
        msg.event,
        state,
    )
}

/// What dispatching a message through a layout returns: a typed out-of-range
/// error for a handle beyond the arena, and the addressed component's own
/// outcome otherwise.
pub open spec fn layout_dispatch_ensures<St, FB, FS>(
    components: Seq<Component<FB, FS>>,
    msg: EventMessage,
    state: St,
    r: Result<St, RhubarbError>,
) -> bool where
    FB: Fn(ButtonClick, St) -> Result<St, RhubarbError>,
    FS: Fn(SliderChange, St) -> Result<St, RhubarbError>,
 {
    if msg.idx < components.len() {
        component_dispatch_ensures(components[msg.idx as int], msg.event, state, r)
    } else {
        r == Err::<St, RhubarbError>(RhubarbError::OutOfRange(msg.idx))
    }
}

/// How the component arena appears on the wire: every component in handle
/// order, each tagged with its own handle.
pub open spec fn spec_component_store_wire<FB, FS>(components: Seq<Component<FB, FS>>) -> Seq<
    char,
> {
    "["@ + spec_join_comma(
        components.map(|i: int, c: Component<FB, FS>| spec_indexed_component_wire(i as nat, c)),
    ) + "]"@
}

/// How a whole layout appears on the wire: the tagged arena and the root
/// handles.
pub open spec fn spec_layout_wire<FB, FS>(l: Layout<FB, FS>) -> Seq<char> {
    "{\"component_store\":"@ + spec_component_store_wire(l.spec_components()) + ",\"children\":"@
        + spec_dec_array(l.spec_roots()) + "}"@
}

/// The frozen component tree: an arena of components, the name registry, and
/// the list of root handles.
///
/// Built once, single-threaded, before serving begins; shared read-only
/// afterwards.
#[derive(Debug)]
pub struct Layout<FB, FS> {
    component_store: Vec<Component<FB, FS>>,
    registry: Vec<(String, ComponentIndex)>,
    children: Vec<ComponentIndex>,
}

impl<FB, FS> Layout<FB, FS> {
    /// The arena, in handle order.
    pub closed spec fn spec_components(&self) -> Seq<Component<FB, FS>> {
        self.component_store@
    }

    /// The registry entries, oldest first.
    pub closed spec fn spec_registry(&self) -> Seq<(String, ComponentIndex)> {
        self.registry@
    }

    /// The root handles, in registration order.
    pub closed spec fn spec_roots(&self) -> Seq<ComponentIndex> {
        self.children@
    }

    /// Every handle stored anywhere in the layout stays within the arena
    /// bounds.
    pub open spec fn wf(&self) -> bool {
        &&& forall|k: int|
            0 <= k < self.spec_components().len() ==> component_in_bounds(
                #[trigger] self.spec_components()[k],
                self.spec_components().len() as int,
            )
        &&& forall|j: int|
            0 <= j < self.spec_registry().len() ==> (#[trigger] self.spec_registry()[j]).1
                < self.spec_components().len()
        &&& forall|j: int|
            0 <= j < self.spec_roots().len() ==> (#[trigger] self.spec_roots()[j])
                < self.spec_components().len()
    }

    /// A new, empty layout.
    pub fn new() -> (r: Layout<FB, FS>)
        ensures
            r.spec_components() == Seq::<Component<FB, FS>>::empty(),
            r.spec_registry() == Seq::<(String, ComponentIndex)>::empty(),
            r.spec_roots() == Seq::<ComponentIndex>::empty(),
            r.wf(),
    {
        Layout { component_store: Vec::new(), registry: Vec::new(), children: Vec::new() }
    }

    /// Hands back the root handles: panels attached to no parent.
    pub fn roots(&self) -> (r: &Vec<ComponentIndex>)
        ensures
            r@ == self.spec_roots(),
    {
        &self.children
    }

    /// Registry lookup by name: the handle the first registration of `name`
    /// recorded, if any.
    pub fn get_component_index(&self, name: &str) -> (r: Option<ComponentIndex>)
        ensures
            r == spec_registry_lookup(self.spec_registry(), name@),
    {
        let key: String = name.to_owned();
        let ghost reg = self.spec_registry();
        proof {
            assert(reg.skip(0) =~= reg);
        }
        let mut i: usize = 0;
        while i < self.registry.len()
            invariant
                i <= reg.len(),
                reg == self.spec_registry(),
                key@ == name@,
                spec_registry_lookup(reg, name@) == spec_registry_lookup(
                    reg.skip(i as int),
                    name@,
                ),
            decreases reg.len() - i,
        {
            proof {
                assert(reg.skip(i as int)[0] == reg[i as int]);
            }
            let entry = &self.registry[i];
            if entry.0 == key {
                return Some(entry.1);
            }
            proof {
                assert(reg.skip(i as int).drop_first() =~= reg.skip(i + 1 as int));
            }
            i = i + 1;
        }
        proof {
            assert(reg.skip(reg.len() as int) =~= Seq::<(String, ComponentIndex)>::empty());
        }
        None
    }

    /// Records `name` for the freshly assigned handle unless the name is
    /// already taken: the first registration of a name wins and later
    /// duplicates are deliberately ignored.
    fn register_name(&mut self, name: &str, idx: ComponentIndex)
        ensures
            final(self).spec_components() == old(self).spec_components(),
            final(self).spec_roots() == old(self).spec_roots(),
            forall|n: Seq<char>|
                #[trigger] spec_registry_lookup(final(self).spec_registry(), n) == (
                if spec_registry_lookup(old(self).spec_registry(), n) is Some {
                    spec_registry_lookup(old(self).spec_registry(), n)
                } else if n == name@ {
                    Some(idx)
                } else {
                    None::<ComponentIndex>
                }),
            final(self).spec_registry() == old(self).spec_registry() || {
                &&& final(self).spec_registry().len() == old(self).spec_registry().len() + 1
                &&& final(self).spec_registry().drop_last() == old(self).spec_registry()
                &&& final(self).spec_registry().last().1 == idx
                &&& final(self).spec_registry().last().0@ == name@
            },
    {
        let ghost old_reg = self.spec_registry();
        let existing = self.get_component_index(name);
        match existing {
            Some(_) => {
                proof {
                    assert(forall|j: int|
                        0 <= j < self.spec_registry().len() ==> old_reg[j]
                            == #[trigger] self.spec_registry()[j]);
                }
            },
            None => {
                self.registry.push((name.to_owned(), idx));
                proof {
                    let pushed = self.spec_registry().last();
                    assert(self.spec_registry() =~= old_reg.push(pushed));
                    assert(self.spec_registry().drop_last() =~= old_reg);
                    assert forall|n: Seq<char>|
                        #[trigger] spec_registry_lookup(self.spec_registry(), n) == (
                        if spec_registry_lookup(old_reg, n) is Some {
                            spec_registry_lookup(old_reg, n)
                        } else if n == name@ {
                            Some(idx)
                        } else {
                            None::<ComponentIndex>
                        }) by {
                        lemma_registry_lookup_push(old_reg, pushed, n);
                    }
                }
            },
        }
    }

    /// Inserts a new empty panel, registers its name, and either attaches it
    /// to the given parent panel or records it as a root.  The new handle is
    /// the arena length at insertion time; on an invalid parent nothing
    /// changes at all.
    pub fn add_panel(&mut self, name: &str, parent: Option<ComponentIndex>) -> (r: Result<
        ComponentIndex,
        RhubarbError,
    >)
        ensures
            add_panel_ensures(*old(self), *final(self), name@, parent, r),
            old(self).wf() ==> final(self).wf(),
    {
        let new_idx = self.component_store.len();
        match parent {
            Some(parent_idx) => {
                if parent_idx >= self.component_store.len() {
                    return Err(self.invalid_parent_error(name, parent_idx));
                }
                let is_panel = matches!(&self.component_store[parent_idx], Component::Panel(_));
                if !is_panel {
                    return Err(self.invalid_parent_error(name, parent_idx));
                }
                match &mut self.component_store[parent_idx] {
                    Component::Panel(panel) => {
                        panel.add_child(new_idx);
                    },
                    Component::Control(_) => {},
                }
                self.component_store.push(Component::Panel(Panel::new()));
                self.register_name(name, new_idx);
            },
            None => {
                self.component_store.push(Component::Panel(Panel::new()));
                self.children.push(new_idx);
                self.register_name(name, new_idx);
            },
        }
        proof {
            if old(self).wf() {
                lemma_wf_after_insert(*old(self), *self, parent, new_idx);
            }
        }
        Ok(new_idx)
    }

    /// Inserts the given control, registers its name, and attaches it to the
    /// given parent panel.  The new handle is the arena length at insertion
    /// time; on an invalid parent nothing changes at all.
    pub fn add_control_to_panel(
        &mut self,
        name: &str,
        control: Control<FB, FS>,
        panel_idx: ComponentIndex,
    ) -> (r: Result<ComponentIndex, RhubarbError>)
        ensures
            add_control_ensures(*old(self), *final(self), name@, control, panel_idx, r),
            old(self).wf() ==> final(self).wf(),
    {
        let new_idx = self.component_store.len();
        if panel_idx >= self.component_store.len() {
            return Err(self.invalid_parent_error(name, panel_idx));
        }
        let is_panel = matches!(&self.component_store[panel_idx], Component::Panel(_));
        if !is_panel {
            return Err(self.invalid_parent_error(name, panel_idx));
        }
        match &mut self.component_store[panel_idx] {
            Component::Panel(panel) => {
                panel.add_child(new_idx);
            },
            Component::Control(_) => {},
        }
        self.component_store.push(Component::Control(control));
        self.register_name(name, new_idx);
        proof {
            if old(self).wf() {
                lemma_wf_after_insert(*old(self), *self, Some(panel_idx), new_idx);
            }
        }
        Ok(new_idx)
    }

    /// How many components the arena holds; handles are dense over this
    /// range.
    pub fn len(&self) -> (r: usize)
        ensures
            r == self.spec_components().len(),
    {
        self.component_store.len()
    }

    /// The component at a handle, if the handle is within the arena bounds.
    pub fn get(&self, idx: ComponentIndex) -> (r: Option<&Component<FB, FS>>)
        ensures
            idx < self.spec_components().len() ==> (r matches Some(c) && *c
                == self.spec_components()[idx as int]),
            idx >= self.spec_components().len() ==> r is None,
    {
        if idx < self.component_store.len() {
            Some(&self.component_store[idx])
        } else {
            None
        }
    }

    /// Resolves the message's target handle directly in the arena, bypassing
    /// the registry, and delegates the event to the addressed component; a
    /// handle beyond the arena is rejected with a typed error, never read.
    pub fn handle_event<St>(&self, event_message: EventMessage, state: St) -> (r: Result<
        St,
        RhubarbError,
    >) where
        FB: Fn(ButtonClick, St) -> Result<St, RhubarbError>,
        FS: Fn(SliderChange, St) -> Result<St, RhubarbError>,

        requires
            layout_dispatch_requires(self.spec_components(), event_message, state),
        ensures
            layout_dispatch_ensures(self.spec_components(), event_message, state, r),
    {
        if event_message.idx >= self.component_store.len() {
            return Err(RhubarbError::OutOfRange(event_message.idx));
        }
        self.component_store[event_message.idx].handle_event(event_message.event, state)
    }

    /// Encodes the whole tree for the wire: every component tagged with its
    /// own handle, in handle order, followed by the root handles.
    pub fn to_wire(&self) -> (r: String)
        ensures
            r@ == spec_layout_wire(*self),
    {
        let ghost comps = self.spec_components();
        let ghost enc = |i: int, c: Component<FB, FS>| spec_indexed_component_wire(i as nat, c);
        let mut out = "{\"component_store\":".to_owned();
        out.append("[");
        let ghost prefix = out@;
        let mut i: usize = 0;
        proof {
            assert(comps.subrange(0, 0).map(enc) =~= Seq::<Seq<char>>::empty());
        }
        while i < self.component_store.len()
            invariant
                i <= comps.len(),
                comps == self.spec_components(),
                out@ == prefix + spec_join_comma(comps.subrange(0, i as int).map(enc)),
                enc == (|i: int, c: Component<FB, FS>| spec_indexed_component_wire(i as nat, c)),
            decreases comps.len() - i,
        {
            let ghost done = comps.subrange(0, i as int).map(enc);
            if i > 0 {
                out.append(",");
            }
            out.append(self.component_store[i].to_wire_indexed(i).as_str());
            proof {
                reveal_strlit(",");
                lemma_join_comma_push(done, spec_indexed_component_wire(i as nat, comps[i as int]));
                assert(comps.subrange(0, i + 1 as int).map(enc) =~= done.push(
                    spec_indexed_component_wire(i as nat, comps[i as int]),
                ));
                assert(out@ =~= prefix + spec_join_comma(comps.subrange(0, i + 1 as int).map(enc)));
            }
            i = i + 1;
        }
        out.append("]");
        out.append(",\"children\":");
        out.append(dec_array(&self.children).as_str());
        out.append("}");
        proof {
            assert(comps.subrange(0, comps.len() as int) =~= comps);
            assert(out@ =~= spec_layout_wire(*self));
        }
        out
    }

    /// Builds the error for an attachment at an invalid parent handle.
    fn invalid_parent_error(&self, name: &str, parent_idx: ComponentIndex) -> (r: RhubarbError)
        ensures
            r matches RhubarbError::InvalidLayout(m) && m@ == spec_invalid_parent_msg(
                name@,
                parent_idx as nat,
            ),
    {
        let mut m = "unable to add component ".to_owned();
        m.append(name);
        m.append(" to non-panel with index ");
        m.append(usize_to_dec(parent_idx).as_str());
        RhubarbError::InvalidLayout(m)
    }
}

impl<FB, FS> Default for Layout<FB, FS> {
    /// The empty layout.
    fn default() -> (r: Layout<FB, FS>)
        ensures
            r.spec_components() == Seq::<Component<FB, FS>>::empty(),
            r.spec_registry() == Seq::<(String, ComponentIndex)>::empty(),
            r.spec_roots() == Seq::<ComponentIndex>::empty(),
            r.wf(),
    {
        Layout::new()
    }
}

/// What `add_panel` promises, spelled out over the old and new layout.
pub open spec fn add_panel_ensures<FB, FS>(
    pre: Layout<FB, FS>,
    post: Layout<FB, FS>,
    name: Seq<char>,
    parent: Option<ComponentIndex>,
    r: Result<ComponentIndex, RhubarbError>,
) -> bool {
    match r {
        Ok(idx) => {
            &&& idx == pre.spec_components().len()
            &&& post.spec_components().len() == pre.spec_components().len() + 1
            &&& post.spec_components().last() matches Component::Panel(q) && q.spec_children()
                == Seq::<ComponentIndex>::empty()
            &&& registry_extended_ensures(pre, post, name, idx)
            &&& match parent {
                None => {
                    &&& forall|k: int|
                        0 <= k < pre.spec_components().len()
                            ==> #[trigger] post.spec_components()[k] == pre.spec_components()[k]
                    &&& post.spec_roots() == pre.spec_roots().push(idx)
                },
                Some(p) => {
                    &&& p < pre.spec_components().len()
                    &&& pre.spec_components()[p as int] is Panel
                    &&& forall|k: int|
                        0 <= k < pre.spec_components().len() && k != p
                            ==> #[trigger] post.spec_components()[k] == pre.spec_components()[k]
                    &&& pre.spec_components()[p as int] matches Component::Panel(q0)
                        && post.spec_components()[p as int] matches Component::Panel(q1)
                        && q1.spec_children() == q0.spec_children().push(idx)
                    &&& post.spec_roots() == pre.spec_roots()
                },
            }
        },
        Err(e) => {
            &&& post == pre
            &&& e matches RhubarbError::InvalidLayout(m) && parent matches Some(p) && m@
                == spec_invalid_parent_msg(name, p as nat)
            &&& parent matches Some(p) && (p >= pre.spec_components().len() || !(
            pre.spec_components()[p as int] is Panel))
        },
    }
}

/// What `add_control_to_panel` promises, spelled out over the old and new
/// layout.
pub open spec fn add_control_ensures<FB, FS>(
    pre: Layout<FB, FS>,
    post: Layout<FB, FS>,
    name: Seq<char>,
    control: Control<FB, FS>,
    panel_idx: ComponentIndex,
    r: Result<ComponentIndex, RhubarbError>,
) -> bool {
    match r {
        Ok(idx) => {
            &&& idx == pre.spec_components().len()
            &&& panel_idx < pre.spec_components().len()
            &&& pre.spec_components()[panel_idx as int] is Panel
            &&& post.spec_components().len() == pre.spec_components().len() + 1
            &&& post.spec_components().last() == Component::Control(control)
            &&& forall|k: int|
                0 <= k < pre.spec_components().len() && k != panel_idx
                    ==> #[trigger] post.spec_components()[k] == pre.spec_components()[k]
            &&& pre.spec_components()[panel_idx as int] matches Component::Panel(q0)
                && post.spec_components()[panel_idx as int] matches Component::Panel(q1)
                && q1.spec_children() == q0.spec_children().push(idx)
            &&& post.spec_roots() == pre.spec_roots()
            &&& registry_extended_ensures(pre, post, name, idx)
        },
        Err(e) => {
            &&& post == pre
            &&& e matches RhubarbError::InvalidLayout(m) && m@ == spec_invalid_parent_msg(
                name,
                panel_idx as nat,
            )
            &&& panel_idx >= pre.spec_components().len() || !(
            pre.spec_components()[panel_idx as int] is Panel)
        },
    }
}

/// Inserting one component at the end of the arena, possibly attaching it
/// to an existing panel, registering its name and possibly recording it as
/// a root, keeps the layout well-formed.
proof fn lemma_wf_after_insert<FB, FS>(
    pre: Layout<FB, FS>,
    post: Layout<FB, FS>,
    parent: Option<ComponentIndex>,
    idx: ComponentIndex,
)
    requires
        pre.wf(),
        idx == pre.spec_components().len(),
        post.spec_components().len() == pre.spec_components().len() + 1,
        component_in_bounds(post.spec_components().last(), post.spec_components().len() as int),
        match parent {
            None => forall|k: int|
                0 <= k < pre.spec_components().len() ==> #[trigger] post.spec_components()[k]
                    == pre.spec_components()[k],
            Some(p) => {
                &&& p < pre.spec_components().len()
                &&& forall|k: int|
                    0 <= k < pre.spec_components().len() && k != p
                        ==> #[trigger] post.spec_components()[k] == pre.spec_components()[k]
                &&& pre.spec_components()[p as int] matches Component::Panel(q0)
                    && post.spec_components()[p as int] matches Component::Panel(q1)
                    && q1.spec_children() == q0.spec_children().push(idx)
            },
        },
        post.spec_registry() == pre.spec_registry() || (post.spec_registry().len()
            == pre.spec_registry().len() + 1 && post.spec_registry().drop_last()
            == pre.spec_registry() && post.spec_registry().last().1 == idx),
        post.spec_roots() == pre.spec_roots() || post.spec_roots() == pre.spec_roots().push(idx),
    ensures
        post.wf(),
{
    let pre_len = pre.spec_components().len() as int;
    let post_len = post.spec_components().len() as int;
    assert forall|k: int| 0 <= k < post_len implies component_in_bounds(
        #[trigger] post.spec_components()[k],
        post_len,
    ) by {
        if k < pre_len {
            assert(component_in_bounds(pre.spec_components()[k], pre_len));
            match parent {
                Some(p) => {
                    if k == p as int {
                        assert(component_in_bounds(post.spec_components()[k], post_len));
                    } else {
                        assert(post.spec_components()[k] == pre.spec_components()[k]);
                    }
                },
                None => {
                    assert(post.spec_components()[k] == pre.spec_components()[k]);
                },
            }
        } else {
            assert(post.spec_components()[k] == post.spec_components().last());
        }
    }
    assert forall|j: int| 0 <= j < post.spec_registry().len() implies (
    #[trigger] post.spec_registry()[j]).1 < post_len by {
        if post.spec_registry() == pre.spec_registry() {
            assert(post.spec_registry()[j].1 < pre_len);
        } else {
            if j < post.spec_registry().len() - 1 {
                assert(post.spec_registry().drop_last()[j] == post.spec_registry()[j]);
                assert(post.spec_registry()[j] == pre.spec_registry()[j]);
            } else {
                assert(post.spec_registry()[j] == post.spec_registry().last());
            }
        }
    }
    assert forall|j: int| 0 <= j < post.spec_roots().len() implies (#[trigger] post.spec_roots()[j])
        < post_len by {
        if post.spec_roots() == pre.spec_roots() {
            assert(post.spec_roots()[j] < pre_len);
        } else {
            if j < post.spec_roots().len() - 1 {
                assert(pre.spec_roots().push(idx)[j] == pre.spec_roots()[j]);
            } else {
                assert(pre.spec_roots().push(idx)[j] == idx);
            }
        }
    }
}

/// The round trip from the serialized tree back to dispatch.
///
/// The `k`-th entry of the serialized component store opens with exactly the
/// decimal digits of `k`; reading those digits back recovers `k`; and a
/// message echoing `k` as its target is dispatched exactly as the component
/// stored at `k` prescribes.  So the handles a client learns from the tree
/// it renders are the very handles the server resolves its later events
/// with.
pub proof fn lemma_wire_handle_round_trip<St, FB, FS>(
    l: Layout<FB, FS>,
    k: ComponentIndex,
    event: Event,
) where
    FB: Fn(ButtonClick, St) -> Result<St, RhubarbError>,
    FS: Fn(SliderChange, St) -> Result<St, RhubarbError>,

    requires
        k < l.spec_components().len(),
    ensures
        l.spec_components().map(
            |i: int, c: Component<FB, FS>| spec_indexed_component_wire(i as nat, c),
        )[k as int] == "{\"idx\":"@ + dec_rep(k as nat) + (match l.spec_components()[k as int] {
            Component::Control(ctrl) => ",\"control\":"@ + spec_control_wire(ctrl),
            Component::Panel(p) => ",\"panel\":"@ + spec_panel_wire(p),
        }) + "}"@,
        dec_val(dec_rep(k as nat)) == k,
        forall|state: St, r: Result<St, RhubarbError>|
            #[trigger] layout_dispatch_ensures(
                l.spec_components(),
                EventMessage { idx: k, event },
                state,
                r,
            ) <==> component_dispatch_ensures(l.spec_components()[k as int], event, state, r),
{
    lemma_dec_round_trip(k as nat);
}

/// How an insertion extends the registry: lookups of already registered
/// names are untouched, the inserted name resolves to the new handle if it
/// was free, and nothing else resolves.
pub open spec fn registry_extended_ensures<FB, FS>(
    pre: Layout<FB, FS>,
    post: Layout<FB, FS>,
    name: Seq<char>,
    idx: ComponentIndex,
) -> bool {
    forall|n: Seq<char>|
        #[trigger] spec_registry_lookup(post.spec_registry(), n) == (if spec_registry_lookup(
            pre.spec_registry(),
            n,
        ) is Some {
            spec_registry_lookup(pre.spec_registry(), n)
        } else if n == name {
            Some(idx)
        } else {
            None::<ComponentIndex>
        })
}

} // verus!
