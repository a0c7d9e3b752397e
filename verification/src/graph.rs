//! The float-free primitives of the plotting wire model: axes, display
//! modes, margins and marker symbols.
//!
//! The trace types that carry measured data and opacities live with the
//! plotting collaborator; the engine only ever sees the finished chart as
//! an opaque encoded document.

use vstd::prelude::*;

use crate::wire::{
    dec_rep, json_string, lemma_join_sep_push, spec_join_comma, spec_join_sep, spec_json_string,
    usize_to_dec,
};

verus! {

/// A type that can say how many of its fields would appear on the wire.
pub trait CountExistFields {
    /// How many fields are present, as a specification.
    spec fn spec_existing_fields(&self) -> nat;

    /// Counts the fields that would appear on the wire.
    fn count_existing_fields(&self) -> (n: usize)
        ensures
            n as nat == self.spec_existing_fields(),
    ;
}

/// The scale of an axis.
#[derive(Debug, Clone, Copy, PartialEq, Eq, Structural)]
pub enum AxisKind {
    Linear,
    Log,
}

/// How an axis kind appears on the wire: a quoted scale name.
pub open spec fn spec_axis_kind_wire(k: AxisKind) -> Seq<char> {
    match k {
        AxisKind::Linear => "\"linear\""@,
        AxisKind::Log => "\"log\""@,
    }
}

impl AxisKind {
    /// Encodes the axis kind for the wire.
    pub fn to_wire(&self) -> (r: &'static str)
        ensures
            r@ == spec_axis_kind_wire(*self),
    {
        match *self {
            AxisKind::Linear => "\"linear\"",
            AxisKind::Log => "\"log\"",
        }
    }
}

/// An axis of a chart: an optional title and an optional scale kind.
#[derive(Debug, Clone)]
pub struct Axis {
    title: Option<String>,
    kind: Option<AxisKind>,
}

/// The wire pieces an axis contributes: its title, then its kind under the
/// name `type`, each only when present.
pub open spec fn spec_axis_pieces(a: Axis) -> Seq<Seq<char>> {
    (match a.spec_title() {
        Some(t) => seq!["\"title\":"@ + spec_json_string(t@)],
        None => Seq::<Seq<char>>::empty(),
    }) + (match a.spec_kind() {
        Some(k) => seq!["\"type\":"@ + spec_axis_kind_wire(k)],
        None => Seq::<Seq<char>>::empty(),
    })
}

/// How an axis appears on the wire: only the fields that are present.
pub open spec fn spec_axis_wire(a: Axis) -> Seq<char> {
    "{"@ + spec_join_comma(spec_axis_pieces(a)) + "}"@
}

impl Axis {
    /// The axis title, if one is set.
    pub closed spec fn spec_title(&self) -> Option<String> {
        self.title
    }

    /// The axis scale kind, if one is set.
    pub closed spec fn spec_kind(&self) -> Option<AxisKind> {
        self.kind
    }

    /// The axis with both fields absent.
    pub fn new() -> (r: Axis)
        ensures
            r.spec_title() is None,
            r.spec_kind() is None,
    {
        Axis { title: None, kind: None }
    }

    /// The same axis with its title set.
    pub fn title(self, value: &str) -> (r: Axis)
        ensures
            r.spec_title() matches Some(t) && t@ == value@,
            r.spec_kind() == self.spec_kind(),
    {
        Axis { title: Some(value.to_owned()), kind: self.kind }
    }

    /// The same axis with its scale kind set.
    pub fn kind(self, value: AxisKind) -> (r: Axis)
        ensures
            r.spec_title() == self.spec_title(),
            r.spec_kind() == Some(value),
    {
        Axis { title: self.title, kind: Some(value) }
    }

    /// Sets the title in place.
    pub fn set_title(&mut self, value: &str)
        ensures
            final(self).spec_title() matches Some(t) && t@ == value@,
            final(self).spec_kind() == old(self).spec_kind(),
    {
        self.title = Some(value.to_owned());
    }

    /// Sets the scale kind in place.
    pub fn set_kind(&mut self, value: AxisKind)
        ensures
            final(self).spec_title() == old(self).spec_title(),
            final(self).spec_kind() == Some(value),
    {
        self.kind = Some(value);
    }

    /// Encodes the axis for the wire: only the fields that are present.
    pub fn to_wire(&self) -> (r: String)
        ensures
            r@ == spec_axis_wire(*self),
    {
        let mut out = "{".to_owned();
        match (&self.title, &self.kind) {
            (Some(t), Some(k)) => {
                out.append("\"title\":");
                out.append(json_string(t.as_str()).as_str());
                out.append(",");
                out.append("\"type\":");
                out.append(k.to_wire());
                proof {
                    reveal_strlit(",");
                    let p0 = "\"title\":"@ + spec_json_string(t@);
                    let p1 = "\"type\":"@ + spec_axis_kind_wire(*k);
                    assert(spec_axis_pieces(*self) =~= seq![p0, p1]);
                    assert(seq![p0, p1].drop_first() =~= seq![p1]);
                    assert(spec_join_comma(seq![p0, p1]) == p0 + seq![','] + spec_join_comma(
                        seq![p0, p1].drop_first(),
                    ));
                    assert(spec_join_comma(seq![p1]) == p1);
                }
            },
            (Some(t), None) => {
                out.append("\"title\":");
                out.append(json_string(t.as_str()).as_str());
                proof {
                    let p0 = "\"title\":"@ + spec_json_string(t@);
                    assert(spec_axis_pieces(*self) =~= seq![p0]);
                    assert(spec_join_comma(seq![p0]) == p0);
                }
            },
            (None, Some(k)) => {
                out.append("\"type\":");
                out.append(k.to_wire());
                proof {
                    let p1 = "\"type\":"@ + spec_axis_kind_wire(*k);
                    assert(spec_axis_pieces(*self) =~= seq![p1]);
                    assert(spec_join_comma(seq![p1]) == p1);
                }
            },
            (None, None) => {
                proof {
                    assert(spec_axis_pieces(*self) =~= Seq::<Seq<char>>::empty());
                }
            },
        }
        out.append("}");
        proof {
            assert(out@ =~= spec_axis_wire(*self));
        }
        out
    }
}

impl CountExistFields for Axis {
    open spec fn spec_existing_fields(&self) -> nat {
        (if self.spec_title() is Some {
            1nat
        } else {
            0nat
        }) + (if self.spec_kind() is Some {
            1nat
        } else {
            0nat
        })
    }

    fn count_existing_fields(&self) -> (n: usize) {
        let mut count: usize = 0;
        if self.title.is_some() {
            count = count + 1;
        }
        if self.kind.is_some() {
            count = count + 1;
        }
        count
    }
}

/// One way of displaying a trace.
#[derive(Debug, Clone, Copy, PartialEq, Eq, Structural)]
pub enum Mode {
    Lines,
    Markers,
    Text,
}

/// The name of a display mode.
pub open spec fn spec_mode_str(m: Mode) -> Seq<char> {
    match m {
        Mode::Lines => "lines"@,
        Mode::Markers => "markers"@,
        Mode::Text => "text"@,
    }
}

impl Mode {
    /// The mode's name.
    pub fn as_string(&self) -> (r: String)
        ensures
            r@ == spec_mode_str(*self),
    {
        match *self {
            Mode::Lines => "lines".to_owned(),
            Mode::Markers => "markers".to_owned(),
            Mode::Text => "text".to_owned(),
        }
    }
}

/// A combination of display modes, shown joined by `+`.
#[derive(Debug, Clone)]
pub struct Modes(Vec<Mode>);

/// How a combination of modes is written: the mode names joined by `+`.
pub open spec fn spec_modes_string(ms: Seq<Mode>) -> Seq<char> {
    spec_join_sep(ms.map_values(|m: Mode| spec_mode_str(m)), '+')
}

impl Modes {
    /// The modes, in order.
    pub closed spec fn spec_modes(&self) -> Seq<Mode> {
        self.0@
    }

    /// A combination of the given modes.
    pub fn new(modes: Vec<Mode>) -> (r: Modes)
        ensures
            r.spec_modes() == modes@,
    {
        Modes(modes)
    }

    /// Writes the combination out, the mode names joined by `+`.
    pub fn as_string(&self) -> (r: String)
        ensures
            r@ == spec_modes_string(self.spec_modes()),
    {
        let ghost ms = self.spec_modes();
        let mut out = String::new();
        let mut i: usize = 0;
        proof {
            assert(ms.subrange(0, 0).map_values(|m: Mode| spec_mode_str(m)) =~= Seq::<
                Seq<char>,
            >::empty());
        }
        while i < self.0.len()
            invariant
                i <= ms.len(),
                ms == self.spec_modes(),
                out@ == spec_join_sep(
                    ms.subrange(0, i as int).map_values(|m: Mode| spec_mode_str(m)),
                    '+',
                ),
            decreases ms.len() - i,
        {
            let ghost done = ms.subrange(0, i as int).map_values(|m: Mode| spec_mode_str(m));
            if i > 0 {
                out.append("+");
            }
            out.append(self.0[i].as_string().as_str());
            proof {
                reveal_strlit("+");
                lemma_join_sep_push(done, '+', spec_mode_str(ms[i as int]));
                assert(ms.subrange(0, i + 1 as int).map_values(|m: Mode| spec_mode_str(m))
                    =~= done.push(spec_mode_str(ms[i as int])));
                assert(out@ =~= spec_join_sep(
                    ms.subrange(0, i + 1 as int).map_values(|m: Mode| spec_mode_str(m)),
                    '+',
                ));
            }
            i = i + 1;
        }
        proof {
            assert(ms.subrange(0, ms.len() as int) =~= ms);
        }
        out
    }
}

/// The margins around a chart, in display units.
#[derive(Debug, Clone, Copy, PartialEq, Eq, Structural)]
pub struct Margin {
    pub l: usize,
    pub r: usize,
    pub t: usize,
    pub b: usize,
}

/// How a margin appears on the wire: all four sides, left, right, top,
/// bottom.
pub open spec fn spec_margin_wire(m: Margin) -> Seq<char> {
    "{\"l\":"@ + dec_rep(m.l as nat) + ",\"r\":"@ + dec_rep(m.r as nat) + ",\"t\":"@ + dec_rep(
        m.t as nat,
    ) + ",\"b\":"@ + dec_rep(m.b as nat) + "}"@
}

impl Margin {
    /// A margin with each side given separately.
    pub fn new(l: usize, r: usize, t: usize, b: usize) -> (res: Margin)
        ensures
            res == (Margin { l, r, t, b }),
    {
        Margin { l, r, t, b }
    }

    /// A margin from one horizontal and one vertical size.
    pub fn from_hv(horiz: usize, vert: usize) -> (res: Margin)
        ensures
            res == (Margin { l: horiz, r: horiz, t: vert, b: vert }),
    {
        Margin { l: horiz, r: horiz, t: vert, b: vert }
    }

    /// Encodes the margin for the wire.
    pub fn to_wire(&self) -> (res: String)
        ensures
            res@ == spec_margin_wire(*self),
    {
        let mut out = "{\"l\":".to_owned();
        out.append(usize_to_dec(self.l).as_str());
        out.append(",\"r\":");
        out.append(usize_to_dec(self.r).as_str());
        out.append(",\"t\":");
        out.append(usize_to_dec(self.t).as_str());
        out.append(",\"b\":");
        out.append(usize_to_dec(self.b).as_str());
        out.append("}");
        proof {
            assert(out@ =~= spec_margin_wire(*self));
        }
        out
    }
}

/// The shape of a trace marker.
#[derive(Debug, Clone, Copy, PartialEq, Eq, Structural)]
pub enum Symbol {
    Circle,
    CircleOpen,
    Square,
    SquareOpen,
    X,
    XOpen,
}

/// How a marker symbol appears on the wire: a quoted shape name.
pub open spec fn spec_symbol_wire(s: Symbol) -> Seq<char> {
    match s {
        Symbol::Circle => "\"circle\""@,
        Symbol::CircleOpen => "\"circle-open\""@,
        Symbol::Square => "\"square\""@,
        Symbol::SquareOpen => "\"square-open\""@,
        Symbol::X => "\"x\""@,
        Symbol::XOpen => "\"x-open\""@,
    }
}

impl Symbol {
    /// Encodes the symbol for the wire.
    pub fn to_wire(&self) -> (r: &'static str)
        ensures
            r@ == spec_symbol_wire(*self),
    {
        match *self {
            Symbol::Circle => "\"circle\"",
            Symbol::CircleOpen => "\"circle-open\"",
            Symbol::Square => "\"square\"",
            Symbol::SquareOpen => "\"square-open\"",
            Symbol::X => "\"x\"",
            Symbol::XOpen => "\"x-open\"",
        }
    }
}

} // verus!
