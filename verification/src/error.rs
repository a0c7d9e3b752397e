//! The error taxonomy of the engine.

use vstd::prelude::*;

use crate::event::{spec_event_name, Event};
use crate::wire::{dec_rep, usize_to_dec};

verus! {

/// Everything that can go wrong while building a layout, dispatching an
/// event, or exchanging wire payloads.
///
/// Construction-time errors (`InvalidLayout`) abort startup; per-request
/// errors are converted to a failure response at the transport boundary and
/// never crash the serving process.
#[derive(Debug)]
pub enum RhubarbError {
    /// Missing key in the component registry.
    ComponentRegistry(String),
    /// Invalid call adding a component to a layout.
    InvalidLayout(String),
    /// Event kind does not match the target component's accepted kind, or
    /// the target is purely structural.
    InvalidEvent { event: Event, component_type: String },
    /// Target handle outside the arena bounds.
    OutOfRange(usize),
    /// Wire decode or encode failure, wrapped by the transport layer.
    Serialization(String),
}

/// The human-readable report for each error, spelled out.
pub open spec fn spec_error_message(e: RhubarbError) -> Seq<char> {
    match e {
        RhubarbError::ComponentRegistry(name) => "Missing component name in component registry: "@
            + name@,
        RhubarbError::InvalidLayout(msg) => "Invalid layout: "@ + msg@,
        RhubarbError::InvalidEvent { event, component_type } => "Invalid event '"@
            + spec_event_name(event) + "' for component '"@ + component_type@ + "'"@,
        RhubarbError::OutOfRange(idx) => "Component handle out of range: "@ + dec_rep(idx as nat),
        RhubarbError::Serialization(msg) => "Serialization error: "@ + msg@,
    }
}

impl RhubarbError {
    /// Renders the error for logs and failure responses.
    pub fn message(&self) -> (r: String)
        ensures
            r@ == spec_error_message(*self),
    {
        match self {
            RhubarbError::ComponentRegistry(name) => {
                let mut s = "Missing component name in component registry: ".to_owned();
                s.append(name.as_str());
                s
            },
            RhubarbError::InvalidLayout(msg) => {
                let mut s = "Invalid layout: ".to_owned();
                s.append(msg.as_str());
                s
            },
            RhubarbError::InvalidEvent { event, component_type } => {
                let mut s = "Invalid event '".to_owned();
                s.append(event.name());
                s.append("' for component '");
                s.append(component_type.as_str());
                s.append("'");
                assert(s@ == spec_error_message(*self));
                s
            },
            RhubarbError::OutOfRange(idx) => {
                let mut s = "Component handle out of range: ".to_owned();
                let rendered = usize_to_dec(*idx);
                s.append(rendered.as_str());
                s
            },
            RhubarbError::Serialization(msg) => {
                let mut s = "Serialization error: ".to_owned();
                s.append(msg.as_str());
                s
            },
        }
    }
}

} // verus!
