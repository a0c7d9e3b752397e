//! Server-side reactive UI core.
//!
//! The library keeps a tree of display components (structural panels and
//! interactive controls) in an arena addressed by stable integer handles,
//! routes client events to the owning component's handler, and assembles the
//! update payload that tells the client what changed.  The first response of a
//! session additionally carries the whole serialized tree; later responses
//! only carry targeted replacements.
//!
//! Transport, template rendering and data ingestion are collaborators outside
//! of this crate: they hand the core plain values and receive plain values
//! back.

use vstd::prelude::*;

pub mod control;
pub mod error;
pub mod event;
pub mod graph;
pub mod handler;
pub mod layout;
pub mod resource;
pub mod update;
pub mod wire;

verus! {

/// An opaque chart document supplied by the plotting collaborator.
///
/// The core never inspects the chart's contents: the collaborator hands it
/// over already encoded for the wire, and the update envelope splices it in
/// verbatim.  The variant records which kind of chart the document describes.
#[derive(Debug, Clone)]
pub enum Chart {
    Scatter(String),
}

impl Chart {
    /// The encoded document carried by this chart.
    pub closed spec fn spec_document(&self) -> Seq<char> {
        match self {
            Chart::Scatter(doc) => doc@,
        }
    }

    /// Hands back the encoded chart document verbatim.
    pub fn document(&self) -> (r: &String)
        ensures
            r@ == self.spec_document(),
    {
        match self {
            Chart::Scatter(doc) => doc,
        }
    }
}

} // verus!


