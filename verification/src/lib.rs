//! A miniature style-and-layout compiler: it takes a parsed markup document
//! and a sequence of resolved stylesheets, computes one final style per node
//! (defaults, inheritance, then rule overrides in registration order),
//! builds a styled box tree with whitespace-only text pruned, and segments
//! inline content into styled text runs, emitting a renderer-ready tree of
//! scene primitives.
//!
//! The external collaborators — the markup parser, the stylesheet parser
//! and the selector matcher — hand their results in as plain values: a
//! [`document::DocNode`] tree and, per author rule, a [`registry::StyleRule`]
//! with the node identities its selector matched. Everything from there to
//! the emitted [`emit::Primitive`] tree is computed, and specified, here.

use vstd::prelude::*;

pub mod boxtree;
pub mod defaults;
pub mod document;
pub mod emit;
pub mod laws;
pub mod registry;
pub mod style;
pub mod text;

use crate::boxtree::{build, spec_build};
use crate::document::DocNode;
use crate::emit::{emit, prim_views, spec_emit, Primitive};
use crate::registry::Registry;
use crate::style::spec_system_default;

verus! {

/// Run the whole pipeline below the registry: build the styled box tree
/// for the document, then emit its scene primitives. The registry should
/// hold the default stylesheet first (`Registry::for_document`) and any
/// author stylesheets after it, in document order.
pub fn compile(doc: &DocNode, reg: &Registry) -> (r: Vec<Primitive>)
    ensures
        prim_views(r@) == spec_emit(spec_build(*doc, reg.entries@, spec_system_default())),
{
    let tree = build(doc, reg);
    emit(&tree)
}

} // verus!
