//! Pipeline construction on the host: node kinds with their settings, the
//! common interface of a node, and a builder that collects nodes and links.


pub mod builder;
pub mod node;
pub mod nodes;

use vstd::prelude::*;
use crate::error::DaiResult;

verus! {

/// What every host-side pipeline node offers: its identifier and kind, a step
/// that validates its settings and creates its native counterpart, and the
/// streams bound to its input and output ports.
pub trait PipelineNode {
    /// Identifier of the node within its pipeline.
    fn id(&self) -> String;

    /// Name of the node's kind.
    fn node_type(&self) -> String;

    /// Validates the settings and creates the native node.
    fn configure(&mut self) -> DaiResult<()>;

    /// Streams bound to the node's input ports.
    fn inputs(&self) -> Vec<String>;

    /// Streams bound to the node's output ports.
    fn outputs(&self) -> Vec<String>;
}

} // verus!
