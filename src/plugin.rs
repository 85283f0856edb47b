use vstd::prelude::*;

use crate::node::{ComputeNode, ComputeNodeState, NodeModel};
use crate::status::{ComputeNodeStatus, ReadbackLimit};

verus! {

/// Configuration of one compute shader: its dispatch budget, and whether its
/// node leaves the render graph once it completes.
#[derive(Clone, Copy, PartialEq, Eq, Structural, Debug)]
pub struct ComputeShaderPlugin {
    pub limit: ReadbackLimit,
    pub remove_on_complete: bool,
}

impl Default for ComputeShaderPlugin {
    fn default() -> (r: Self)
        ensures
            r.limit == ReadbackLimit::Infinite,
            !r.remove_on_complete,
    {
        ComputeShaderPlugin { limit: ReadbackLimit::Infinite, remove_on_complete: false }
    }
}

impl ComputeShaderPlugin {
    /// The node registered for this shader.
    pub fn node(&self) -> (r: ComputeNode)
        ensures
            r@ == NodeModel::fresh(self.limit),
    {
        ComputeNode::new(self.limit)
    }

    /// Whether the node is to leave the render graph, given its published state.
    pub fn removes_node(&self, state: &ComputeNodeState) -> (r: bool)
        ensures
            r == (self.remove_on_complete && state.status == ComputeNodeStatus::Completed),
    {
        self.remove_on_complete && state.status == ComputeNodeStatus::Completed
    }
}

} // verus!
