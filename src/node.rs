use vstd::prelude::*;

use crate::status::{CompileStatus, ComputeNodeStatus, ReadbackLimit, Workgroups};

verus! {

/// Mathematical model of a compute node: its status, how many dispatches it
/// has made in the current cycle, and its dispatch budget.
pub struct NodeModel {
    pub status: ComputeNodeStatus,
    pub count: nat,
    pub limit: ReadbackLimit,
}

impl NodeModel {
    /// A node as registered, or as left by a reset: loading, nothing dispatched.
    pub open spec fn fresh(limit: ReadbackLimit) -> NodeModel {
        NodeModel { status: ComputeNodeStatus::Loading, count: 0, limit }
    }

    /// The counter stays within a finite budget, and a node without a budget
    /// never completes.
    pub open spec fn wf(self) -> bool {
        match self.limit {
            ReadbackLimit::Finite(n) => self.count <= n,
            ReadbackLimit::Infinite => self.count == 0 && self.status != ComputeNodeStatus::Completed,
        }
    }

    /// One frame of the dispatch state machine, given the compile status seen
    /// this frame. `Error` is terminal; otherwise, in priority order: a pending
    /// compile means `Loading`, a failed one `Error`, `Completed` stays until a
    /// reset, no budget means `Ready`, budget left means `Ready` with one more
    /// dispatch counted, and an exhausted budget means `Completed` with the
    /// counter back at zero.
    pub open spec fn next(self, compile: CompileStatus) -> NodeModel {
        if self.status == ComputeNodeStatus::Error {
            self
        } else {
            match compile {
                CompileStatus::Queued | CompileStatus::Compiling => NodeModel {
                    status: ComputeNodeStatus::Loading,
                    ..self
                },
                CompileStatus::Failed => NodeModel { status: ComputeNodeStatus::Error, ..self },
                CompileStatus::Ready => {
                    if self.status == ComputeNodeStatus::Completed {
                        self
                    } else {
                        match self.limit {
                            ReadbackLimit::Infinite => NodeModel {
                                status: ComputeNodeStatus::Ready,
                                ..self
                            },
                            ReadbackLimit::Finite(n) => {
                                if self.count < n {
                                    NodeModel {
                                        status: ComputeNodeStatus::Ready,
                                        count: self.count + 1,
                                        ..self
                                    }
                                } else {
                                    NodeModel {
                                        status: ComputeNodeStatus::Completed,
                                        count: 0,
                                        ..self
                                    }
                                }
                            }
                        }
                    }
                }
            }
        }
    }

    /// The node after a reset: loading again, counter cleared, budget kept.
    pub open spec fn reset(self) -> NodeModel {
        NodeModel::fresh(self.limit)
    }
}


/// Status of a compute node as published by the render side, and mirrored
/// once per frame into the application.
#[derive(Clone, Copy, PartialEq, Eq, Structural, Debug, Hash)]
pub struct ComputeNodeState {
    pub status: ComputeNodeStatus,
}

impl From<ComputeNodeStatus> for ComputeNodeState {
    fn from(value: ComputeNodeStatus) -> (r: Self)
        ensures
            r.status == value,
    {
        ComputeNodeState { status: value }
    }
}

impl vstd::std_specs::convert::FromSpecImpl<ComputeNodeStatus> for ComputeNodeState {
    open spec fn obeys_from_spec() -> bool {
        true
    }

    open spec fn from_spec(value: ComputeNodeStatus) -> Self {
        ComputeNodeState { status: value }
    }
}

impl Default for ComputeNodeState {
    fn default() -> (r: Self)
        ensures
            r.status == ComputeNodeStatus::Loading,
    {
        ComputeNodeState { status: ComputeNodeStatus::Loading }
    }
}

/// Why the node could not record its dispatch.
#[derive(Clone, Copy, PartialEq, Eq, Structural, Debug)]
pub enum NodeRunError {
    /// The bind group was never built: a setup defect, not retried.
    MissingBindGroup,
}

/// The render-side node: advances the dispatch state machine once per frame
/// and decides whether this frame dispatches.
pub struct ComputeNode {
    status: ComputeNodeStatus,
    limit: ReadbackLimit,
    count: usize,
}

impl View for ComputeNode {
    type V = NodeModel;

    closed spec fn view(&self) -> NodeModel {
        NodeModel { status: self.status, count: self.count as nat, limit: self.limit }
    }
}

impl Default for ComputeNode {
    fn default() -> (r: Self)
        ensures
            r@ == NodeModel::fresh(ReadbackLimit::Infinite),
    {
        ComputeNode::new(ReadbackLimit::Infinite)
    }
}

impl ComputeNode {
    #[verifier::type_invariant]
    spec fn inv(&self) -> bool {
        self@.wf()
    }

    /// A freshly registered node with the given dispatch budget.
    pub fn new(limit: ReadbackLimit) -> (r: Self)
        ensures
            r@ == NodeModel::fresh(limit),
            r@.wf(),
    {
        ComputeNode { status: ComputeNodeStatus::Loading, limit, count: 0 }
    }

    pub fn status(&self) -> (r: ComputeNodeStatus)
        ensures
            r == self@.status,
    {
        self.status
    }

    pub fn count(&self) -> (r: usize)
        ensures
            r as nat == self@.count,
    {
        self.count
    }

    pub fn limit(&self) -> (r: ReadbackLimit)
        ensures
            r == self@.limit,
    {
        self.limit
    }

    /// Advances the state machine by one frame with the compile status seen
    /// this frame, and publishes the new status into `state` only when it
    /// differs from the node's previous status.
    pub fn update(&mut self, compile: CompileStatus, state: &mut ComputeNodeState)
        ensures
            final(self)@ == old(self)@.next(compile),
            final(self)@.wf(),
            final(state).status == (if final(self)@.status != old(self)@.status {
                final(self)@.status
            } else {
                old(state).status
            }),
    {
        proof {
            use_type_invariant(&*self);
        }
        let next_status = if self.status == ComputeNodeStatus::Error {
            ComputeNodeStatus::Error
        } else {
            match compile {
                CompileStatus::Queued | CompileStatus::Compiling => ComputeNodeStatus::Loading,
                CompileStatus::Failed => ComputeNodeStatus::Error,
                CompileStatus::Ready => match (self.status, self.limit) {
                    (ComputeNodeStatus::Completed, _) => ComputeNodeStatus::Completed,
                    (_, ReadbackLimit::Finite(limit)) => {
                        if self.count < limit {
                            self.count = self.count + 1;
                            ComputeNodeStatus::Ready
                        } else {
                            self.count = 0;
                            ComputeNodeStatus::Completed
                        }
                    },
                    _ => ComputeNodeStatus::Ready,
                },
            }
        };
        if self.status != next_status {
            self.status = next_status;
            state.status = next_status;
        }
    }

    /// Forces the node back to `Loading` with a cleared counter, whatever its
    /// status, and publishes `Loading`; used when the shader's input changes.
    pub fn reset(&mut self, state: &mut ComputeNodeState)
        ensures
            final(self)@ == old(self)@.reset(),
            final(self)@.wf(),
            final(state).status == ComputeNodeStatus::Loading,
    {
        proof {
            use_type_invariant(&*self);
        }
        self.count = 0;
        self.status = ComputeNodeStatus::Loading;
        *state = ComputeNodeState::default();
    }

    /// Whether this frame issues a dispatch: exactly when the last update
    /// computed `Ready`.
    pub fn dispatches(&self) -> (r: bool)
        ensures
            r == (self@.status == ComputeNodeStatus::Ready),
    {
        self.status == ComputeNodeStatus::Ready
    }

    /// The dispatch this frame records: `workgroups` when the node is ready,
    /// none otherwise. A missing bind group is an error whatever the status.
    pub fn run<B>(&self, bind_group: &Option<B>, workgroups: Workgroups) -> (r: Result<
        Option<Workgroups>,
        NodeRunError,
    >)
        ensures
            bind_group.is_none() ==> r == Err::<Option<Workgroups>, NodeRunError>(
                NodeRunError::MissingBindGroup,
            ),
            bind_group.is_some() && self@.status == ComputeNodeStatus::Ready ==> r == Ok::<
                Option<Workgroups>,
                NodeRunError,
            >(Some(workgroups)),
            bind_group.is_some() && self@.status != ComputeNodeStatus::Ready ==> r == Ok::<
                Option<Workgroups>,
                NodeRunError,
            >(None),
    {
        if bind_group.is_none() {
            return Err(NodeRunError::MissingBindGroup);
        }
        if self.dispatches() {
            Ok(Some(workgroups))
        } else {
            Ok(None)
        }
    }
}

} // verus!
