use vstd::prelude::*;

use crate::bind_group::ComputeShaderBindGroup;
use crate::node::{ComputeNode, ComputeNodeState, NodeModel, NodeRunError};
use crate::plugin::ComputeShaderPlugin;
use crate::readback::{after_entry, ComputeShaderReadback};
use crate::status::{CompileStatus, ComputeNodeStatus, Workgroups};
use crate::sync::AppState;

verus! {

/// What one frame produced.
pub struct FrameOutcome {
    /// The dispatch recorded this frame, if any.
    pub dispatch: Result<Option<Workgroups>, NodeRunError>,
    /// The status the application entered at this frame's hand-off, if it changed.
    pub entered: Option<ComputeNodeStatus>,
}

/// Everything one compute shader carries across frames, in both contexts:
/// the render-side node (gone once removed from the graph) and the state it
/// publishes, the bind group, and the application's mirror and readback request.
pub struct ComputeShaderRuntime<B, R> {
    pub plugin: ComputeShaderPlugin,
    pub node: Option<ComputeNode>,
    pub state: ComputeNodeState,
    pub bind_group: Option<ComputeShaderBindGroup<B>>,
    pub main: AppState,
    pub readback: ComputeShaderReadback<R>,
}

/// The node model after a frame's reset (when the input changed) and update.
pub open spec fn frame_node(m: NodeModel, input_changed: bool, compile: CompileStatus) -> NodeModel {
    if input_changed {
        m.reset().next(compile)
    } else {
        m.next(compile)
    }
}

impl<B, R> ComputeShaderRuntime<B, R> {
    /// The published state agrees with the node while the node is in the graph.
    pub open spec fn wf(&self) -> bool {
        self.node matches Some(node) ==> node@.status == self.state.status
    }

    /// A shader as registered: a fresh node, no bind group, both contexts
    /// at `Loading`, no readback request.
    pub fn new(plugin: ComputeShaderPlugin) -> (r: Self)
        ensures
            r.wf(),
            r.plugin == plugin,
            r.node matches Some(node) && node@ == NodeModel::fresh(plugin.limit),
            r.state.status == ComputeNodeStatus::Loading,
            r.bind_group is None,
            r.main.status == ComputeNodeStatus::Loading,
            r.readback@ is None,
    {
        ComputeShaderRuntime {
            plugin,
            node: Some(plugin.node()),
            state: ComputeNodeState::default(),
            bind_group: None,
            main: AppState::default(),
            readback: ComputeShaderReadback::default(),
        }
    }

    /// One frame, in the fixed order: reset on an input change, install the
    /// bind group built for this frame, update the node with this frame's
    /// compile status, record the dispatch, hand the published status over to
    /// the application, run the handler of the status entered there, and
    /// drop the node from the graph once completed if so configured.
    pub fn frame(
        &mut self,
        input_changed: bool,
        rebuilt: Option<B>,
        compile: CompileStatus,
        workgroups: Workgroups,
        descriptor: Option<R>,
    ) -> (r: FrameOutcome)
        requires
            old(self).wf(),
        ensures
            final(self).wf(),
            final(self).plugin == old(self).plugin,
            final(self).bind_group == (match rebuilt {
                Some(b) => Some(ComputeShaderBindGroup { bind_group: b }),
                None => old(self).bind_group,
            }),
            match old(self).node {
                Some(node) => {
                    let m = frame_node(node@, input_changed, compile);
                    &&& final(self).state.status == m.status
                    &&& final(self).node matches Some(n) ==> n@ == m
                    &&& final(self).node is None <==> (old(self).plugin.remove_on_complete
                        && m.status == ComputeNodeStatus::Completed)
                    &&& r.dispatch == (if final(self).bind_group is None {
                        Err::<Option<Workgroups>, NodeRunError>(NodeRunError::MissingBindGroup)
                    } else if m.status == ComputeNodeStatus::Ready {
                        Ok::<Option<Workgroups>, NodeRunError>(Some(workgroups))
                    } else {
                        Ok::<Option<Workgroups>, NodeRunError>(None)
                    })
                },
                None => {
                    &&& final(self).node is None
                    &&& final(self).state == old(self).state
                    &&& r.dispatch == Ok::<Option<Workgroups>, NodeRunError>(None)
                },
            },
            // the application sees the state published at the end of this frame
            final(self).main.status == final(self).state.status,
            r.entered == (if old(self).main.status != final(self).state.status {
                Some(final(self).state.status)
            } else {
                None::<ComputeNodeStatus>
            }),
            final(self).readback@ == (match r.entered {
                Some(s) => after_entry(old(self).readback@, s, descriptor),
                None => old(self).readback@,
            }),
            // right after the handler of `Ready` or `Completed`, a request is
            // attached exactly when the application is at `Ready`
            (r.entered == Some(ComputeNodeStatus::Ready) || r.entered == Some(
                ComputeNodeStatus::Completed,
            )) && descriptor is Some ==> (final(self).readback@ is Some <==> final(self).main.status
                == ComputeNodeStatus::Ready),
    {
        let mut dispatch: Result<Option<Workgroups>, NodeRunError> = Ok(None);
        if let Some(b) = rebuilt {
            self.bind_group = Some(ComputeShaderBindGroup { bind_group: b });
        }
        let mut node_opt = self.node.take();
        if let Some(mut node) = node_opt {
            if input_changed {
                node.reset(&mut self.state);
            }
            node.update(compile, &mut self.state);
            dispatch = node.run(&self.bind_group, workgroups);
            if self.plugin.removes_node(&self.state) {
                node_opt = None;
            } else {
                node_opt = Some(node);
            }
        }
        self.node = node_opt;
        let entered = self.state.extract_to_main(&mut self.main);
        if let Some(s) = entered {
            self.readback.on_enter(s, descriptor);
        }
        FrameOutcome { dispatch, entered }
    }
}

} // verus!
