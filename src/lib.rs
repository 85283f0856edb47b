//! Per-frame driver for a GPU compute shader: a dispatch state machine with a
//! bounded dispatch budget, the render-side node that advances it, the
//! once-per-frame mirror of its status into the application, and the readback
//! controller that reacts to that mirror.
mod bind_group;
mod laws;
mod node;
mod plugin;
mod readback;
mod runtime;
mod status;
mod sync;

pub use bind_group::{needs_rebuild, ComputeShaderBindGroup};
pub use laws::{
    all_compiled, lemma_error_sticky, lemma_finite_limit, lemma_infinite_limit, lemma_reset_idempotent,
    ready_frames, run_frames,
};
pub use node::{ComputeNode, ComputeNodeState, NodeModel, NodeRunError};
pub use plugin::ComputeShaderPlugin;
pub use readback::{after_entry, ComputeShaderReadback};
pub use runtime::{frame_node, ComputeShaderRuntime, FrameOutcome};
pub use status::{CompileStatus, ComputeNodeStatus, ReadbackLimit, Workgroups};
pub use sync::AppState;
