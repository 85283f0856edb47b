use vstd::prelude::*;

verus! {

/// Lifecycle of a compute node.
///
/// `Loading` waits for the pipeline to compile, `Ready` dispatches this frame,
/// `Completed` has used up its dispatch budget and `Error` saw the pipeline fail.
#[derive(Clone, Copy, PartialEq, Eq, Structural, Debug, Hash)]
pub enum ComputeNodeStatus {
    Loading,
    Init,
    Ready,
    Completed,
    Error,
}

impl Default for ComputeNodeStatus {
    fn default() -> (r: Self)
        ensures
            r == ComputeNodeStatus::Loading,
    {
        ComputeNodeStatus::Loading
    }
}

/// How many dispatches (and so readbacks) are issued per initialization of the shader.
#[derive(Clone, Copy, PartialEq, Eq, Structural, Debug)]
pub enum ReadbackLimit {
    /// No limit: the shader dispatches every frame for as long as it is ready.
    Infinite,
    /// At most this many frames of dispatch, then the node completes.
    Finite(usize),
}

impl Default for ReadbackLimit {
    fn default() -> (r: Self)
        ensures
            r == ReadbackLimit::Infinite,
    {
        ReadbackLimit::Infinite
    }
}

/// Compilation state of the compute pipeline, as polled from the pipeline cache.
#[derive(Clone, Copy, PartialEq, Eq, Structural, Debug)]
pub enum CompileStatus {
    /// Waiting in the cache's queue.
    Queued,
    /// Being compiled.
    Compiling,
    /// Compiled: the pipeline can be dispatched.
    Ready,
    /// Compilation failed.
    Failed,
}

impl CompileStatus {
    /// Whether compilation has not finished yet, in either direction.
    pub open spec fn is_pending(self) -> bool {
        self is Queued || self is Compiling
    }
}

/// Number of workgroups of one dispatch, along each axis.
#[derive(Clone, Copy, PartialEq, Eq, Structural, Debug)]
pub struct Workgroups {
    pub x: u32,
    pub y: u32,
    pub z: u32,
}

} // verus!
