use vstd::prelude::*;

use crate::node::ComputeNodeState;
use crate::status::ComputeNodeStatus;

verus! {

/// The application-side mirror of a node's status. Only
/// `ComputeNodeState::extract_to_main` writes it.
#[derive(Clone, Copy, PartialEq, Eq, Structural, Debug, Hash)]
pub struct AppState {
    pub status: ComputeNodeStatus,
}

impl Default for AppState {
    fn default() -> (r: Self)
        ensures
            r.status == ComputeNodeStatus::Loading,
    {
        AppState { status: ComputeNodeStatus::Loading }
    }
}

impl ComputeNodeState {
    /// The hand-off at the end of a frame: copies this render-side status
    /// into the application's mirror, unconditionally. Returns the status
    /// entered, when the mirror changed: each transition is reported once.
    pub fn extract_to_main(&self, main: &mut AppState) -> (entered: Option<ComputeNodeStatus>)
        ensures
            final(main).status == self.status,
            entered == (if old(main).status != self.status {
                Some(self.status)
            } else {
                None::<ComputeNodeStatus>
            }),
    {
        let changed = main.status != self.status;
        main.status = self.status;
        if changed {
            Some(self.status)
        } else {
            None
        }
    }
}

} // verus!
