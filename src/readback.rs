use vstd::prelude::*;

use crate::status::ComputeNodeStatus;

verus! {

/// Application-side holder of the readback request of one shader: the
/// descriptor of what to copy back from the GPU, attached while the shader
/// dispatches and detached once it completes.
pub struct ComputeShaderReadback<R> {
    readback: Option<R>,
}

impl<R> View for ComputeShaderReadback<R> {
    type V = Option<R>;

    closed spec fn view(&self) -> Option<R> {
        self.readback
    }
}

/// The request after the handler of `entered` ran on `current`: entering
/// `Ready` attaches the descriptor when there is one, entering `Completed`
/// detaches, and no other status has a handler.
pub open spec fn after_entry<R>(
    current: Option<R>,
    entered: ComputeNodeStatus,
    descriptor: Option<R>,
) -> Option<R> {
    match entered {
        ComputeNodeStatus::Ready => if descriptor is Some {
            descriptor
        } else {
            current
        },
        ComputeNodeStatus::Completed => None,
        _ => current,
    }
}

impl<R> Default for ComputeShaderReadback<R> {
    fn default() -> (r: Self)
        ensures
            r@ is None,
    {
        ComputeShaderReadback { readback: None }
    }
}

impl<R> ComputeShaderReadback<R> {
    /// The attached request, if any.
    pub fn readback(&self) -> (r: &Option<R>)
        ensures
            *r == self@,
    {
        &self.readback
    }

    /// Whether a request is attached.
    pub fn is_attached(&self) -> (r: bool)
        ensures
            r == self@ is Some,
    {
        self.readback.is_some()
    }

    /// Entry into `Ready`: attaches the shader's descriptor if it has one, and
    /// leaves the request as it is otherwise.
    pub fn on_shader_ready(&mut self, descriptor: Option<R>)
        ensures
            final(self)@ == (if descriptor is Some {
                descriptor
            } else {
                old(self)@
            }),
    {
        if descriptor.is_some() {
            self.readback = descriptor;
        }
    }

    /// Entry into `Completed`: detaches any request.
    pub fn on_shader_complete(&mut self)
        ensures
            final(self)@ is None,
    {
        self.readback = None;
    }

    /// Runs the handler of the status just entered, if it has one.
    pub fn on_enter(&mut self, entered: ComputeNodeStatus, descriptor: Option<R>)
        ensures
            final(self)@ == after_entry(old(self)@, entered, descriptor),
    {
        match entered {
            ComputeNodeStatus::Ready => self.on_shader_ready(descriptor),
            ComputeNodeStatus::Completed => self.on_shader_complete(),
            _ => {},
        }
    }
}

} // verus!
