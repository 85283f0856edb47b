use vstd::prelude::*;

verus! {

/// The bind group realized from the shader's current input.
pub struct ComputeShaderBindGroup<B> {
    pub bind_group: B,
}

/// Whether the bind group has to be built this frame: when none exists yet,
/// or when the shader's input changed since it was built.
pub fn needs_rebuild<B>(cache: &Option<ComputeShaderBindGroup<B>>, input_changed: bool) -> (r:
    bool)
    ensures
        r == (cache is None || input_changed),
{
    cache.is_none() || input_changed
}

} // verus!
