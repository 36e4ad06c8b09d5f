//! Records of GPU-side resources. The host device hands out plain integer
//! identifiers for the objects it owns (texture views, samplers, uniform
//! buffers); the crate tracks which bindings exist and what they refer to,
//! and the host performs the actual creation and binding from these records.

use vstd::prelude::*;

verus! {

/// The GPU-side form of a texture asset: the identifiers of the texture view
/// and the sampler the host device created for it.
#[derive(Clone, Copy, Debug, PartialEq, Eq, Structural)]
pub struct GpuImage {
    pub texture_view: u64,
    pub sampler: u64,
}

/// A bind group record: what a created binding refers to.
#[derive(Clone, Copy, Debug, PartialEq, Eq, Structural)]
pub enum BindGroup {
    /// The view-global uniform binding, from the view uniform buffer.
    View { binding: u64 },
    /// A per-texture binding: texture view at slot zero, sampler at slot one.
    Material { texture_view: u64, sampler: u64 },
}

} // verus!
