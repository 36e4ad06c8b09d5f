//! The pipeline resolver: the two bind group layouts of the particle
//! renderer, the two render pipeline variants (plain and per-vertex-colored
//! vertex layout), and the specialization cache that computes each variant
//! once and reuses it across frames and batches.

use vstd::prelude::*;

verus! {

/// A vertex attribute format.
#[derive(Clone, Copy, Debug, PartialEq, Eq, Structural)]
pub enum VertexFormatFx {
    Float32x3,
    Float32x2,
    Uint32,
}

/// One vertex attribute: format, byte offset within the stride, and shader
/// location.
#[derive(Clone, Copy, Debug, PartialEq, Eq, Structural)]
pub struct VertexAttributeFx {
    pub format: VertexFormatFx,
    pub offset: u64,
    pub shader_location: u32,
}

/// A vertex buffer layout: the per-vertex stride and the attribute list.
#[derive(Clone, Debug)]
pub struct VertexBufferLayoutFx {
    pub array_stride: u64,
    pub attributes: Vec<VertexAttributeFx>,
}

/// What one entry of a bind group layout binds.
#[derive(Clone, Copy, Debug, PartialEq, Eq, Structural)]
pub enum BindingTypeFx {
    /// A uniform buffer, bound with a dynamic offset if the flag is set.
    UniformBuffer { has_dynamic_offset: bool },
    /// A filterable two-dimensional texture.
    Texture,
    /// A filtering sampler.
    Sampler,
}

/// One entry of a bind group layout: binding index, shader stage
/// visibility, and binding type.
#[derive(Clone, Copy, Debug, PartialEq, Eq, Structural)]
pub struct BindGroupLayoutEntryFx {
    pub binding: u32,
    pub vertex_visible: bool,
    pub fragment_visible: bool,
    pub ty: BindingTypeFx,
}

/// A bind group layout: an ordered list of entries.
#[derive(Clone, Debug)]
pub struct BindGroupLayoutFx {
    pub entries: Vec<BindGroupLayoutEntryFx>,
}

/// A render pipeline descriptor, reduced to what distinguishes the two
/// variants: the vertex layout, whether the shader is compiled with the
/// colored define, alpha blending, and the sample count.
#[derive(Clone, Debug)]
pub struct RenderPipelineDescriptorFx {
    pub vertex_layout: VertexBufferLayoutFx,
    pub colored: bool,
    pub alpha_blend: bool,
    pub msaa_samples: u32,
}

/// The key a pipeline is specialized by: whether the batch needs per-vertex
/// color.
#[derive(Clone, Copy, Debug, PartialEq, Eq, Hash, Structural)]
pub struct ParticlesPipelineKey {
    pub colored: bool,
}

/// The attribute list of a variant: position and texture coordinates, and
/// for the colored variant one additional packed 32-bit color attribute.
pub open spec fn attributes_model(colored: bool) -> Seq<VertexAttributeFx> {
    if colored {
        seq![
            VertexAttributeFx { format: VertexFormatFx::Float32x3, offset: 0, shader_location: 0 },
            VertexAttributeFx { format: VertexFormatFx::Float32x2, offset: 12, shader_location: 1 },
            VertexAttributeFx { format: VertexFormatFx::Uint32, offset: 20, shader_location: 2 },
        ]
    } else {
        seq![
            VertexAttributeFx { format: VertexFormatFx::Float32x3, offset: 0, shader_location: 0 },
            VertexAttributeFx { format: VertexFormatFx::Float32x2, offset: 12, shader_location: 1 },
        ]
    }
}

/// The per-vertex stride of a variant: twenty bytes, plus four for the
/// packed color.
pub open spec fn stride_model(colored: bool) -> u64 {
    if colored {
        24
    } else {
        20
    }
}

/// Whether a descriptor is exactly the variant for the given key.
pub open spec fn is_descriptor_for(d: RenderPipelineDescriptorFx, colored: bool) -> bool {
    &&& d.vertex_layout.array_stride == stride_model(colored)
    &&& d.vertex_layout.attributes@ == attributes_model(colored)
    &&& d.colored == colored
    &&& d.alpha_blend
    &&& d.msaa_samples == 4
}

/// The particle renderer's pipeline seed: the view-global layout (one
/// dynamically offset uniform buffer) and the per-texture material layout
/// (texture, then sampler).
#[derive(Clone, Debug)]
pub struct ParticlesPipeline {
    pub view_layout: BindGroupLayoutFx,
    pub material_layout: BindGroupLayoutFx,
}

impl ParticlesPipeline {
    /// Build the two bind group layouts the renderer declares at startup.
    pub fn new() -> (s: Self)
        ensures
            s.view_layout.entries@ == seq![
                (BindGroupLayoutEntryFx {
                    binding: 0,
                    vertex_visible: true,
                    fragment_visible: true,
                    ty: BindingTypeFx::UniformBuffer { has_dynamic_offset: true },
                }),
            ],
            s.material_layout.entries@ == seq![
                (BindGroupLayoutEntryFx {
                    binding: 0,
                    vertex_visible: false,
                    fragment_visible: true,
                    ty: BindingTypeFx::Texture,
                }),
                (BindGroupLayoutEntryFx {
                    binding: 1,
                    vertex_visible: false,
                    fragment_visible: true,
                    ty: BindingTypeFx::Sampler,
                }),
            ],
    {
        let mut view_entries: Vec<BindGroupLayoutEntryFx> = Vec::new();
        view_entries.push(
            BindGroupLayoutEntryFx {
                binding: 0,
                vertex_visible: true,
                fragment_visible: true,
                ty: BindingTypeFx::UniformBuffer { has_dynamic_offset: true },
            },
        );
        let mut material_entries: Vec<BindGroupLayoutEntryFx> = Vec::new();
        material_entries.push(
            BindGroupLayoutEntryFx {
                binding: 0,
                vertex_visible: false,
                fragment_visible: true,
                ty: BindingTypeFx::Texture,
            },
        );
        material_entries.push(
            BindGroupLayoutEntryFx {
                binding: 1,
                vertex_visible: false,
                fragment_visible: true,
                ty: BindingTypeFx::Sampler,
            },
        );
        proof {
            assert(view_entries@ =~= seq![
                (BindGroupLayoutEntryFx {
                    binding: 0,
                    vertex_visible: true,
                    fragment_visible: true,
                    ty: BindingTypeFx::UniformBuffer { has_dynamic_offset: true },
                }),
            ]);
            assert(material_entries@ =~= seq![
                (BindGroupLayoutEntryFx {
                    binding: 0,
                    vertex_visible: false,
                    fragment_visible: true,
                    ty: BindingTypeFx::Texture,
                }),
                (BindGroupLayoutEntryFx {
                    binding: 1,
                    vertex_visible: false,
                    fragment_visible: true,
                    ty: BindingTypeFx::Sampler,
                }),
            ]);
        }
        ParticlesPipeline {
            view_layout: BindGroupLayoutFx { entries: view_entries },
            material_layout: BindGroupLayoutFx { entries: material_entries },
        }
    }

    /// Compute the pipeline descriptor of one variant: the plain vertex
    /// layout, widened by one color attribute and four bytes of stride when
    /// the key asks for per-vertex color.
    pub fn specialize(&self, key: ParticlesPipelineKey) -> (d: RenderPipelineDescriptorFx)
        ensures
            is_descriptor_for(d, key.colored),
    {
        let mut attributes: Vec<VertexAttributeFx> = Vec::new();
        attributes.push(
            VertexAttributeFx { format: VertexFormatFx::Float32x3, offset: 0, shader_location: 0 },
        );
        attributes.push(
            VertexAttributeFx { format: VertexFormatFx::Float32x2, offset: 12, shader_location: 1 },
        );
        let mut array_stride: u64 = 20;
        if key.colored {
            attributes.push(
                VertexAttributeFx { format: VertexFormatFx::Uint32, offset: 20, shader_location: 2 },
            );
            array_stride = array_stride + 4;
        }
        proof {
            assert(attributes@ =~= attributes_model(key.colored));
        }
        RenderPipelineDescriptorFx {
            vertex_layout: VertexBufferLayoutFx { array_stride, attributes },
            colored: key.colored,
            alpha_blend: true,
            msaa_samples: 4,
        }
    }
}

/// The device-side store of built pipelines: a descriptor per identifier,
/// identifiers handed out in creation order.
#[derive(Clone, Debug)]
pub struct RenderPipelineCache {
    pub pipelines: Vec<RenderPipelineDescriptorFx>,
}

impl RenderPipelineCache {
    /// An empty store.
    pub fn new() -> (s: Self)
        ensures
            s.pipelines@.len() == 0,
    {
        RenderPipelineCache { pipelines: Vec::new() }
    }
}

/// The specialization cache: at most one built pipeline per key value.
#[derive(Clone, Copy, Debug, Default)]
pub struct SpecializedPipelines {
    pub plain: Option<u32>,
    pub colored: Option<u32>,
}

impl SpecializedPipelines {
    /// The cache slot of a key.
    pub open spec fn slot(self, colored: bool) -> Option<u32> {
        if colored {
            self.colored
        } else {
            self.plain
        }
    }

    /// Every cached identifier names a pipeline of its own variant in the
    /// store.
    pub open spec fn wf(self, cache: RenderPipelineCache) -> bool {
        &&& match self.plain {
            Some(id) => id < cache.pipelines@.len() && is_descriptor_for(
                cache.pipelines@[id as int],
                false,
            ),
            None => true,
        }
        &&& match self.colored {
            Some(id) => id < cache.pipelines@.len() && is_descriptor_for(
                cache.pipelines@[id as int],
                true,
            ),
            None => true,
        }
    }

    /// Resolve the pipeline of one key: return the cached identifier if the
    /// key was specialized before, otherwise specialize once, store the new
    /// pipeline, and cache its identifier. A cached key is never recomputed.
    pub fn specialize(
        &mut self,
        cache: &mut RenderPipelineCache,
        pipeline: &ParticlesPipeline,
        key: ParticlesPipelineKey,
    ) -> (id: u32)
        requires
            old(self).wf(*old(cache)),
            old(cache).pipelines@.len() < 4294967295,
        ensures
            final(self).wf(*final(cache)),
            final(self).slot(key.colored) == Some(id),
            final(self).slot(!key.colored) == old(self).slot(!key.colored),
            old(cache).pipelines@.is_prefix_of(final(cache).pipelines@),
            old(self).slot(key.colored) is Some ==> *final(self) == *old(self) && final(cache)
                .pipelines@ == old(cache).pipelines@,
            old(self).slot(key.colored) is None ==> id == old(cache).pipelines@.len()
                && final(cache).pipelines@.len() == old(cache).pipelines@.len() + 1
                && is_descriptor_for(final(cache).pipelines@[id as int], key.colored),
    {
        let cached = if key.colored {
            self.colored
        } else {
            self.plain
        };
        match cached {
            Some(id) => {
                proof {
                    assert(old(cache).pipelines@.is_prefix_of(cache.pipelines@));
                }
                id
            },
            None => {
                let descriptor = pipeline.specialize(key);
                let id = cache.pipelines.len() as u32;
                cache.pipelines.push(descriptor);
                if key.colored {
                    self.colored = Some(id);
                } else {
                    self.plain = Some(id);
                }
                proof {
                    assert(old(cache).pipelines@.is_prefix_of(cache.pipelines@));
                }
                id
            },
        }
    }
}

} // verus!
