//! Extraction: the per-frame copy of rendering-relevant particle-system
//! state into a transient snapshot list, and the relay of texture asset
//! lifecycle notifications. The host scene graph supplies visibility,
//! transforms and texture handles as plain values.

use vstd::prelude::*;
use crate::fx::FP;
use crate::math::{ColorFx, Mat4Fx, RectFx, Vec2Fx};

verus! {

/// Side length of the fixed screen-space quad every snapshot carries:
/// one fifth of a unit, floored.
pub const RECT_SIZE: i64 = 209715;

/// The color stamped on every extracted snapshot (opaque red).
pub open spec fn extraction_color() -> ColorFx {
    ColorFx { red: FP, green: 0, blue: 0, alpha: FP }
}

/// A texture asset lifecycle notification, carried by texture handle.
#[derive(Clone, Copy, Debug, PartialEq, Eq, Structural)]
pub enum AssetEventFx {
    Created { handle: u64 },
    Modified { handle: u64 },
    Removed { handle: u64 },
}

/// The asset notifications gathered for the current frame.
#[derive(Clone, Debug, Default)]
pub struct ParticlesAssetEvents {
    pub images: Vec<AssetEventFx>,
}

/// What the host scene supplies for one particle-system entity in one frame.
#[derive(Clone, Copy, Debug)]
pub struct ParticleInput {
    /// Whether the entity passed visibility culling.
    pub visible: bool,
    /// Whether the entity's texture asset is currently resolvable.
    pub image_loaded: bool,
    /// The entity's world transform.
    pub transform: Mat4Fx,
    /// The entity's texture handle.
    pub handle: u64,
}

/// One entry of the transient snapshot list: world transform, color,
/// texture-space rectangle and texture handle.
#[derive(Clone, Copy, Debug, PartialEq, Eq, Structural)]
pub struct ExtractedParticle {
    pub transform: Mat4Fx,
    pub color: ColorFx,
    pub rect: RectFx,
    pub handle: u64,
}

impl ExtractedParticle {
    pub open spec fn wf(self) -> bool {
        &&& self.transform.wf()
        &&& self.color.wf()
        &&& self.rect.wf()
    }
}

/// The transient, frame-scoped snapshot list.
#[derive(Clone, Debug, Default)]
pub struct ExtractedParticles {
    pub particles: Vec<ExtractedParticle>,
}

/// The snapshot contributed by one visible, resolvable entity.
pub open spec fn snapshot_of(transform: Mat4Fx, handle: u64) -> ExtractedParticle {
    ExtractedParticle {
        transform,
        color: extraction_color(),
        rect: RectFx {
            min: Vec2Fx { x: 0, y: 0 },
            max: Vec2Fx { x: RECT_SIZE, y: RECT_SIZE },
        },
        handle,
    }
}

/// Whether an entity contributes a snapshot this frame.
pub open spec fn contributes(input: ParticleInput) -> bool {
    input.visible && input.image_loaded
}

/// The snapshot list extracted from a frame's entities, in entity order:
/// exactly one entry per visible entity with a resolvable texture.
pub open spec fn extract_model(inputs: Seq<ParticleInput>) -> Seq<ExtractedParticle>
    decreases inputs.len(),
{
    if inputs.len() == 0 {
        Seq::empty()
    } else {
        let rest = extract_model(inputs.drop_last());
        if contributes(inputs.last()) {
            rest.push(snapshot_of(inputs.last().transform, inputs.last().handle))
        } else {
            rest
        }
    }
}

/// Every snapshot the model produces from well-formed transforms is
/// well-formed.
pub proof fn lemma_extract_model_wf(inputs: Seq<ParticleInput>)
    requires
        forall|i: int| 0 <= i < inputs.len() ==> (#[trigger] inputs[i]).transform.wf(),
    ensures
        forall|i: int|
            0 <= i < extract_model(inputs).len() ==> (#[trigger] extract_model(inputs)[i]).wf(),
    decreases inputs.len(),
{
    if inputs.len() > 0 {
        assert(forall|i: int|
            0 <= i < inputs.drop_last().len() ==> (#[trigger] inputs.drop_last()[i])
                == inputs[i]);
        lemma_extract_model_wf(inputs.drop_last());
        let rest = extract_model(inputs.drop_last());
        if contributes(inputs.last()) {
            let s = snapshot_of(inputs.last().transform, inputs.last().handle);
            assert(inputs.last() == inputs[inputs.len() - 1]);
            assert(s.wf());
            assert(forall|i: int|
                0 <= i < rest.len() ==> #[trigger] rest.push(s)[i] == rest[i]);
        }
    }
}

/// Rebuild the snapshot list from this frame's entities. The previous
/// frame's list is fully cleared first; entities that fail visibility or
/// whose texture is not loaded contribute nothing.
pub fn extract_particles(inputs: &Vec<ParticleInput>, extracted: &mut ExtractedParticles)
    ensures
        final(extracted).particles@ == extract_model(inputs@),
{
    extracted.particles.clear();
    let mut i: usize = 0;
    while i < inputs.len()
        invariant
            i <= inputs@.len(),
            extracted.particles@ == extract_model(inputs@.take(i as int)),
        decreases inputs@.len() - i,
    {
        let input = &inputs[i];
        if input.visible && input.image_loaded {
            extracted.particles.push(ExtractedParticle {
                transform: input.transform,
                color: ColorFx { red: FP, green: 0, blue: 0, alpha: FP },
                rect: RectFx {
                    min: Vec2Fx { x: 0, y: 0 },
                    max: Vec2Fx { x: RECT_SIZE, y: RECT_SIZE },
                },
                handle: input.handle,
            });
        }
        proof {
            assert(inputs@.take(i + 1).drop_last() =~= inputs@.take(i as int));
            assert(inputs@.take(i + 1).last() == inputs@[i as int]);
        }
        i += 1;
    }
    proof {
        assert(inputs@.take(inputs@.len() as int) =~= inputs@);
    }
}

/// Relay this frame's texture asset notifications to the render side. The
/// previous frame's relayed list is cleared first; each notification is
/// copied by handle, so the relay owns no asset references.
pub fn extract_particles_events(image_events: &Vec<AssetEventFx>, events: &mut ParticlesAssetEvents)
    ensures
        final(events).images@ == image_events@,
{
    events.images.clear();
    let mut i: usize = 0;
    while i < image_events.len()
        invariant
            i <= image_events@.len(),
            events.images@ == image_events@.take(i as int),
        decreases image_events@.len() - i,
    {
        let event = image_events[i];
        events.images.push(
            match event {
                AssetEventFx::Created { handle } => AssetEventFx::Created { handle },
                AssetEventFx::Modified { handle } => AssetEventFx::Modified { handle },
                AssetEventFx::Removed { handle } => AssetEventFx::Removed { handle },
            },
        );
        proof {
            assert(image_events@.take(i + 1) =~= image_events@.take(i as int).push(
                image_events@[i as int],
            ));
        }
        i += 1;
    }
    proof {
        assert(image_events@.take(image_events@.len() as int) =~= image_events@);
    }
}

} // verus!
