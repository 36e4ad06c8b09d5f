//! Draw execution for one queued batch: bind the resolved pipeline, the
//! vertex buffer of the batch's mode, the view-global uniforms and the
//! per-texture binding, then issue exactly one draw call over the batch's
//! vertex range. A batch whose pipeline did not resolve is skipped without
//! aborting the frame.

use vstd::prelude::*;
use crate::batch::{ParticlesBatch, ParticlesMeta};
use crate::gpu::BindGroup;
use crate::pipeline::RenderPipelineCache;
use crate::queue::{ImageBindGroups, Transparent2dItem};

verus! {

broadcast use vstd::std_specs::hash::group_hash_axioms;

/// One command recorded into a render pass, for the host to execute in
/// order.
#[derive(Clone, Copy, Debug, PartialEq, Eq, Structural)]
pub enum RenderCommand {
    /// Bind the pipeline with this identifier.
    SetRenderPipeline { id: u32 },
    /// Bind vertex buffer slot zero to the colored or the plain buffer.
    SetVertexBuffer { colored: bool },
    /// Bind a group at the given index, with an optional dynamic offset.
    SetBindGroup { index: u32, group: BindGroup, dynamic_offset: Option<u32> },
    /// Draw one instance of the vertex range `[start, end)`.
    Draw { start: usize, end: usize },
}

/// The command stream of a render pass.
#[derive(Debug)]
pub struct TrackedRenderPass {
    pub commands: Vec<RenderCommand>,
}

impl TrackedRenderPass {
    /// An empty command stream.
    pub fn new() -> (s: Self)
        ensures
            s.commands@ == Seq::<RenderCommand>::empty(),
    {
        TrackedRenderPass { commands: Vec::new() }
    }
}

/// Whether every resource a batch's draw needs is at hand: the item's
/// pipeline is in the store, the view binding exists, and the batch's
/// texture has a cached binding.
pub open spec fn draw_ready(
    meta: ParticlesMeta,
    bind_groups: Map<u64, BindGroup>,
    cache: RenderPipelineCache,
    batch: ParticlesBatch,
    item: Transparent2dItem,
) -> bool {
    &&& item.pipeline < cache.pipelines@.len()
    &&& meta.view_bind_group is Some
    &&& bind_groups.contains_key(batch.handle)
}

/// The commands one batch's draw records when its resources are at hand:
/// pipeline, vertex buffer slice, view uniforms with the view's dynamic
/// offset, per-texture binding, and one draw call over the batch's range.
pub open spec fn draw_commands(
    meta: ParticlesMeta,
    bind_groups: Map<u64, BindGroup>,
    batch: ParticlesBatch,
    item: Transparent2dItem,
    view_offset: u32,
) -> Seq<RenderCommand> {
    seq![
        RenderCommand::SetRenderPipeline { id: item.pipeline },
        RenderCommand::SetVertexBuffer { colored: batch.colored },
        (RenderCommand::SetBindGroup {
            index: 0,
            group: meta.view_bind_group.unwrap(),
            dynamic_offset: Some(view_offset),
        }),
        (RenderCommand::SetBindGroup {
            index: 1,
            group: bind_groups[batch.handle],
            dynamic_offset: None,
        }),
        RenderCommand::Draw { start: batch.start, end: batch.end },
    ]
}

/// How many draw calls a command stream issues.
pub open spec fn draw_call_count(cmds: Seq<RenderCommand>) -> int
    decreases cmds.len(),
{
    if cmds.len() == 0 {
        0
    } else {
        draw_call_count(cmds.drop_last()) + if cmds.last() is Draw {
            1int
        } else {
            0int
        }
    }
}

/// A ready batch's draw issues exactly one draw call; a skipped batch
/// issues none.
pub proof fn lemma_one_draw_call_per_batch(
    meta: ParticlesMeta,
    bind_groups: Map<u64, BindGroup>,
    batch: ParticlesBatch,
    item: Transparent2dItem,
    view_offset: u32,
)
    ensures
        draw_call_count(draw_commands(meta, bind_groups, batch, item, view_offset)) == 1,
        draw_call_count(Seq::<RenderCommand>::empty()) == 0,
{
    let c5 = draw_commands(meta, bind_groups, batch, item, view_offset);
    let c4 = c5.drop_last();
    let c3 = c4.drop_last();
    let c2 = c3.drop_last();
    let c1 = c2.drop_last();
    let c0 = c1.drop_last();
    assert(c0 =~= Seq::<RenderCommand>::empty());
    assert(c1.last() == c5[0]);
    assert(c2.last() == c5[1]);
    assert(c3.last() == c5[2]);
    assert(c4.last() == c5[3]);
    assert(c5.last() == c5[4]);
    assert(draw_call_count(c0) == 0);
    assert(draw_call_count(c1) == 0);
    assert(draw_call_count(c2) == 0);
    assert(draw_call_count(c3) == 0);
    assert(draw_call_count(c4) == 0);
    assert(draw_call_count(c5) == 1);
}

/// Concatenating command streams adds their draw-call counts: drawing each
/// queued batch once draws each batch exactly once in total.
pub proof fn lemma_draw_call_count_concat(a: Seq<RenderCommand>, b: Seq<RenderCommand>)
    ensures
        draw_call_count(a + b) == draw_call_count(a) + draw_call_count(b),
    decreases b.len(),
{
    if b.len() == 0 {
        assert(a + b =~= a);
    } else {
        lemma_draw_call_count_concat(a, b.drop_last());
        assert((a + b).drop_last() =~= a + b.drop_last());
        assert((a + b).last() == b.last());
    }
}

/// The draw function for particle batches. It owns no state of its own; the
/// frame's resources are handed in for each call.
#[derive(Clone, Copy, Debug, Default)]
pub struct DrawParticles {}

impl DrawParticles {
    pub fn new() -> (s: Self)
        ensures
            s == (DrawParticles {  }),
    {
        DrawParticles {  }
    }

    /// Record the draw of one queued batch. If the item's pipeline is not in
    /// the store, the view binding is missing, or the batch's texture has no
    /// cached binding, nothing is recorded and the frame goes on.
    pub fn draw(
        &mut self,
        particles_meta: &ParticlesMeta,
        image_bind_groups: &ImageBindGroups,
        pipeline_cache: &RenderPipelineCache,
        batch: &ParticlesBatch,
        item: &Transparent2dItem,
        view_offset: u32,
        pass: &mut TrackedRenderPass,
    )
        ensures
            draw_ready(
                *particles_meta,
                image_bind_groups.values@,
                *pipeline_cache,
                *batch,
                *item,
            ) ==> final(pass).commands@ == old(pass).commands@ + draw_commands(
                *particles_meta,
                image_bind_groups.values@,
                *batch,
                *item,
                view_offset,
            ),
            !draw_ready(
                *particles_meta,
                image_bind_groups.values@,
                *pipeline_cache,
                *batch,
                *item,
            ) ==> final(pass).commands@ == old(pass).commands@,
    {
        if (item.pipeline as usize) < pipeline_cache.pipelines.len() {
            let view_group = match &particles_meta.view_bind_group {
                Some(g) => *g,
                None => {
                    return ;
                },
            };
            let material_group = match image_bind_groups.values.get(&batch.handle) {
                Some(g) => *g,
                None => {
                    return ;
                },
            };
            pass.commands.push(RenderCommand::SetRenderPipeline { id: item.pipeline });
            pass.commands.push(RenderCommand::SetVertexBuffer { colored: batch.colored });
            pass.commands.push(
                RenderCommand::SetBindGroup {
                    index: 0,
                    group: view_group,
                    dynamic_offset: Some(view_offset),
                },
            );
            pass.commands.push(
                RenderCommand::SetBindGroup { index: 1, group: material_group, dynamic_offset: None },
            );
            pass.commands.push(RenderCommand::Draw { start: batch.start, end: batch.end });
            proof {
                assert(pass.commands@ =~= old(pass).commands@ + draw_commands(
                    *particles_meta,
                    image_bind_groups.values@,
                    *batch,
                    *item,
                    view_offset,
                ));
            }
        }
    }
}

} // verus!
