//! Queue and draw: invalidate cached per-texture bindings on asset
//! notifications, lazily create one binding per texture referenced by a
//! batch, enqueue every batch into each view's transparent draw list keyed
//! by depth, and issue one draw call per batch from the cached pipeline,
//! vertex-buffer slice and bindings.

use vstd::prelude::*;
use std::collections::HashMap;
use crate::batch::{ParticlesBatch, ParticlesMeta};
use crate::extract::{AssetEventFx, ParticlesAssetEvents};
use crate::gpu::{BindGroup, GpuImage};
use crate::pipeline::{
    ParticlesPipeline, ParticlesPipelineKey, RenderPipelineCache, SpecializedPipelines,
};

verus! {

broadcast use vstd::std_specs::hash::group_hash_axioms;

/// The long-lived cache of per-texture bindings, keyed by texture handle.
#[derive(Debug)]
pub struct ImageBindGroups {
    pub values: HashMap<u64, BindGroup>,
}

impl ImageBindGroups {
    /// An empty cache.
    pub fn new() -> (s: Self)
        ensures
            s.values@ == Map::<u64, BindGroup>::empty(),
    {
        ImageBindGroups { values: HashMap::new() }
    }
}

/// One entry of the host's transparent draw list: the draw function to call,
/// the resolved pipeline, the batch it refers to, and the depth key the host
/// sorts by.
#[derive(Clone, Copy, Debug, PartialEq, Eq, Structural)]
pub struct Transparent2dItem {
    pub draw_function: u32,
    pub pipeline: u32,
    pub batch_index: usize,
    pub sort_key: i64,
}

/// The transparent pass of one view.
#[derive(Debug)]
pub struct RenderPhase {
    pub items: Vec<Transparent2dItem>,
}

/// Whether one asset notification invalidates the binding of handle `h`:
/// a modified or removed texture does, a created one needs no action since
/// no cache entry exists yet.
pub open spec fn event_invalidates(e: AssetEventFx, h: u64) -> bool {
    match e {
        AssetEventFx::Created { .. } => false,
        AssetEventFx::Modified { handle } => handle == h,
        AssetEventFx::Removed { handle } => handle == h,
    }
}

/// The handles whose cached bindings this frame's notifications invalidate.
pub open spec fn invalidated_set(events: Seq<AssetEventFx>) -> Set<u64> {
    Set::new(
        |h: u64|
            exists|i: int| 0 <= i < events.len() && event_invalidates(#[trigger] events[i], h),
    )
}

/// Whether any batch references the texture handle.
pub open spec fn batch_references(bs: Seq<ParticlesBatch>, h: u64) -> bool {
    exists|i: int| 0 <= i < bs.len() && (#[trigger] bs[i]).handle == h
}

/// The items queued for one view: one per batch whose texture has a GPU
/// image, in batch order, each carrying the pipeline of its color mode and
/// the batch's depth key.
pub open spec fn queued_items_model(
    bs: Seq<ParticlesBatch>,
    gpu: Map<u64, GpuImage>,
    plain_id: u32,
    colored_id: u32,
    draw_function: u32,
) -> Seq<Transparent2dItem>
    decreases bs.len(),
{
    if bs.len() == 0 {
        Seq::empty()
    } else {
        let rest = queued_items_model(bs.drop_last(), gpu, plain_id, colored_id, draw_function);
        if gpu.contains_key(bs.last().handle) {
            rest.push(
                Transparent2dItem {
                    draw_function,
                    pipeline: if bs.last().colored {
                        colored_id
                    } else {
                        plain_id
                    },
                    batch_index: (bs.len() - 1) as usize,
                    sort_key: bs.last().z,
                },
            )
        } else {
            rest
        }
    }
}

/// When every batch texture has a GPU image, the queue emits exactly one
/// item per batch, in batch order: the item's index names its batch, its
/// depth key is the batch's, and its pipeline is the variant of the batch's
/// color mode.
pub proof fn lemma_one_item_per_batch(
    bs: Seq<ParticlesBatch>,
    gpu: Map<u64, GpuImage>,
    plain_id: u32,
    colored_id: u32,
    draw_function: u32,
)
    requires
        forall|i: int| 0 <= i < bs.len() ==> gpu.contains_key((#[trigger] bs[i]).handle),
    ensures
        queued_items_model(bs, gpu, plain_id, colored_id, draw_function).len() == bs.len(),
        forall|i: int|
            0 <= i < bs.len() ==> #[trigger] queued_items_model(
                bs,
                gpu,
                plain_id,
                colored_id,
                draw_function,
            )[i] == (Transparent2dItem {
                draw_function,
                pipeline: if bs[i].colored {
                    colored_id
                } else {
                    plain_id
                },
                batch_index: i as usize,
                sort_key: bs[i].z,
            }),
    decreases bs.len(),
{
    if bs.len() > 0 {
        assert(forall|i: int|
            0 <= i < bs.drop_last().len() ==> #[trigger] bs.drop_last()[i] == bs[i]);
        lemma_one_item_per_batch(bs.drop_last(), gpu, plain_id, colored_id, draw_function);
        assert(bs.last() == bs[bs.len() - 1]);
    }
}

/// The binding cache after one frame's queue stage: invalidated handles are
/// gone; if at least one view was queued, every batch texture with a GPU
/// image has a binding — the retained one if it survived invalidation, a
/// freshly created one otherwise — and nothing else was added.
pub open spec fn bind_groups_after(
    m0: Map<u64, BindGroup>,
    events: Seq<AssetEventFx>,
    bs: Seq<ParticlesBatch>,
    gpu: Map<u64, GpuImage>,
    nviews: int,
    m1: Map<u64, BindGroup>,
) -> bool {
    let inv = m0.remove_keys(invalidated_set(events));
    if nviews == 0 {
        m1 == inv
    } else {
        &&& forall|h: u64| #![auto] inv.contains_key(h) ==> m1.contains_key(h) && m1[h] == inv[h]
        &&& forall|h: u64| #![auto]
            !inv.contains_key(h) && batch_references(bs, h) && gpu.contains_key(h)
                ==> m1.contains_key(h) && m1[h] == (BindGroup::Material {
                texture_view: gpu[h].texture_view,
                sampler: gpu[h].sampler,
            })
        &&& forall|h: u64| #![auto]
            m1.contains_key(h) ==> inv.contains_key(h) || (batch_references(bs, h)
                && gpu.contains_key(h))
    }
}

/// Adding one batch to a prefix extends the referenced handles by exactly
/// that batch's handle.
proof fn lemma_batch_references_step(bs: Seq<ParticlesBatch>, bi: int)
    requires
        0 <= bi < bs.len(),
    ensures
        forall|h: u64|
            #[trigger] batch_references(bs.take(bi + 1), h) == (batch_references(bs.take(bi), h)
                || bs[bi].handle == h),
{
    assert forall|h: u64|
        #[trigger] batch_references(bs.take(bi + 1), h) == (batch_references(bs.take(bi), h)
            || bs[bi].handle == h) by {
        let t0 = bs.take(bi);
        let t1 = bs.take(bi + 1);
        if batch_references(t1, h) {
            let i = choose|i: int| 0 <= i < t1.len() && t1[i].handle == h;
            if i < bi {
                assert(t0[i].handle == h);
                assert(batch_references(t0, h));
            } else {
                assert(bs[bi].handle == h);
            }
        }
        if batch_references(t0, h) {
            let i = choose|i: int| 0 <= i < t0.len() && t0[i].handle == h;
            assert(t1[i].handle == h);
            assert(batch_references(t1, h));
        }
        if bs[bi].handle == h {
            assert(t1[bi].handle == h);
            assert(batch_references(t1, h));
        }
    }
}

/// The queue stage of one frame. First relayed asset notifications
/// invalidate cached bindings. Then, if the view uniforms are available,
/// the view binding record is rebuilt, both pipeline variants are resolved
/// through the specialization cache (never recomputing a cached one), a
/// per-texture binding is created for every batch texture with a GPU image,
/// and every batch with such an image is enqueued once into each view's
/// transparent list, keyed by its depth. A batch whose texture has no GPU
/// image yet is skipped for this frame. Without view uniforms nothing is
/// queued.
pub fn queue_particles(
    particles_meta: &mut ParticlesMeta,
    view_binding: Option<u64>,
    particles_pipeline: &ParticlesPipeline,
    pipelines: &mut SpecializedPipelines,
    pipeline_cache: &mut RenderPipelineCache,
    image_bind_groups: &mut ImageBindGroups,
    gpu_images: &HashMap<u64, GpuImage>,
    batches: &Vec<ParticlesBatch>,
    views: &mut Vec<RenderPhase>,
    events: &ParticlesAssetEvents,
    draw_function: u32,
)
    requires
        old(pipelines).wf(*old(pipeline_cache)),
        old(pipeline_cache).pipelines@.len() + 2 < 4294967295,
    ensures
        bind_groups_after(
            old(image_bind_groups).values@,
            events.images@,
            batches@,
            gpu_images@,
            if view_binding is Some {
                final(views)@.len() as int
            } else {
                0
            },
            final(image_bind_groups).values@,
        ),
        final(pipelines).wf(*final(pipeline_cache)),
        old(pipeline_cache).pipelines@.is_prefix_of(final(pipeline_cache).pipelines@),
        final(views)@.len() == old(views)@.len(),
        final(particles_meta).vertices@ == old(particles_meta).vertices@,
        final(particles_meta).colored_vertices@ == old(particles_meta).colored_vertices@,
        view_binding is None ==> *final(pipelines) == *old(pipelines)
            && final(pipeline_cache).pipelines@ == old(pipeline_cache).pipelines@
            && final(views)@ == old(views)@
            && final(particles_meta).view_bind_group == old(particles_meta).view_bind_group,
        view_binding matches Some(vb) ==> {
            &&& final(particles_meta).view_bind_group == Some(BindGroup::View { binding: vb })
            &&& final(pipelines).plain is Some
            &&& final(pipelines).colored is Some
            &&& (old(pipelines).plain is Some ==> final(pipelines).plain == old(pipelines).plain)
            &&& (old(pipelines).colored is Some ==> final(pipelines).colored == old(
                pipelines,
            ).colored)
            &&& forall|v: int|
                0 <= v < old(views)@.len() ==> (#[trigger] final(views)@[v]).items@
                    == old(views)@[v].items@ + queued_items_model(
                    batches@,
                    gpu_images@,
                    final(pipelines).plain.unwrap(),
                    final(pipelines).colored.unwrap(),
                    draw_function,
                )
        },
{
    let ghost m0 = image_bind_groups.values@;
    // Invalidate: a modified or removed image invalidates its cached
    // binding; a created one has no entry yet.
    let mut e: usize = 0;
    proof {
        assert(events.images@.take(0) =~= Seq::<AssetEventFx>::empty());
        assert(m0.remove_keys(invalidated_set(events.images@.take(0))) =~= m0);
    }
    while e < events.images.len()
        invariant
            e <= events.images@.len(),
            image_bind_groups.values@ == m0.remove_keys(
                invalidated_set(events.images@.take(e as int)),
            ),
        decreases events.images@.len() - e,
    {
        let ghost t0 = events.images@.take(e as int);
        let ghost t1 = events.images@.take(e as int + 1);
        proof {
            assert(t1.drop_last() =~= t0);
            assert(t1.last() == events.images@[e as int]);
            assert(forall|i: int| 0 <= i < t0.len() ==> t1[i] == #[trigger] t0[i]);
        }
        let ev = events.images[e];
        match ev {
            AssetEventFx::Created { .. } => {
                proof {
                    assert forall|h: u64|
                        invalidated_set(t1).contains(h) == invalidated_set(t0).contains(h) by {
                        if invalidated_set(t1).contains(h) {
                            let i = choose|i: int|
                                0 <= i < t1.len() && event_invalidates(t1[i], h);
                            assert(i < t0.len());
                            assert(event_invalidates(t0[i], h));
                        }
                        if invalidated_set(t0).contains(h) {
                            let i = choose|i: int|
                                0 <= i < t0.len() && event_invalidates(t0[i], h);
                            assert(event_invalidates(t1[i], h));
                        }
                    }
                    assert(invalidated_set(t1) =~= invalidated_set(t0));
                }
            },
            AssetEventFx::Modified { handle } => {
                image_bind_groups.values.remove(&handle);
                proof {
                    lemma_invalidate_step(m0, t0, t1, handle);
                }
            },
            AssetEventFx::Removed { handle } => {
                image_bind_groups.values.remove(&handle);
                proof {
                    lemma_invalidate_step(m0, t0, t1, handle);
                }
            },
        }
        e += 1;
    }
    proof {
        assert(events.images@.take(events.images@.len() as int) =~= events.images@);
    }
    let ghost inv = image_bind_groups.values@;
    if let Some(vb) = view_binding {
        particles_meta.view_bind_group = Some(BindGroup::View { binding: vb });
        let plain_id = pipelines.specialize(
            pipeline_cache,
            particles_pipeline,
            ParticlesPipelineKey { colored: false },
        );
        let colored_id = pipelines.specialize(
            pipeline_cache,
            particles_pipeline,
            ParticlesPipelineKey { colored: true },
        );
        if views.len() > 0 {
            // Create the missing per-texture bindings and build the items
            // every view receives.
            let mut new_items: Vec<Transparent2dItem> = Vec::new();
            let mut bi: usize = 0;
            proof {
                assert(batches@.take(0) =~= Seq::<ParticlesBatch>::empty());
            }
            while bi < batches.len()
                invariant
                    bi <= batches@.len(),
                    new_items@ == queued_items_model(
                        batches@.take(bi as int),
                        gpu_images@,
                        plain_id,
                        colored_id,
                        draw_function,
                    ),
                    forall|h: u64| #![trigger inv.dom().contains(h)]
                        inv.contains_key(h) ==> image_bind_groups.values@.contains_key(h)
                            && image_bind_groups.values@[h] == inv[h],
                    forall|h: u64| #![trigger batch_references(batches@.take(bi as int), h)]
                        !inv.contains_key(h) && batch_references(batches@.take(bi as int), h)
                            && gpu_images@.contains_key(h) ==> image_bind_groups.values@.contains_key(
                            h,
                        ) && image_bind_groups.values@[h] == (BindGroup::Material {
                            texture_view: gpu_images@[h].texture_view,
                            sampler: gpu_images@[h].sampler,
                        }),
                    forall|h: u64| #![trigger image_bind_groups.values@.dom().contains(h)]
                        image_bind_groups.values@.contains_key(h) ==> inv.contains_key(h) || (
                        batch_references(batches@.take(bi as int), h) && gpu_images@.contains_key(
                            h,
                        )),
                decreases batches@.len() - bi,
            {
                let ghost t0 = batches@.take(bi as int);
                let ghost t1 = batches@.take(bi as int + 1);
                proof {
                    assert(t1.drop_last() =~= t0);
                    assert(t1.last() == batches@[bi as int]);
                    lemma_batch_references_step(batches@, bi as int);
                }
                let b = &batches[bi];
                let ghost vals0 = image_bind_groups.values@;
                match gpu_images.get(&b.handle) {
                    Some(img) => {
                        proof {
                            assert(gpu_images@.contains_key(b.handle));
                            assert(gpu_images@[b.handle] == *img);
                        }
                        if !image_bind_groups.values.contains_key(&b.handle) {
                            proof {
                                assert(!vals0.contains_key(b.handle));
                            }
                            image_bind_groups.values.insert(
                                b.handle,
                                BindGroup::Material {
                                    texture_view: img.texture_view,
                                    sampler: img.sampler,
                                },
                            );
                            proof {
                                assert(image_bind_groups.values@ == vals0.insert(
                                    b.handle,
                                    (BindGroup::Material {
                                        texture_view: gpu_images@[b.handle].texture_view,
                                        sampler: gpu_images@[b.handle].sampler,
                                    }),
                                ));
                            }
                        } else {
                            proof {
                                assert(vals0.contains_key(b.handle));
                            }
                        }
                        new_items.push(
                            Transparent2dItem {
                                draw_function,
                                pipeline: if b.colored {
                                    colored_id
                                } else {
                                    plain_id
                                },
                                batch_index: bi,
                                sort_key: b.z,
                            },
                        );
                    },
                    None => {
                        proof {
                            assert(!gpu_images@.contains_key(b.handle));
                        }
                    },
                }
                proof {
                    let vals1 = image_bind_groups.values@;
                    assert forall|h: u64| #![trigger inv.dom().contains(h)]
                        inv.contains_key(h) implies vals1.contains_key(h) && vals1[h] == inv[h] by {
                        assert(inv.dom().contains(h));
                        assert(vals0.contains_key(h) && vals0[h] == inv[h]);
                    }
                    assert forall|h: u64| #![trigger batch_references(batches@.take(bi as int + 1), h)]
                        !inv.contains_key(h) && batch_references(t1, h)
                            && gpu_images@.contains_key(h) implies vals1.contains_key(h) && vals1[h]
                        == (BindGroup::Material {
                        texture_view: gpu_images@[h].texture_view,
                        sampler: gpu_images@[h].sampler,
                    }) by {
                        if batch_references(t0, h) {
                            assert(vals0.contains_key(h) && vals0[h] == (BindGroup::Material {
                                texture_view: gpu_images@[h].texture_view,
                                sampler: gpu_images@[h].sampler,
                            }));
                        } else {
                            assert(batches@[bi as int].handle == h);
                            assert(gpu_images@.contains_key(batches@[bi as int].handle));
                        }
                    }
                    assert forall|h: u64| #![trigger vals1.dom().contains(h)]
                        vals1.contains_key(h) implies inv.contains_key(h) || (batch_references(
                        t1,
                        h,
                    ) && gpu_images@.contains_key(h)) by {
                        if vals0.contains_key(h) {
                            assert(vals0.dom().contains(h));
                            assert(inv.contains_key(h) || (batch_references(t0, h)
                                && gpu_images@.contains_key(h)));
                        } else {
                            assert(batches@[bi as int].handle == h);
                            assert(batch_references(t1, h));
                        }
                    }
                }
                bi += 1;
            }
            proof {
                assert(batches@.take(batches@.len() as int) =~= batches@);
            }
            // Enqueue the items into every view's transparent list.
            let mut v: usize = 0;
            let ghost views0 = views@;
            let ghost qitems = new_items@;
            while v < views.len()
                invariant
                    v <= views@.len(),
                    views@.len() == views0.len(),
                    new_items@ == qitems,
                    forall|j: int|
                        0 <= j < v ==> (#[trigger] views@[j]).items@ == views0[j].items@ + qitems,
                    forall|j: int| v <= j < views@.len() ==> #[trigger] views@[j].items@ == views0[j].items@,
                decreases views@.len() - v,
            {
                let ghost views_pre = views@;
                let mut phase = views.remove(v);
                let ghost phase0 = phase.items@;
                let mut j: usize = 0;
                proof {
                    assert(phase0 + qitems.take(0) =~= phase0);
                }
                while j < new_items.len()
                    invariant
                        j <= qitems.len(),
                        new_items@ == qitems,
                        phase.items@ == phase0 + qitems.take(j as int),
                    decreases qitems.len() - j,
                {
                    phase.items.push(new_items[j]);
                    proof {
                        assert(phase0 + qitems.take(j as int + 1) =~= (phase0 + qitems.take(
                            j as int,
                        )).push(qitems[j as int]));
                    }
                    j += 1;
                }
                proof {
                    assert(qitems.take(qitems.len() as int) =~= qitems);
                }
                views.insert(v, phase);
                proof {
                    assert forall|k: int| 0 <= k < views@.len() && k != v implies views@[k]
                        == views_pre[k] by {
                        assert(views@ == views_pre.remove(v as int).insert(v as int, phase));
                    }
                    assert(views@[v as int] == phase);
                }
                v += 1;
            }
        }
    }
}

/// One invalidation step: removing a handle from the cache matches removing
/// it from the invalidated-key set of the event prefix.
proof fn lemma_invalidate_step(
    m0: Map<u64, BindGroup>,
    t0: Seq<AssetEventFx>,
    t1: Seq<AssetEventFx>,
    handle: u64,
)
    requires
        t1.len() == t0.len() + 1,
        forall|i: int| 0 <= i < t0.len() ==> t1[i] == #[trigger] t0[i],
        event_invalidates(t1[t1.len() - 1], handle),
        forall|h: u64| #[trigger] event_invalidates(t1[t1.len() - 1], h) ==> h == handle,
    ensures
        m0.remove_keys(invalidated_set(t0)).remove(handle) == m0.remove_keys(invalidated_set(t1)),
{
    assert forall|h: u64|
        invalidated_set(t1).contains(h) == (invalidated_set(t0).contains(h) || h == handle) by {
        if invalidated_set(t1).contains(h) {
            let i = choose|i: int| 0 <= i < t1.len() && event_invalidates(t1[i], h);
            if i < t0.len() {
                assert(event_invalidates(t0[i], h));
            }
        }
        if invalidated_set(t0).contains(h) {
            let i = choose|i: int| 0 <= i < t0.len() && event_invalidates(t0[i], h);
            assert(event_invalidates(t1[i], h));
        }
        if h == handle {
            assert(event_invalidates(t1[t1.len() - 1], h));
        }
    }
    assert(m0.remove_keys(invalidated_set(t0)).remove(handle) =~= m0.remove_keys(
        invalidated_set(t1),
    ));
}

} // verus!
