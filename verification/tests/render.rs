//! Tests of the pipeline resolver, the queue stage and draw execution,
//! including the full extraction -> batching -> draw round trip.

use std::collections::HashMap;

use hanabi::batch::{prepare_particles, ParticlesBatch, ParticlesMeta};
use hanabi::draw::{DrawParticles, RenderCommand, TrackedRenderPass};
use hanabi::extract::{
    extract_particles, AssetEventFx, ExtractedParticles, ParticleInput, ParticlesAssetEvents,
};
use hanabi::fx::FP;
use hanabi::gpu::{BindGroup, GpuImage};
use hanabi::math::{Mat4Fx, Vec3Fx};
use hanabi::pipeline::{
    ParticlesPipeline, ParticlesPipelineKey, RenderPipelineCache, SpecializedPipelines,
    VertexFormatFx,
};
use hanabi::queue::{queue_particles, ImageBindGroups, RenderPhase};

fn identity_at(x: i64, y: i64, z: i64) -> Mat4Fx {
    Mat4Fx {
        x_axis: Vec3Fx { x: FP, y: 0, z: 0 },
        y_axis: Vec3Fx { x: 0, y: FP, z: 0 },
        z_axis: Vec3Fx { x: 0, y: 0, z: FP },
        w_axis: Vec3Fx { x, y, z },
    }
}

fn gpu_image(n: u64) -> GpuImage {
    GpuImage { texture_view: 100 + n, sampler: 200 + n }
}

#[test]
fn pipeline_layouts() {
    let p = ParticlesPipeline::new();
    assert_eq!(p.view_layout.entries.len(), 1);
    assert_eq!(p.view_layout.entries[0].binding, 0);
    assert!(p.view_layout.entries[0].vertex_visible);
    assert_eq!(p.material_layout.entries.len(), 2);
    assert_eq!(p.material_layout.entries[0].binding, 0);
    assert_eq!(p.material_layout.entries[1].binding, 1);
}

#[test]
fn specialize_plain_and_colored_layouts() {
    let p = ParticlesPipeline::new();
    let plain = p.specialize(ParticlesPipelineKey { colored: false });
    assert_eq!(plain.vertex_layout.array_stride, 20);
    assert_eq!(plain.vertex_layout.attributes.len(), 2);
    assert!(!plain.colored);
    let colored = p.specialize(ParticlesPipelineKey { colored: true });
    assert_eq!(colored.vertex_layout.array_stride, 24);
    assert_eq!(colored.vertex_layout.attributes.len(), 3);
    assert_eq!(colored.vertex_layout.attributes[2].format, VertexFormatFx::Uint32);
    assert_eq!(colored.vertex_layout.attributes[2].offset, 20);
    assert_eq!(colored.vertex_layout.attributes[2].shader_location, 2);
    assert!(colored.colored);
}

#[test]
fn specialization_cache_never_recomputes() {
    let p = ParticlesPipeline::new();
    let mut sp = SpecializedPipelines::default();
    let mut cache = RenderPipelineCache::new();
    let a = sp.specialize(&mut cache, &p, ParticlesPipelineKey { colored: false });
    let b = sp.specialize(&mut cache, &p, ParticlesPipelineKey { colored: true });
    assert_eq!(a, 0);
    assert_eq!(b, 1);
    assert_eq!(cache.pipelines.len(), 2);
    // Asking again returns the cached identifiers and builds nothing new.
    assert_eq!(sp.specialize(&mut cache, &p, ParticlesPipelineKey { colored: false }), 0);
    assert_eq!(sp.specialize(&mut cache, &p, ParticlesPipelineKey { colored: true }), 1);
    assert_eq!(cache.pipelines.len(), 2);
}

struct QueueHarness {
    meta: ParticlesMeta,
    pipeline: ParticlesPipeline,
    pipelines: SpecializedPipelines,
    cache: RenderPipelineCache,
    bind_groups: ImageBindGroups,
    gpu_images: HashMap<u64, GpuImage>,
    views: Vec<RenderPhase>,
    events: ParticlesAssetEvents,
}

impl QueueHarness {
    fn new(nviews: usize) -> Self {
        let mut gpu_images = HashMap::new();
        gpu_images.insert(1, gpu_image(1));
        gpu_images.insert(2, gpu_image(2));
        let mut views = Vec::new();
        for _ in 0..nviews {
            views.push(RenderPhase { items: Vec::new() });
        }
        QueueHarness {
            meta: ParticlesMeta::default(),
            pipeline: ParticlesPipeline::new(),
            pipelines: SpecializedPipelines::default(),
            cache: RenderPipelineCache::new(),
            bind_groups: ImageBindGroups::new(),
            gpu_images,
            views,
            events: ParticlesAssetEvents { images: Vec::new() },
        }
    }

    fn run(&mut self, view_binding: Option<u64>, batches: &Vec<ParticlesBatch>) {
        queue_particles(
            &mut self.meta,
            view_binding,
            &self.pipeline,
            &mut self.pipelines,
            &mut self.cache,
            &mut self.bind_groups,
            &self.gpu_images,
            batches,
            &mut self.views,
            &self.events,
            42,
        );
    }
}

fn plain_batch(handle: u64, start: usize, end: usize, z: i64) -> ParticlesBatch {
    ParticlesBatch { start, end, handle, z, colored: false }
}

#[test]
fn queue_enqueues_each_batch_once_per_view() {
    let mut h = QueueHarness::new(2);
    let batches = vec![
        plain_batch(1, 0, 6, -3),
        ParticlesBatch { start: 0, end: 6, handle: 2, z: 4, colored: true },
    ];
    h.run(Some(7), &batches);
    assert_eq!(h.meta.view_bind_group, Some(BindGroup::View { binding: 7 }));
    for phase in &h.views {
        assert_eq!(phase.items.len(), 2);
        assert_eq!(phase.items[0].batch_index, 0);
        assert_eq!(phase.items[0].pipeline, 0);
        assert_eq!(phase.items[0].sort_key, -3);
        assert_eq!(phase.items[0].draw_function, 42);
        assert_eq!(phase.items[1].batch_index, 1);
        assert_eq!(phase.items[1].pipeline, 1);
        assert_eq!(phase.items[1].sort_key, 4);
    }
    // One material binding per referenced texture.
    assert_eq!(
        h.bind_groups.values.get(&1),
        Some(&BindGroup::Material { texture_view: 101, sampler: 201 })
    );
    assert_eq!(
        h.bind_groups.values.get(&2),
        Some(&BindGroup::Material { texture_view: 102, sampler: 202 })
    );
}

#[test]
fn queue_skips_batches_without_gpu_image() {
    let mut h = QueueHarness::new(1);
    let batches = vec![plain_batch(1, 0, 6, 0), plain_batch(9, 6, 12, 0)];
    h.run(Some(7), &batches);
    assert_eq!(h.views[0].items.len(), 1);
    assert_eq!(h.views[0].items[0].batch_index, 0);
    assert!(h.bind_groups.values.get(&9).is_none());
}

#[test]
fn queue_without_view_binding_queues_nothing() {
    let mut h = QueueHarness::new(1);
    let batches = vec![plain_batch(1, 0, 6, 0)];
    h.run(None, &batches);
    assert_eq!(h.views[0].items.len(), 0);
    assert!(h.bind_groups.values.is_empty());
    assert_eq!(h.meta.view_bind_group, None);
}

#[test]
fn modified_event_recreates_binding() {
    let mut h = QueueHarness::new(1);
    let batches = vec![plain_batch(1, 0, 6, 0)];
    h.run(Some(7), &batches);
    assert!(h.bind_groups.values.contains_key(&1));
    // The texture changes on the GPU side; a modified notification must
    // drop the stale binding so it is rebuilt from the new image.
    h.gpu_images.insert(1, GpuImage { texture_view: 900, sampler: 901 });
    h.events.images.push(AssetEventFx::Modified { handle: 1 });
    h.run(Some(7), &batches);
    assert_eq!(
        h.bind_groups.values.get(&1),
        Some(&BindGroup::Material { texture_view: 900, sampler: 901 })
    );
}

#[test]
fn created_event_requires_no_action() {
    let mut h = QueueHarness::new(1);
    let batches = vec![plain_batch(1, 0, 6, 0)];
    h.run(Some(7), &batches);
    let before = *h.bind_groups.values.get(&1).unwrap();
    h.gpu_images.insert(1, GpuImage { texture_view: 900, sampler: 901 });
    h.events.images.push(AssetEventFx::Created { handle: 1 });
    h.run(Some(7), &batches);
    // The cached binding is kept: created notifications invalidate nothing.
    assert_eq!(*h.bind_groups.values.get(&1).unwrap(), before);
}

#[test]
fn removed_event_drops_binding_of_unreferenced_texture() {
    let mut h = QueueHarness::new(1);
    let batches = vec![plain_batch(1, 0, 6, 0), plain_batch(2, 6, 12, 0)];
    h.run(Some(7), &batches);
    assert!(h.bind_groups.values.contains_key(&2));
    h.events.images.push(AssetEventFx::Removed { handle: 2 });
    h.run(Some(7), &vec![plain_batch(1, 0, 6, 0)]);
    assert!(h.bind_groups.values.contains_key(&1));
    assert!(!h.bind_groups.values.contains_key(&2));
}

fn count_draw_calls(pass: &TrackedRenderPass) -> usize {
    pass.commands
        .iter()
        .filter(|c| matches!(c, RenderCommand::Draw { .. }))
        .count()
}

#[test]
fn draw_records_one_draw_call() {
    let mut h = QueueHarness::new(1);
    let batches = vec![plain_batch(1, 0, 6, 0)];
    h.run(Some(7), &batches);
    let mut pass = TrackedRenderPass::new();
    let mut drawer = DrawParticles::new();
    let item = h.views[0].items[0];
    drawer.draw(&h.meta, &h.bind_groups, &h.cache, &batches[0], &item, 16, &mut pass);
    assert_eq!(
        pass.commands,
        vec![
            RenderCommand::SetRenderPipeline { id: 0 },
            RenderCommand::SetVertexBuffer { colored: false },
            RenderCommand::SetBindGroup {
                index: 0,
                group: BindGroup::View { binding: 7 },
                dynamic_offset: Some(16),
            },
            RenderCommand::SetBindGroup {
                index: 1,
                group: BindGroup::Material { texture_view: 101, sampler: 201 },
                dynamic_offset: None,
            },
            RenderCommand::Draw { start: 0, end: 6 },
        ]
    );
    assert_eq!(count_draw_calls(&pass), 1);
}

#[test]
fn draw_skips_unresolved_pipeline() {
    let h = QueueHarness::new(1);
    let mut pass = TrackedRenderPass::new();
    let mut drawer = DrawParticles::new();
    let batch = plain_batch(1, 0, 6, 0);
    let item = hanabi::queue::Transparent2dItem {
        draw_function: 42,
        pipeline: 5, // never built
        batch_index: 0,
        sort_key: 0,
    };
    drawer.draw(&h.meta, &h.bind_groups, &h.cache, &batch, &item, 0, &mut pass);
    assert!(pass.commands.is_empty());
}

#[test]
fn round_trip_one_draw_call_per_batch() {
    // Extraction -> batching -> queue -> simulated draw: exactly one draw
    // call per batch.
    let inputs = vec![
        ParticleInput { visible: true, image_loaded: true, transform: identity_at(0, 0, 5), handle: 1 },
        ParticleInput { visible: true, image_loaded: true, transform: identity_at(0, 0, -1), handle: 2 },
        ParticleInput { visible: true, image_loaded: true, transform: identity_at(0, 0, 5), handle: 1 },
    ];
    let mut extracted = ExtractedParticles { particles: Vec::new() };
    extract_particles(&inputs, &mut extracted);
    let mut h = QueueHarness::new(1);
    let batches = prepare_particles(&mut extracted, &mut h.meta);
    // Handle 2 at depth -1 sorts first; the two handle-1 snapshots merge.
    assert_eq!(batches.len(), 2);
    h.run(Some(3), &batches);
    assert_eq!(h.views[0].items.len(), 2);
    let mut pass = TrackedRenderPass::new();
    let mut drawer = DrawParticles::new();
    let items: Vec<_> = h.views[0].items.clone();
    for item in &items {
        drawer.draw(
            &h.meta,
            &h.bind_groups,
            &h.cache,
            &batches[item.batch_index],
            item,
            0,
            &mut pass,
        );
    }
    assert_eq!(count_draw_calls(&pass), batches.len());
}

#[test]
fn round_trip_empty_list_draws_nothing() {
    let mut extracted = ExtractedParticles { particles: Vec::new() };
    extract_particles(&Vec::new(), &mut extracted);
    let mut h = QueueHarness::new(1);
    let batches = prepare_particles(&mut extracted, &mut h.meta);
    assert!(batches.is_empty());
    h.run(Some(3), &batches);
    assert!(h.views[0].items.is_empty());
}
