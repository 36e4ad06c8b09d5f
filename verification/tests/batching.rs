//! Tests of extraction, sorting, vertex packing and batch merging.

use hanabi::batch::{prepare_particles, ParticlesBatch, ParticlesMeta};
use hanabi::extract::{
    extract_particles, extract_particles_events, AssetEventFx, ExtractedParticle,
    ExtractedParticles, ParticleInput, ParticlesAssetEvents, RECT_SIZE,
};
use hanabi::fx::FP;
use hanabi::math::{pack_color, ColorFx, Mat4Fx, RectFx, Vec2Fx, Vec3Fx};

fn vec3(x: i64, y: i64, z: i64) -> Vec3Fx {
    Vec3Fx { x, y, z }
}

fn identity_at(x: i64, y: i64, z: i64) -> Mat4Fx {
    Mat4Fx {
        x_axis: vec3(FP, 0, 0),
        y_axis: vec3(0, FP, 0),
        z_axis: vec3(0, 0, FP),
        w_axis: vec3(x, y, z),
    }
}

fn white() -> ColorFx {
    ColorFx { red: FP, green: FP, blue: FP, alpha: FP }
}

fn red() -> ColorFx {
    ColorFx { red: FP, green: 0, blue: 0, alpha: FP }
}

fn snapshot(handle: u64, z: i64, color: ColorFx) -> ExtractedParticle {
    ExtractedParticle {
        transform: identity_at(0, 0, z),
        color,
        rect: RectFx {
            min: Vec2Fx { x: 0, y: 0 },
            max: Vec2Fx { x: RECT_SIZE, y: RECT_SIZE },
        },
        handle,
    }
}

fn batch_of(v: Vec<ExtractedParticle>) -> (ParticlesMeta, Vec<ParticlesBatch>) {
    let mut extracted = ExtractedParticles { particles: v };
    let mut meta = ParticlesMeta::default();
    let batches = prepare_particles(&mut extracted, &mut meta);
    (meta, batches)
}

#[test]
fn extract_keeps_only_visible_loaded_entities() {
    let inputs = vec![
        ParticleInput { visible: true, image_loaded: true, transform: identity_at(1, 0, 0), handle: 10 },
        ParticleInput { visible: false, image_loaded: true, transform: identity_at(2, 0, 0), handle: 11 },
        ParticleInput { visible: true, image_loaded: false, transform: identity_at(3, 0, 0), handle: 12 },
        ParticleInput { visible: true, image_loaded: true, transform: identity_at(4, 0, 0), handle: 13 },
    ];
    let mut extracted = ExtractedParticles { particles: vec![snapshot(99, 0, white())] };
    extract_particles(&inputs, &mut extracted);
    assert_eq!(extracted.particles.len(), 2);
    assert_eq!(extracted.particles[0].handle, 10);
    assert_eq!(extracted.particles[1].handle, 13);
    // Every snapshot carries the fixed red color and the fixed quad rect.
    assert_eq!(extracted.particles[0].color, red());
    assert_eq!(extracted.particles[0].rect.max, Vec2Fx { x: RECT_SIZE, y: RECT_SIZE });
}

#[test]
fn events_are_relayed_verbatim() {
    let incoming = vec![
        AssetEventFx::Created { handle: 1 },
        AssetEventFx::Modified { handle: 2 },
        AssetEventFx::Removed { handle: 3 },
    ];
    let mut events = ParticlesAssetEvents { images: vec![AssetEventFx::Created { handle: 9 }] };
    extract_particles_events(&incoming, &mut events);
    assert_eq!(events.images, incoming);
}

#[test]
fn two_snapshots_same_depth_batch_by_texture() {
    // Two snapshots with identical depth 0.0, textures A then B: one batch
    // for A (six vertices), one for B (six vertices), in that order.
    let a = snapshot(1, 0, white());
    let b = snapshot(2, 0, white());
    let (meta, batches) = batch_of(vec![a, b]);
    assert_eq!(batches.len(), 2);
    assert_eq!(batches[0], ParticlesBatch { start: 0, end: 6, handle: 1, z: 0, colored: false });
    assert_eq!(batches[1], ParticlesBatch { start: 6, end: 12, handle: 2, z: 0, colored: false });
    assert_eq!(meta.vertices.len(), 12);
    assert_eq!(meta.colored_vertices.len(), 0);
}

#[test]
fn three_textures_alternating_modes() {
    // Three distinct textures, a plain and a colored snapshot each: every
    // adjacent pair differs in texture or mode, so six batches result, and
    // each mode's ranges chain through its own buffer without gaps.
    let input = vec![
        snapshot(3, 0, white()),
        snapshot(1, 0, white()),
        snapshot(2, 0, white()),
        snapshot(1, 0, red()),
        snapshot(3, 0, red()),
        snapshot(2, 0, red()),
    ];
    let (meta, batches) = batch_of(input);
    assert_eq!(batches.len(), 6);
    // Sorted by handle (depths tie), stable within a handle.
    assert_eq!(batches[0], ParticlesBatch { start: 0, end: 6, handle: 1, z: 0, colored: false });
    assert_eq!(batches[1], ParticlesBatch { start: 0, end: 6, handle: 1, z: 0, colored: true });
    assert_eq!(batches[2], ParticlesBatch { start: 6, end: 12, handle: 2, z: 0, colored: false });
    assert_eq!(batches[3], ParticlesBatch { start: 6, end: 12, handle: 2, z: 0, colored: true });
    assert_eq!(batches[4], ParticlesBatch { start: 12, end: 18, handle: 3, z: 0, colored: false });
    assert_eq!(batches[5], ParticlesBatch { start: 12, end: 18, handle: 3, z: 0, colored: true });
    assert_eq!(meta.vertices.len(), 18);
    assert_eq!(meta.colored_vertices.len(), 18);
}

#[test]
fn vertex_count_is_six_per_snapshot() {
    let input = vec![
        snapshot(1, 5, white()),
        snapshot(1, 5, red()),
        snapshot(2, -3, white()),
        snapshot(2, 1, white()),
        snapshot(7, 0, red()),
    ];
    let n = input.len();
    let (meta, batches) = batch_of(input);
    assert_eq!(meta.vertices.len() + meta.colored_vertices.len(), 6 * n);
    // The union of the ranges, concatenated in order, reconstructs each
    // buffer with no gaps or overlaps.
    let mut plain_pos = 0;
    let mut colored_pos = 0;
    for b in &batches {
        if b.colored {
            assert_eq!(b.start, colored_pos);
            colored_pos = b.end;
        } else {
            assert_eq!(b.start, plain_pos);
            plain_pos = b.end;
        }
    }
    assert_eq!(plain_pos, meta.vertices.len());
    assert_eq!(colored_pos, meta.colored_vertices.len());
}

#[test]
fn adjacent_same_texture_same_mode_merge() {
    let (meta, batches) = batch_of(vec![snapshot(4, -1, white()), snapshot(4, 2, white())]);
    assert_eq!(batches.len(), 1);
    // The merged batch spans both quads and takes the depth of its last
    // snapshot.
    assert_eq!(batches[0], ParticlesBatch { start: 0, end: 12, handle: 4, z: 2, colored: false });
    assert_eq!(meta.vertices.len(), 12);
}

#[test]
fn sort_is_by_depth_then_texture() {
    let input = vec![snapshot(9, 5, white()), snapshot(1, 5, white()), snapshot(3, -2, white())];
    let (_, batches) = batch_of(input);
    assert_eq!(batches.len(), 3);
    assert_eq!((batches[0].z, batches[0].handle), (-2, 3));
    assert_eq!((batches[1].z, batches[1].handle), (5, 1));
    assert_eq!((batches[2].z, batches[2].handle), (5, 9));
}

#[test]
fn empty_snapshot_list_produces_nothing() {
    let (meta, batches) = batch_of(Vec::new());
    assert_eq!(batches.len(), 0);
    assert_eq!(meta.vertices.len(), 0);
    assert_eq!(meta.colored_vertices.len(), 0);
}

#[test]
fn quad_vertices_of_identity_transform() {
    let (meta, _) = batch_of(vec![snapshot(1, 0, white())]);
    assert_eq!(meta.vertices.len(), 6);
    // Corner offsets: half the rect size, floored; the rect spans
    // [0, RECT_SIZE] in both axes.
    let lo = -104858; // floor(-RECT_SIZE / 2) in fixed point
    let hi = 104857; // floor(RECT_SIZE / 2)
    let v = &meta.vertices;
    assert_eq!(v[0].position, vec3(lo, lo, 0));
    assert_eq!(v[1].position, vec3(hi, hi, 0));
    assert_eq!(v[2].position, vec3(lo, hi, 0));
    assert_eq!(v[3].position, vec3(lo, lo, 0));
    assert_eq!(v[4].position, vec3(hi, lo, 0));
    assert_eq!(v[5].position, vec3(hi, hi, 0));
    // Texture coordinates walk the rect corners in template order.
    assert_eq!(v[0].uv, Vec2Fx { x: 0, y: RECT_SIZE });
    assert_eq!(v[1].uv, Vec2Fx { x: RECT_SIZE, y: 0 });
    assert_eq!(v[2].uv, Vec2Fx { x: 0, y: 0 });
    assert_eq!(v[5].uv, Vec2Fx { x: RECT_SIZE, y: 0 });
}

#[test]
fn translation_moves_quad_vertices() {
    let mut s = snapshot(1, 0, white());
    s.transform = identity_at(10 * FP, 20 * FP, 0);
    let (meta, _) = batch_of(vec![s]);
    assert_eq!(meta.vertices[0].position, vec3(10 * FP - 104858, 20 * FP - 104858, 0));
}

#[test]
fn packed_color_quantizes_channels() {
    // Opaque red: 255 in the lowest byte, 255 alpha in the highest.
    assert_eq!(pack_color(&red()), 255 + (255 << 24));
    // Half green: floor(0.5 * 255) = 127 in the second byte.
    let c = ColorFx { red: 0, green: FP / 2, blue: 0, alpha: FP };
    assert_eq!(pack_color(&c), (127 << 8) + (255 << 24));
    assert_eq!(pack_color(&white()), u32::MAX);
}

#[test]
fn colored_quads_carry_packed_color() {
    let (meta, batches) = batch_of(vec![snapshot(1, 0, red())]);
    assert_eq!(batches.len(), 1);
    assert!(batches[0].colored);
    assert_eq!(meta.colored_vertices.len(), 6);
    for v in &meta.colored_vertices {
        assert_eq!(v.color, 255 + (255 << 24));
    }
}
