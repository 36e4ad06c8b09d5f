//! The batcher: sorts the extracted snapshot list by depth and texture,
//! merges adjacent snapshots that share texture handle and color mode into
//! contiguous vertex ranges, and packs each snapshot's quad into one of two
//! vertex buffers (plain or per-vertex-colored).

use vstd::prelude::*;
use crate::extract::{ExtractedParticle, ExtractedParticles};
use crate::fx::{COORD_LIMIT, FP, FP_HALF, fpmul, lemma_fpmul_bound, mul_fp};
use crate::gpu::BindGroup;
use crate::math::{
    RectFx, Vec2Fx, Vec3Fx, apply_mat, needs_color, pack_color, pack_color_spec, transform_point,
};
use crate::sort::{
    lemma_sort_model_elements, lemma_sort_model_len, lemma_sort_model_sorted, sort_model,
    sort_particles, sorted_by_key,
};

verus! {

/// A vertex of the plain layout: position and texture coordinates.
#[derive(Clone, Copy, Debug, PartialEq, Eq, Structural)]
pub struct ParticlesVertex {
    pub position: Vec3Fx,
    pub uv: Vec2Fx,
}

/// A vertex of the colored layout: position, texture coordinates and one
/// packed 32-bit color.
#[derive(Clone, Copy, Debug, PartialEq, Eq, Structural)]
pub struct ColoredParticlesVertex {
    pub position: Vec3Fx,
    pub uv: Vec2Fx,
    pub color: u32,
}

/// The frame's CPU-side vertex buffers and the view uniform binding record.
/// Both buffers are cleared and rewritten whole every frame.
#[derive(Clone, Debug)]
pub struct ParticlesMeta {
    pub vertices: Vec<ParticlesVertex>,
    pub colored_vertices: Vec<ColoredParticlesVertex>,
    pub view_bind_group: Option<BindGroup>,
}

impl Default for ParticlesMeta {
    /// Empty buffers, no view binding yet.
    fn default() -> (d: Self)
        ensures
            d.vertices@ == Seq::<ParticlesVertex>::empty(),
            d.colored_vertices@ == Seq::<ColoredParticlesVertex>::empty(),
            d.view_bind_group is None,
    {
        ParticlesMeta { vertices: Vec::new(), colored_vertices: Vec::new(), view_bind_group: None }
    }
}

/// One batch: a contiguous vertex range `[start, end)` in the buffer picked
/// by `colored`, one texture handle, and the depth key of its last snapshot.
#[derive(Clone, Copy, Debug, PartialEq, Eq, Structural)]
pub struct ParticlesBatch {
    pub start: usize,
    pub end: usize,
    pub handle: u64,
    pub z: i64,
    pub colored: bool,
}

/// Negative half unit, the low template corner coordinate.
pub const NEG_HALF: i64 = -524288;

/// Whether a snapshot needs the colored vertex layout: its color differs
/// from fully opaque white.
pub open spec fn snapshot_colored(p: ExtractedParticle) -> bool {
    !p.color.is_opaque_white()
}

/// Two adjacent snapshots merge into one batch exactly when they share the
/// texture handle and the color mode.
pub open spec fn same_group(a: ExtractedParticle, b: ExtractedParticle) -> bool {
    a.handle == b.handle && snapshot_colored(a) == snapshot_colored(b)
}

/// A quad template corner scaled by the snapshot's rectangle size.
pub open spec fn scaled_corner(tx: i64, ty: i64, r: RectFx) -> Vec3Fx {
    Vec3Fx {
        x: fpmul(tx as int, r.max.x - r.min.x) as i64,
        y: fpmul(ty as int, r.max.y - r.min.y) as i64,
        z: 0,
    }
}

/// One plain vertex of a snapshot's quad: the scaled template corner taken
/// through the snapshot's world transform, with the given texture
/// coordinates.
pub open spec fn plain_vertex(
    p: ExtractedParticle,
    tx: i64,
    ty: i64,
    u: i64,
    v: i64,
) -> ParticlesVertex {
    ParticlesVertex {
        position: apply_mat(p.transform, scaled_corner(tx, ty, p.rect)),
        uv: Vec2Fx { x: u, y: v },
    }
}

/// One colored vertex: as [`plain_vertex`], plus the packed color.
pub open spec fn colored_vertex(
    p: ExtractedParticle,
    tx: i64,
    ty: i64,
    u: i64,
    v: i64,
) -> ColoredParticlesVertex {
    ColoredParticlesVertex {
        position: apply_mat(p.transform, scaled_corner(tx, ty, p.rect)),
        uv: Vec2Fx { x: u, y: v },
        color: pack_color_spec(p.color) as u32,
    }
}

/// The two-triangle quad of one snapshot in the plain layout: six vertices,
/// corners in the fixed template order.
pub open spec fn quad_plain(p: ExtractedParticle) -> Seq<ParticlesVertex> {
    seq![
        plain_vertex(p, NEG_HALF, NEG_HALF, p.rect.min.x, p.rect.max.y),
        plain_vertex(p, FP_HALF, FP_HALF, p.rect.max.x, p.rect.min.y),
        plain_vertex(p, NEG_HALF, FP_HALF, p.rect.min.x, p.rect.min.y),
        plain_vertex(p, NEG_HALF, NEG_HALF, p.rect.min.x, p.rect.max.y),
        plain_vertex(p, FP_HALF, NEG_HALF, p.rect.max.x, p.rect.max.y),
        plain_vertex(p, FP_HALF, FP_HALF, p.rect.max.x, p.rect.min.y),
    ]
}

/// The quad of one snapshot in the colored layout.
pub open spec fn quad_colored(p: ExtractedParticle) -> Seq<ColoredParticlesVertex> {
    seq![
        colored_vertex(p, NEG_HALF, NEG_HALF, p.rect.min.x, p.rect.max.y),
        colored_vertex(p, FP_HALF, FP_HALF, p.rect.max.x, p.rect.min.y),
        colored_vertex(p, NEG_HALF, FP_HALF, p.rect.min.x, p.rect.min.y),
        colored_vertex(p, NEG_HALF, NEG_HALF, p.rect.min.x, p.rect.max.y),
        colored_vertex(p, FP_HALF, NEG_HALF, p.rect.max.x, p.rect.max.y),
        colored_vertex(p, FP_HALF, FP_HALF, p.rect.max.x, p.rect.min.y),
    ]
}

/// The full plain vertex buffer of a snapshot list: the quads of its
/// non-colored snapshots, concatenated in list order.
pub open spec fn plain_verts(s: Seq<ExtractedParticle>) -> Seq<ParticlesVertex>
    decreases s.len(),
{
    if s.len() == 0 {
        Seq::empty()
    } else if snapshot_colored(s.last()) {
        plain_verts(s.drop_last())
    } else {
        plain_verts(s.drop_last()) + quad_plain(s.last())
    }
}

/// The full colored vertex buffer of a snapshot list.
pub open spec fn colored_verts(s: Seq<ExtractedParticle>) -> Seq<ColoredParticlesVertex>
    decreases s.len(),
{
    if s.len() == 0 {
        Seq::empty()
    } else if snapshot_colored(s.last()) {
        colored_verts(s.drop_last()) + quad_colored(s.last())
    } else {
        colored_verts(s.drop_last())
    }
}

/// How many snapshots of a list fall into the given color mode.
pub open spec fn mode_count(s: Seq<ExtractedParticle>, colored: bool) -> int
    decreases s.len(),
{
    if s.len() == 0 {
        0
    } else {
        mode_count(s.drop_last(), colored) + if snapshot_colored(s.last()) == colored {
            1int
        } else {
            0int
        }
    }
}

/// Each buffer holds six vertices per snapshot of its mode, and the two
/// buffers together hold six vertices per snapshot: no quad is lost,
/// duplicated or split.
pub proof fn lemma_vertex_counts(s: Seq<ExtractedParticle>)
    ensures
        plain_verts(s).len() == 6 * mode_count(s, false),
        colored_verts(s).len() == 6 * mode_count(s, true),
        mode_count(s, false) + mode_count(s, true) == s.len(),
        0 <= mode_count(s, false),
        0 <= mode_count(s, true),
    decreases s.len(),
{
    if s.len() > 0 {
        lemma_vertex_counts(s.drop_last());
    }
}

/// Largest snapshot list the batcher accepts: six vertices per snapshot must
/// stay indexable on every platform.
pub const BATCH_INPUT_MAX: usize = 268435456;

/// The batches of a (sorted) snapshot list. A batch opens at the first
/// snapshot and wherever the texture handle or the color mode changes;
/// otherwise the last batch is extended by one quad and takes the snapshot's
/// depth key. Each batch's range indexes the buffer of its own mode.
pub open spec fn batches_model(s: Seq<ExtractedParticle>) -> Seq<ParticlesBatch>
    decreases s.len(),
{
    if s.len() == 0 {
        Seq::empty()
    } else {
        let rest = batches_model(s.drop_last());
        let p = s.last();
        let m = snapshot_colored(p);
        if s.len() == 1 || !same_group(s[s.len() - 2], p) {
            rest.push(
                ParticlesBatch {
                    start: (6 * mode_count(s.drop_last(), m)) as usize,
                    end: (6 * mode_count(s, m)) as usize,
                    handle: p.handle,
                    z: p.transform.w_axis.z,
                    colored: m,
                },
            )
        } else {
            rest.update(
                rest.len() - 1,
                ParticlesBatch {
                    end: (6 * mode_count(s, m)) as usize,
                    z: p.transform.w_axis.z,
                    ..rest.last()
                },
            )
        }
    }
}

/// How many positions of a list start a new batch: the first one, and every
/// one whose texture handle or color mode differs from its predecessor.
pub open spec fn boundary_count(s: Seq<ExtractedParticle>) -> int
    decreases s.len(),
{
    if s.len() == 0 {
        0
    } else {
        boundary_count(s.drop_last()) + if s.len() == 1 || !same_group(s[s.len() - 2], s.last()) {
            1int
        } else {
            0int
        }
    }
}

/// Batch boundaries occur at and only at points where the texture handle or
/// the color mode changes: the list produces exactly one batch per such
/// point.
pub proof fn lemma_batch_count(s: Seq<ExtractedParticle>)
    ensures
        batches_model(s).len() == boundary_count(s),
        0 <= boundary_count(s) <= s.len(),
        s.len() > 0 ==> boundary_count(s) >= 1,
    decreases s.len(),
{
    if s.len() > 0 {
        lemma_batch_count(s.drop_last());
    }
}

/// The ranges of the batches of one mode chain left to right through that
/// mode's buffer: the first starts at `from`, each next starts where the
/// previous ended.
pub open spec fn chained(bs: Seq<ParticlesBatch>, colored: bool, from: int) -> bool
    decreases bs.len(),
{
    if bs.len() == 0 {
        true
    } else if bs[0].colored == colored {
        bs[0].start == from && bs[0].start <= bs[0].end && chained(
            bs.skip(1),
            colored,
            bs[0].end as int,
        )
    } else {
        chained(bs.skip(1), colored, from)
    }
}

/// Where the chain of one mode's ranges ends.
pub open spec fn chain_end(bs: Seq<ParticlesBatch>, colored: bool, from: int) -> int
    decreases bs.len(),
{
    if bs.len() == 0 {
        from
    } else if bs[0].colored == colored {
        chain_end(bs.skip(1), colored, bs[0].end as int)
    } else {
        chain_end(bs.skip(1), colored, from)
    }
}

/// Appending a batch whose range starts at the chain's end keeps the chain.
proof fn lemma_chain_push(bs: Seq<ParticlesBatch>, colored: bool, from: int, b: ParticlesBatch)
    requires
        chained(bs, colored, from),
        b.colored == colored ==> b.start == chain_end(bs, colored, from) && b.start <= b.end,
    ensures
        chained(bs.push(b), colored, from),
        chain_end(bs.push(b), colored, from) == if b.colored == colored {
            b.end as int
        } else {
            chain_end(bs, colored, from)
        },
    decreases bs.len(),
{
    if bs.len() == 0 {
        let t = bs.push(b);
        assert(t.len() == 1);
        assert(t[0] == b);
        assert(t.skip(1) =~= Seq::<ParticlesBatch>::empty());
        assert(chained(t.skip(1), colored, b.end as int));
        assert(chained(t.skip(1), colored, from));
        assert(chain_end(t.skip(1), colored, b.end as int) == b.end as int);
        assert(chain_end(t.skip(1), colored, from) == from);
        if b.colored == colored {
            assert(b.start == from && b.start <= b.end);
            assert(chained(t, colored, from));
            assert(chain_end(t, colored, from) == b.end as int);
        } else {
            assert(chained(t, colored, from));
            assert(chain_end(t, colored, from) == from);
        }
    } else {

        assert(bs.push(b)[0] == bs[0]);
        assert(bs.push(b).skip(1) =~= bs.skip(1).push(b));
        if bs[0].colored == colored {
            lemma_chain_push(bs.skip(1), colored, bs[0].end as int, b);
        } else {
            lemma_chain_push(bs.skip(1), colored, from, b);
        }
    }
}

/// Growing the last batch's range (keeping its start and mode) keeps the
/// chain, and moves the chain's end of that mode to the new range end.
proof fn lemma_chain_update_last(
    bs: Seq<ParticlesBatch>,
    colored: bool,
    from: int,
    b2: ParticlesBatch,
)
    requires
        bs.len() > 0,
        chained(bs, colored, from),
        b2.colored == bs.last().colored,
        b2.start == bs.last().start,
        b2.start <= b2.end,
    ensures
        chained(bs.update(bs.len() - 1, b2), colored, from),
        chain_end(bs.update(bs.len() - 1, b2), colored, from) == if b2.colored == colored {
            b2.end as int
        } else {
            chain_end(bs, colored, from)
        },
    decreases bs.len(),
{
    let t = bs.update(bs.len() - 1, b2);
    if bs.len() == 1 {
        assert(t.len() == 1);
        assert(t[0] == b2);
        assert(bs.last() == bs[0]);
        assert(t.skip(1) =~= Seq::<ParticlesBatch>::empty());
        assert(bs.skip(1) =~= Seq::<ParticlesBatch>::empty());
        assert(chain_end(bs.skip(1), colored, bs[0].end as int) == bs[0].end as int);
        assert(chain_end(bs.skip(1), colored, from) == from);
        assert(chained(t.skip(1), colored, b2.end as int));
        assert(chained(t.skip(1), colored, from));
        assert(chain_end(t.skip(1), colored, b2.end as int) == b2.end as int);
        assert(chain_end(t.skip(1), colored, from) == from);
        if b2.colored == colored {
            assert(bs[0].start == from);
            assert(chained(t, colored, from));
            assert(chain_end(t, colored, from) == b2.end as int);
        } else {
            assert(chained(t, colored, from));
            assert(chain_end(t, colored, from) == from);
        }
    } else {
        assert(t.len() == bs.len());
        assert(t[0] == bs[0]);
        assert(t.skip(1) =~= bs.skip(1).update(bs.skip(1).len() - 1, b2));
        assert(bs.skip(1).last() == bs.last());
        if bs[0].colored == colored {
            lemma_chain_update_last(bs.skip(1), colored, bs[0].end as int, b2);
            assert(chained(t.skip(1), colored, bs[0].end as int));
            assert(chained(t, colored, from));
            assert(chain_end(t, colored, from) == chain_end(t.skip(1), colored, bs[0].end as int));
            assert(chain_end(bs, colored, from) == chain_end(
                bs.skip(1),
                colored,
                bs[0].end as int,
            ));
        } else {
            lemma_chain_update_last(bs.skip(1), colored, from, b2);
            assert(chained(t.skip(1), colored, from));
            assert(chained(t, colored, from));
            assert(chain_end(t, colored, from) == chain_end(t.skip(1), colored, from));
            assert(chain_end(bs, colored, from) == chain_end(bs.skip(1), colored, from));
        }
    }
}

/// The batch ranges of each mode partition that mode's vertex buffer: they
/// chain from zero, with no gaps or overlaps, and their union concatenated
/// in order reconstructs the full buffer. The last batch always describes
/// the list's last snapshot.
pub proof fn lemma_batches_partition(s: Seq<ExtractedParticle>)
    requires
        s.len() <= BATCH_INPUT_MAX,
    ensures
        chained(batches_model(s), false, 0),
        chained(batches_model(s), true, 0),
        chain_end(batches_model(s), false, 0) == plain_verts(s).len(),
        chain_end(batches_model(s), true, 0) == colored_verts(s).len(),
        s.len() > 0 ==> {
            let bs = batches_model(s);
            let m = snapshot_colored(s.last());
            &&& bs.len() > 0
            &&& bs.last().colored == m
            &&& bs.last().handle == s.last().handle
            &&& bs.last().z == s.last().transform.w_axis.z
            &&& bs.last().end == 6 * mode_count(s, m)
            &&& bs.last().start <= bs.last().end
        },
    decreases s.len(),
{
    lemma_vertex_counts(s);
    if s.len() > 0 {
        let dl = s.drop_last();
        lemma_batches_partition(dl);
        lemma_vertex_counts(dl);
        let rest = batches_model(dl);
        let p = s.last();
        let m = snapshot_colored(p);
        if s.len() == 1 || !same_group(s[s.len() - 2], p) {
            let b = ParticlesBatch {
                start: (6 * mode_count(dl, m)) as usize,
                end: (6 * mode_count(s, m)) as usize,
                handle: p.handle,
                z: p.transform.w_axis.z,
                colored: m,
            };
            if m {
                assert(b.start == chain_end(rest, true, 0));
            } else {
                assert(b.start == chain_end(rest, false, 0));
            }
            lemma_chain_push(rest, false, 0, b);
            lemma_chain_push(rest, true, 0, b);
        } else {
            assert(dl.last() == s[s.len() - 2]);
            let b2 = ParticlesBatch {
                end: (6 * mode_count(s, m)) as usize,
                z: p.transform.w_axis.z,
                ..rest.last()
            };
            lemma_chain_update_last(rest, false, 0, b2);
            lemma_chain_update_last(rest, true, 0, b2);
            assert(batches_model(s).last() == b2);
        }
    }
}

/// Compute one vertex position: the template corner scaled by the rectangle
/// size, then transformed.
fn corner_position(p: &ExtractedParticle, tx: i64, ty: i64) -> (r: Vec3Fx)
    requires
        p.wf(),
        tx == FP_HALF || tx == NEG_HALF,
        ty == FP_HALF || ty == NEG_HALF,
    ensures
        r == apply_mat(p.transform, scaled_corner(tx, ty, p.rect)),
{
    let w = p.rect.max.x - p.rect.min.x;
    let h = p.rect.max.y - p.rect.min.y;
    proof {
        assert(-COORD_LIMIT * (FP as int) <= (tx as int) * (w as int) <= COORD_LIMIT * (
        FP as int)) by (nonlinear_arith)
            requires
                NEG_HALF <= tx <= FP_HALF,
                -2 * COORD_LIMIT <= w <= 2 * COORD_LIMIT,
                FP_HALF * 2 * COORD_LIMIT == COORD_LIMIT * (FP as int),
        ;
        assert(-COORD_LIMIT * (FP as int) <= (ty as int) * (h as int) <= COORD_LIMIT * (
        FP as int)) by (nonlinear_arith)
            requires
                NEG_HALF <= ty <= FP_HALF,
                -2 * COORD_LIMIT <= h <= 2 * COORD_LIMIT,
                FP_HALF * 2 * COORD_LIMIT == COORD_LIMIT * (FP as int),
        ;
        lemma_fpmul_bound(tx as int, w as int, COORD_LIMIT as int);
        lemma_fpmul_bound(ty as int, h as int, COORD_LIMIT as int);
    }
    let scaled = Vec3Fx { x: mul_fp(tx, w), y: mul_fp(ty, h), z: 0 };
    transform_point(&p.transform, &scaled)
}

/// Append a snapshot's quad to the plain buffer.
fn push_plain_quad(vertices: &mut Vec<ParticlesVertex>, p: &ExtractedParticle)
    requires
        p.wf(),
    ensures
        final(vertices)@ == old(vertices)@ + quad_plain(*p),
{
    let bl = Vec2Fx { x: p.rect.min.x, y: p.rect.max.y };
    let tl = Vec2Fx { x: p.rect.min.x, y: p.rect.min.y };
    let tr = Vec2Fx { x: p.rect.max.x, y: p.rect.min.y };
    let br = Vec2Fx { x: p.rect.max.x, y: p.rect.max.y };
    vertices.push(ParticlesVertex { position: corner_position(p, NEG_HALF, NEG_HALF), uv: bl });
    vertices.push(ParticlesVertex { position: corner_position(p, FP_HALF, FP_HALF), uv: tr });
    vertices.push(ParticlesVertex { position: corner_position(p, NEG_HALF, FP_HALF), uv: tl });
    vertices.push(ParticlesVertex { position: corner_position(p, NEG_HALF, NEG_HALF), uv: bl });
    vertices.push(ParticlesVertex { position: corner_position(p, FP_HALF, NEG_HALF), uv: br });
    vertices.push(ParticlesVertex { position: corner_position(p, FP_HALF, FP_HALF), uv: tr });
    proof {
        assert(final(vertices)@ =~= old(vertices)@ + quad_plain(*p));
    }
}

/// Append a snapshot's quad to the colored buffer.
fn push_colored_quad(vertices: &mut Vec<ColoredParticlesVertex>, p: &ExtractedParticle)
    requires
        p.wf(),
    ensures
        final(vertices)@ == old(vertices)@ + quad_colored(*p),
{
    let color = pack_color(&p.color);
    let bl = Vec2Fx { x: p.rect.min.x, y: p.rect.max.y };
    let tl = Vec2Fx { x: p.rect.min.x, y: p.rect.min.y };
    let tr = Vec2Fx { x: p.rect.max.x, y: p.rect.min.y };
    let br = Vec2Fx { x: p.rect.max.x, y: p.rect.max.y };
    vertices.push(
        ColoredParticlesVertex { position: corner_position(p, NEG_HALF, NEG_HALF), uv: bl, color },
    );
    vertices.push(
        ColoredParticlesVertex { position: corner_position(p, FP_HALF, FP_HALF), uv: tr, color },
    );
    vertices.push(
        ColoredParticlesVertex { position: corner_position(p, NEG_HALF, FP_HALF), uv: tl, color },
    );
    vertices.push(
        ColoredParticlesVertex { position: corner_position(p, NEG_HALF, NEG_HALF), uv: bl, color },
    );
    vertices.push(
        ColoredParticlesVertex { position: corner_position(p, FP_HALF, NEG_HALF), uv: br, color },
    );
    vertices.push(
        ColoredParticlesVertex { position: corner_position(p, FP_HALF, FP_HALF), uv: tr, color },
    );
    proof {
        assert(final(vertices)@ =~= old(vertices)@ + quad_colored(*p));
    }
}

/// The batch the exec loop currently has open: its range lies in the buffer
/// of its mode and ends at that mode's write position.
pub open spec fn open_batch(
    start: usize,
    end: usize,
    colored_start: usize,
    colored_end: usize,
    handle: u64,
    z: i64,
    colored: bool,
) -> ParticlesBatch {
    ParticlesBatch {
        start: if colored {
            colored_start
        } else {
            start
        },
        end: if colored {
            colored_end
        } else {
            end
        },
        handle,
        z,
        colored,
    }
}

/// The batcher: sort the snapshot list in place by depth then texture, pack
/// each snapshot's quad into the plain or the colored vertex buffer, and
/// merge adjacent snapshots sharing texture handle and color mode into
/// batches. Both buffers are rebuilt whole; the trailing half-open batch is
/// flushed explicitly after the loop. The result is a pure function of the
/// input list.
pub fn prepare_particles(extracted: &mut ExtractedParticles, meta: &mut ParticlesMeta) -> (batches:
    Vec<ParticlesBatch>)
    requires
        old(extracted).particles@.len() <= BATCH_INPUT_MAX,
        forall|k: int|
            0 <= k < old(extracted).particles@.len() ==> (#[trigger] old(
                extracted,
            ).particles@[k]).wf(),
    ensures
        final(extracted).particles@ == sort_model(old(extracted).particles@),
        sorted_by_key(final(extracted).particles@),
        final(meta).vertices@ == plain_verts(sort_model(old(extracted).particles@)),
        final(meta).colored_vertices@ == colored_verts(sort_model(old(extracted).particles@)),
        final(meta).view_bind_group == old(meta).view_bind_group,
        batches@ == batches_model(sort_model(old(extracted).particles@)),
        final(meta).vertices@.len() + final(meta).colored_vertices@.len() == 6 * old(
            extracted,
        ).particles@.len(),
        chained(batches@, false, 0),
        chained(batches@, true, 0),
        chain_end(batches@, false, 0) == final(meta).vertices@.len(),
        chain_end(batches@, true, 0) == final(meta).colored_vertices@.len(),
        batches@.len() == boundary_count(sort_model(old(extracted).particles@)),
{
    proof {
        let sm = sort_model(old(extracted).particles@);
        lemma_sort_model_sorted(old(extracted).particles@);
        lemma_sort_model_len(old(extracted).particles@);
        lemma_vertex_counts(sm);
        lemma_batches_partition(sm);
        lemma_batch_count(sm);
    }
    sort_particles(&mut extracted.particles);
    proof {
        lemma_sort_model_len(old(extracted).particles@);
        lemma_sort_model_elements(old(extracted).particles@);
    }
    let ghost sorted = extracted.particles@;
    proof {
        assert forall|k: int| 0 <= k < sorted.len() implies (#[trigger] sorted[k]).wf() by {
            assert(old(extracted).particles@.contains(sorted[k]));
        }
    }
    meta.vertices.clear();
    meta.colored_vertices.clear();
    let n = extracted.particles.len();
    let mut batches: Vec<ParticlesBatch> = Vec::new();
    let mut start: usize = 0;
    let mut end: usize = 0;
    let mut colored_start: usize = 0;
    let mut colored_end: usize = 0;
    let mut cur_handle: u64 = 0;
    let mut cur_colored: bool = false;
    let mut last_z: i64 = 0;
    let mut i: usize = 0;
    proof {
        assert(sorted.take(0) =~= Seq::<ExtractedParticle>::empty());
    }
    while i < n
        invariant
            i <= n,
            n == sorted.len(),
            sorted.len() <= BATCH_INPUT_MAX,
            extracted.particles@ == sorted,
            forall|k: int| 0 <= k < sorted.len() ==> (#[trigger] sorted[k]).wf(),
            meta.vertices@ == plain_verts(sorted.take(i as int)),
            meta.colored_vertices@ == colored_verts(sorted.take(i as int)),
            meta.view_bind_group == old(meta).view_bind_group,
            end as int == 6 * mode_count(sorted.take(i as int), false),
            colored_end as int == 6 * mode_count(sorted.take(i as int), true),
            start <= end,
            colored_start <= colored_end,
            i == 0 ==> batches@ == Seq::<ParticlesBatch>::empty() && start == 0 && colored_start
                == 0,
            i > 0 ==> cur_handle == sorted[i - 1].handle && cur_colored == snapshot_colored(
                sorted[i - 1],
            ) && last_z == sorted[i - 1].transform.w_axis.z && (cur_colored ==> start == end) && (
            (!cur_colored) ==> colored_start == colored_end) && batches_model(sorted.take(i as int))
                == batches@.push(
                open_batch(start, end, colored_start, colored_end, cur_handle, last_z, cur_colored),
            ),
        decreases n - i,
    {
        let ghost take_i = sorted.take(i as int);
        let ghost t1 = sorted.take(i as int + 1);
        proof {
            lemma_vertex_counts(take_i);
            lemma_vertex_counts(t1);
            assert(t1.drop_last() =~= take_i);
            assert(t1.last() == sorted[i as int]);
        }
        let p = extracted.particles[i];
        let colored = needs_color(&p.color);
        let ghost m = snapshot_colored(sorted[i as int]);
        let ghost open0 = open_batch(
            start,
            end,
            colored_start,
            colored_end,
            cur_handle,
            last_z,
            cur_colored,
        );
        let ghost batches0 = batches@;
        if i > 0 && (cur_handle != p.handle || cur_colored != colored) {
            let b = ParticlesBatch {
                start: if cur_colored {
                    colored_start
                } else {
                    start
                },
                end: if cur_colored {
                    colored_end
                } else {
                    end
                },
                handle: cur_handle,
                z: last_z,
                colored: cur_colored,
            };
            proof {
                assert(b == open0);
            }
            batches.push(b);
            if cur_colored {
                colored_start = colored_end;
            } else {
                start = end;
            }
        }
        cur_handle = p.handle;
        cur_colored = colored;
        last_z = p.transform.w_axis.z;
        if colored {
            push_colored_quad(&mut meta.colored_vertices, &p);
            colored_end = colored_end + 6;
        } else {
            push_plain_quad(&mut meta.vertices, &p);
            end = end + 6;
        }
        proof {
            let open1 = open_batch(
                start,
                end,
                colored_start,
                colored_end,
                cur_handle,
                last_z,
                cur_colored,
            );
            if i == 0 {
                assert(batches_model(t1) == batches_model(take_i).push(
                    ParticlesBatch {
                        start: (6 * mode_count(take_i, m)) as usize,
                        end: (6 * mode_count(t1, m)) as usize,
                        handle: sorted[0].handle,
                        z: sorted[0].transform.w_axis.z,
                        colored: m,
                    },
                ));
                assert(batches_model(t1) == batches@.push(open1));
            } else {
                assert(t1[t1.len() - 2] == sorted[i as int - 1]);
                if !same_group(sorted[i as int - 1], sorted[i as int]) {
                    let nb = ParticlesBatch {
                        start: (6 * mode_count(take_i, m)) as usize,
                        end: (6 * mode_count(t1, m)) as usize,
                        handle: sorted[i as int].handle,
                        z: sorted[i as int].transform.w_axis.z,
                        colored: m,
                    };
                    assert(batches_model(t1) == batches_model(take_i).push(nb));
                    assert(batches@ == batches0.push(open0));
                    assert(open1 == nb);
                    assert(batches_model(take_i) == batches@);
                    assert(batches_model(t1) == batches@.push(open1));
                } else {
                    let bm = batches_model(take_i);
                    let b2 = ParticlesBatch {
                        end: (6 * mode_count(t1, m)) as usize,
                        z: sorted[i as int].transform.w_axis.z,
                        ..bm.last()
                    };
                    assert(batches_model(t1) == bm.update(bm.len() - 1, b2));
                    assert(bm == batches0.push(open0));
                    assert(bm.last() == open0);
                    assert(bm.update(bm.len() - 1, b2) =~= batches0.push(b2));
                    assert(b2 == open1);
                    assert(batches_model(t1) == batches@.push(open1));
                }
            }
        }
        i += 1;
    }
    proof {
        assert(sorted.take(n as int) =~= sorted);
    }
    if n > 0 {
        let b = ParticlesBatch {
            start: if cur_colored {
                colored_start
            } else {
                start
            },
            end: if cur_colored {
                colored_end
            } else {
                end
            },
            handle: cur_handle,
            z: last_z,
            colored: cur_colored,
        };
        batches.push(b);
    }
    batches
}

} // verus!
