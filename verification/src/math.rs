//! Fixed-point vectors, affine transforms, rectangles and colors.

use vstd::prelude::*;
use crate::fx::{COORD_LIMIT, FP, PROD_LIMIT, fpmul, mul_fp};
use vstd::arithmetic::div_mod::lemma_fundamental_div_mod;

verus! {

/// Bound on a coordinate produced by [`transform_point`]:
/// `3 * MUL_RESULT_LIMIT + COORD_LIMIT`.
pub const VERT_LIMIT: i64 = 13196287016960;

/// A two-component fixed-point vector.
#[derive(Clone, Copy, Debug, PartialEq, Eq, Structural)]
pub struct Vec2Fx {
    pub x: i64,
    pub y: i64,
}

/// A three-component fixed-point vector.
#[derive(Clone, Copy, Debug, PartialEq, Eq, Structural)]
pub struct Vec3Fx {
    pub x: i64,
    pub y: i64,
    pub z: i64,
}

impl Vec3Fx {
    /// All components within the world bounds.
    pub open spec fn wf(self) -> bool {
        &&& -COORD_LIMIT <= self.x <= COORD_LIMIT
        &&& -COORD_LIMIT <= self.y <= COORD_LIMIT
        &&& -COORD_LIMIT <= self.z <= COORD_LIMIT
    }
}

impl Vec2Fx {
    /// Both components within the world bounds.
    pub open spec fn wf(self) -> bool {
        &&& -COORD_LIMIT <= self.x <= COORD_LIMIT
        &&& -COORD_LIMIT <= self.y <= COORD_LIMIT
    }
}

/// The affine part of a column-major homogeneous transform: four columns,
/// each truncated to its first three rows. Applying it to a point `p` yields
/// `x_axis * p.x + y_axis * p.y + z_axis * p.z + w_axis`; the fourth column
/// `w_axis` is the translation, whose `z` is the depth of the transform.
#[derive(Clone, Copy, Debug, PartialEq, Eq, Structural)]
pub struct Mat4Fx {
    pub x_axis: Vec3Fx,
    pub y_axis: Vec3Fx,
    pub z_axis: Vec3Fx,
    pub w_axis: Vec3Fx,
}

impl Mat4Fx {
    /// All entries within the world bounds.
    pub open spec fn wf(self) -> bool {
        &&& self.x_axis.wf()
        &&& self.y_axis.wf()
        &&& self.z_axis.wf()
        &&& self.w_axis.wf()
    }
}

/// One output component of [`transform_point`]: the fixed-point dot product of
/// a matrix row with the point, plus the translation entry of that row.
pub open spec fn row_apply(m0: int, m1: int, m2: int, t: int, px: int, py: int, pz: int) -> int {
    fpmul(m0, px) + fpmul(m1, py) + fpmul(m2, pz) + t
}

/// The whole transformed point, component-wise [`row_apply`].
pub open spec fn apply_mat(m: Mat4Fx, p: Vec3Fx) -> Vec3Fx {
    Vec3Fx {
        x: row_apply(
            m.x_axis.x as int,
            m.y_axis.x as int,
            m.z_axis.x as int,
            m.w_axis.x as int,
            p.x as int,
            p.y as int,
            p.z as int,
        ) as i64,
        y: row_apply(
            m.x_axis.y as int,
            m.y_axis.y as int,
            m.z_axis.y as int,
            m.w_axis.y as int,
            p.x as int,
            p.y as int,
            p.z as int,
        ) as i64,
        z: row_apply(
            m.x_axis.z as int,
            m.y_axis.z as int,
            m.z_axis.z as int,
            m.w_axis.z as int,
            p.x as int,
            p.y as int,
            p.z as int,
        ) as i64,
    }
}

/// Apply an affine transform to a point.
pub fn transform_point(m: &Mat4Fx, p: &Vec3Fx) -> (r: Vec3Fx)
    requires
        m.wf(),
        p.wf(),
    ensures
        r == apply_mat(*m, *p),
        -VERT_LIMIT <= r.x <= VERT_LIMIT,
        -VERT_LIMIT <= r.y <= VERT_LIMIT,
        -VERT_LIMIT <= r.z <= VERT_LIMIT,
{
    proof {
        lemma_coord_product_in_range(m.x_axis.x as int, p.x as int);
        lemma_coord_product_in_range(m.x_axis.y as int, p.x as int);
        lemma_coord_product_in_range(m.x_axis.z as int, p.x as int);
        lemma_coord_product_in_range(m.y_axis.x as int, p.y as int);
        lemma_coord_product_in_range(m.y_axis.y as int, p.y as int);
        lemma_coord_product_in_range(m.y_axis.z as int, p.y as int);
        lemma_coord_product_in_range(m.z_axis.x as int, p.z as int);
        lemma_coord_product_in_range(m.z_axis.y as int, p.z as int);
        lemma_coord_product_in_range(m.z_axis.z as int, p.z as int);
    }
    let rx = mul_fp(m.x_axis.x, p.x) + mul_fp(m.y_axis.x, p.y) + mul_fp(m.z_axis.x, p.z)
        + m.w_axis.x;
    let ry = mul_fp(m.x_axis.y, p.x) + mul_fp(m.y_axis.y, p.y) + mul_fp(m.z_axis.y, p.z)
        + m.w_axis.y;
    let rz = mul_fp(m.x_axis.z, p.x) + mul_fp(m.y_axis.z, p.y) + mul_fp(m.z_axis.z, p.z)
        + m.w_axis.z;
    Vec3Fx { x: rx, y: ry, z: rz }
}

/// The product of two scalars within the world bounds stays within the range
/// that [`mul_fp`] accepts.
pub proof fn lemma_coord_product_in_range(a: int, b: int)
    requires
        -COORD_LIMIT <= a <= COORD_LIMIT,
        -COORD_LIMIT <= b <= COORD_LIMIT,
    ensures
        -PROD_LIMIT <= a * b <= PROD_LIMIT,
{
    assert(-PROD_LIMIT <= a * b <= PROD_LIMIT) by (nonlinear_arith)
        requires
            -COORD_LIMIT <= a <= COORD_LIMIT,
            -COORD_LIMIT <= b <= COORD_LIMIT,
    ;
}

/// An axis-aligned texture-space rectangle.
#[derive(Clone, Copy, Debug, PartialEq, Eq, Structural)]
pub struct RectFx {
    pub min: Vec2Fx,
    pub max: Vec2Fx,
}

impl RectFx {
    pub open spec fn wf(self) -> bool {
        &&& self.min.wf()
        &&& self.max.wf()
    }
}

/// A linear RGBA color; each channel is a fixed-point scalar in `[0, FP]`.
#[derive(Clone, Copy, Debug, PartialEq, Eq, Structural)]
pub struct ColorFx {
    pub red: i64,
    pub green: i64,
    pub blue: i64,
    pub alpha: i64,
}

impl ColorFx {
    pub open spec fn wf(self) -> bool {
        &&& 0 <= self.red <= FP
        &&& 0 <= self.green <= FP
        &&& 0 <= self.blue <= FP
        &&& 0 <= self.alpha <= FP
    }

    /// Fully opaque white, the color that keeps a quad in the plain buffer.
    pub open spec fn is_opaque_white(self) -> bool {
        self.red == FP && self.green == FP && self.blue == FP && self.alpha == FP
    }
}

/// Whether a color differs from fully opaque white, which forces the colored
/// vertex layout. The comparison is exact, as in the merge rule.
pub fn needs_color(c: &ColorFx) -> (r: bool)
    ensures
        r == !c.is_opaque_white(),
{
    !(c.red == FP && c.green == FP && c.blue == FP && c.alpha == FP)
}

/// A channel quantized to eight bits: `c * 255 / FP`, floored.
pub open spec fn quantize(c: int) -> int {
    (c * 255) / (FP as int)
}

/// The four channels of `c` packed into one 32-bit word, lowest byte red.
pub open spec fn pack_color_spec(c: ColorFx) -> int {
    quantize(c.red as int) + 256 * quantize(c.green as int) + 65536 * quantize(c.blue as int)
        + 16777216 * quantize(c.alpha as int)
}

/// Quantize one channel to eight bits.
fn quantize_channel(c: i64) -> (r: u32)
    requires
        0 <= c <= FP,
    ensures
        r == quantize(c as int),
        r <= 255,
{
    let scaled: u64 = (c as u64) * 255;
    let q: u64 = scaled / (FP as u64);
    proof {
        lemma_fundamental_div_mod(scaled as int, FP as int);
        assert(q <= 255) by (nonlinear_arith)
            requires
                scaled as int == (FP as int) * (q as int) + ((scaled as int) % (FP as int)),
                0 <= (scaled as int) % (FP as int),
                scaled <= 255 * (FP as int),
                q >= 0,
        ;
    }
    q as u32
}

/// Pack a color into one 32-bit word, four 8-bit channels, straight
/// quantization from the linear fixed-point channels.
pub fn pack_color(c: &ColorFx) -> (r: u32)
    requires
        c.wf(),
    ensures
        r == pack_color_spec(*c),
{
    let red = quantize_channel(c.red);
    let green = quantize_channel(c.green);
    let blue = quantize_channel(c.blue);
    let alpha = quantize_channel(c.alpha);
    red + 256 * green + 65536 * blue + 16777216 * alpha
}

} // verus!
