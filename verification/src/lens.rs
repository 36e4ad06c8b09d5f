//! Lenses: a small polymorphic interface for animating a subset of a
//! target's fields by a linear ratio. A lens owns the start and end values
//! and overwrites the focused fields of the target in place; the ratio is a
//! fixed-point scalar in `[0, FP]`, already sampled from an easing curve by
//! the caller.

use vstd::prelude::*;
use crate::fx::{COORD_LIMIT, FP, PROD_LIMIT, fpmul, mul_fp};
use crate::math::{ColorFx, Vec3Fx};

verus! {

/// Linear interpolation of one fixed-point scalar:
/// `start + (end - start) * ratio`.
pub open spec fn lerp_spec(start: int, end: int, ratio: int) -> int {
    start + fpmul(end - start, ratio)
}

/// Interpolate one scalar.
pub fn lerp_fx(start: i64, end: i64, ratio: i64) -> (r: i64)
    requires
        -COORD_LIMIT <= start <= COORD_LIMIT,
        -COORD_LIMIT <= end <= COORD_LIMIT,
        0 <= ratio <= FP,
    ensures
        r == lerp_spec(start as int, end as int, ratio as int),
{
    proof {
        assert(-PROD_LIMIT <= ((end - start) as int) * (ratio as int) <= PROD_LIMIT)
            by (nonlinear_arith)
            requires
                -2 * COORD_LIMIT <= end - start <= 2 * COORD_LIMIT,
                0 <= ratio <= FP,
        ;
    }
    start + mul_fp(end - start, ratio)
}

/// Interpolation of a whole vector, component-wise.
pub open spec fn lerp_vec_spec(start: Vec3Fx, end: Vec3Fx, ratio: int) -> Vec3Fx {
    Vec3Fx {
        x: lerp_spec(start.x as int, end.x as int, ratio) as i64,
        y: lerp_spec(start.y as int, end.y as int, ratio) as i64,
        z: lerp_spec(start.z as int, end.z as int, ratio) as i64,
    }
}

fn lerp_vec(start: &Vec3Fx, end: &Vec3Fx, ratio: i64) -> (r: Vec3Fx)
    requires
        start.wf(),
        end.wf(),
        0 <= ratio <= FP,
    ensures
        r == lerp_vec_spec(*start, *end, ratio as int),
{
    Vec3Fx {
        x: lerp_fx(start.x, end.x, ratio),
        y: lerp_fx(start.y, end.y, ratio),
        z: lerp_fx(start.z, end.z, ratio),
    }
}

/// Interpolation of a color, channel-wise.
pub open spec fn lerp_color_spec(start: ColorFx, end: ColorFx, ratio: int) -> ColorFx {
    ColorFx {
        red: lerp_spec(start.red as int, end.red as int, ratio) as i64,
        green: lerp_spec(start.green as int, end.green as int, ratio) as i64,
        blue: lerp_spec(start.blue as int, end.blue as int, ratio) as i64,
        alpha: lerp_spec(start.alpha as int, end.alpha as int, ratio) as i64,
    }
}

fn lerp_color(start: &ColorFx, end: &ColorFx, ratio: i64) -> (r: ColorFx)
    requires
        start.wf(),
        end.wf(),
        0 <= ratio <= FP,
    ensures
        r == lerp_color_spec(*start, *end, ratio as int),
{
    ColorFx {
        red: lerp_fx(start.red, end.red, ratio),
        green: lerp_fx(start.green, end.green, ratio),
        blue: lerp_fx(start.blue, end.blue, ratio),
        alpha: lerp_fx(start.alpha, end.alpha, ratio),
    }
}

/// A quaternion with fixed-point components.
#[derive(Clone, Copy, Debug, PartialEq, Eq, Structural)]
pub struct QuatFx {
    pub x: i64,
    pub y: i64,
    pub z: i64,
    pub w: i64,
}

impl QuatFx {
    pub open spec fn wf(self) -> bool {
        &&& -COORD_LIMIT <= self.x <= COORD_LIMIT
        &&& -COORD_LIMIT <= self.y <= COORD_LIMIT
        &&& -COORD_LIMIT <= self.z <= COORD_LIMIT
        &&& -COORD_LIMIT <= self.w <= COORD_LIMIT
    }
}

/// Interpolation of a quaternion, component-wise (no renormalization, as in
/// the additive form of the animation).
pub open spec fn lerp_quat_spec(start: QuatFx, end: QuatFx, ratio: int) -> QuatFx {
    QuatFx {
        x: lerp_spec(start.x as int, end.x as int, ratio) as i64,
        y: lerp_spec(start.y as int, end.y as int, ratio) as i64,
        z: lerp_spec(start.z as int, end.z as int, ratio) as i64,
        w: lerp_spec(start.w as int, end.w as int, ratio) as i64,
    }
}

/// An entity transform: the animatable targets of the transform lenses.
#[derive(Clone, Copy, Debug, PartialEq, Eq, Structural)]
pub struct TransformFx {
    pub translation: Vec3Fx,
    pub rotation: QuatFx,
    pub scale: Vec3Fx,
}

/// One section of a text component: its color.
#[derive(Clone, Copy, Debug, PartialEq, Eq, Structural)]
pub struct TextSectionFx {
    pub color: ColorFx,
}

/// A text component: a list of styled sections.
#[derive(Clone, Debug)]
pub struct TextFx {
    pub sections: Vec<TextSectionFx>,
}

/// A UI length value.
#[derive(Clone, Copy, Debug, PartialEq, Eq, Structural)]
pub enum ValFx {
    Undefined,
    Auto,
    Px(i64),
    Percent(i64),
}

impl ValFx {
    pub open spec fn wf(self) -> bool {
        match self {
            ValFx::Px(v) => -COORD_LIMIT <= v <= COORD_LIMIT,
            ValFx::Percent(v) => -COORD_LIMIT <= v <= COORD_LIMIT,
            _ => true,
        }
    }
}

/// The four offsets of a UI rectangle.
#[derive(Clone, Copy, Debug, PartialEq, Eq, Structural)]
pub struct UiRectFx {
    pub left: ValFx,
    pub right: ValFx,
    pub top: ValFx,
    pub bottom: ValFx,
}

impl UiRectFx {
    pub open spec fn wf(self) -> bool {
        self.left.wf() && self.right.wf() && self.top.wf() && self.bottom.wf()
    }
}

/// A UI style component: its position rectangle.
#[derive(Clone, Copy, Debug, PartialEq, Eq, Structural)]
pub struct StyleFx {
    pub position: UiRectFx,
}

/// A color material asset.
#[derive(Clone, Copy, Debug, PartialEq, Eq, Structural)]
pub struct ColorMaterialFx {
    pub color: ColorFx,
}

/// A sprite component.
#[derive(Clone, Copy, Debug, PartialEq, Eq, Structural)]
pub struct SpriteFx {
    pub color: ColorFx,
}

/// Interpolation of UI values: like values interpolate, unlike values keep
/// the start value.
pub open spec fn lerp_val_spec(start: ValFx, end: ValFx, ratio: int) -> ValFx {
    match (start, end) {
        (ValFx::Percent(s), ValFx::Percent(e)) => ValFx::Percent(
            lerp_spec(s as int, e as int, ratio) as i64,
        ),
        (ValFx::Px(s), ValFx::Px(e)) => ValFx::Px(lerp_spec(s as int, e as int, ratio) as i64),
        _ => start,
    }
}

fn lerp_val(start: &ValFx, end: &ValFx, ratio: i64) -> (r: ValFx)
    requires
        start.wf(),
        end.wf(),
        0 <= ratio <= FP,
    ensures
        r == lerp_val_spec(*start, *end, ratio as int),
{
    match (start, end) {
        (ValFx::Percent(s), ValFx::Percent(e)) => ValFx::Percent(lerp_fx(*s, *e, ratio)),
        (ValFx::Px(s), ValFx::Px(e)) => ValFx::Px(lerp_fx(*s, *e, ratio)),
        _ => *start,
    }
}

/// A lens over a subset of a component or asset: given an interpolation
/// ratio, it overwrites the focused fields of the target in place. Each
/// implementation states which inputs it accepts (`lens_wf`) and how the
/// target changes (`lens_applies`).
pub trait Lens<T>: Sized {
    /// The inputs the lens accepts: well-formed endpoint values and a ratio
    /// in `[0, FP]`.
    spec fn lens_wf(&self, target: &T, ratio: i64) -> bool;

    /// How the target after the call relates to the target before it.
    spec fn lens_applies(&self, before: T, after: T, ratio: i64) -> bool;

    /// Interpolate the focused fields of `target` in place at `ratio`.
    fn lerp(&mut self, target: &mut T, ratio: i64)
        requires
            old(self).lens_wf(old(target), ratio),
        ensures
            old(self).lens_applies(*old(target), *final(target), ratio),
            *final(self) == *old(self),
    ;
}

/// A lens over the color of one section of a text component.
#[derive(Debug, Copy, Clone, PartialEq, Eq, Structural)]
pub struct TextColorLens {
    /// Start color.
    pub start: ColorFx,
    /// End color.
    pub end: ColorFx,
    /// Index of the text section to animate.
    pub section: usize,
}

impl Lens<TextFx> for TextColorLens {
    open spec fn lens_wf(&self, target: &TextFx, ratio: i64) -> bool {
        &&& self.start.wf()
        &&& self.end.wf()
        &&& 0 <= ratio <= FP
        &&& self.section < target.sections@.len()
    }

    open spec fn lens_applies(&self, before: TextFx, after: TextFx, ratio: i64) -> bool {
        after.sections@ == before.sections@.update(
            self.section as int,
            TextSectionFx { color: lerp_color_spec(self.start, self.end, ratio as int) },
        )
    }

    fn lerp(&mut self, target: &mut TextFx, ratio: i64) {
        let value = lerp_color(&self.start, &self.end, ratio);
        target.sections[self.section] = TextSectionFx { color: value };
    }
}

/// A lens over the translation of a transform.
#[derive(Debug, Copy, Clone, PartialEq, Eq, Structural)]
pub struct TransformPositionLens {
    /// Start value of the translation.
    pub start: Vec3Fx,
    /// End value of the translation.
    pub end: Vec3Fx,
}

impl Lens<TransformFx> for TransformPositionLens {
    open spec fn lens_wf(&self, target: &TransformFx, ratio: i64) -> bool {
        self.start.wf() && self.end.wf() && 0 <= ratio <= FP
    }

    open spec fn lens_applies(&self, before: TransformFx, after: TransformFx, ratio: i64) -> bool {
        after == (TransformFx {
            translation: lerp_vec_spec(self.start, self.end, ratio as int),
            ..before
        })
    }

    fn lerp(&mut self, target: &mut TransformFx, ratio: i64) {
        target.translation = lerp_vec(&self.start, &self.end, ratio);
    }
}

/// A lens over the rotation of a transform.
#[derive(Debug, Copy, Clone, PartialEq, Eq, Structural)]
pub struct TransformRotationLens {
    /// Start value of the rotation.
    pub start: QuatFx,
    /// End value of the rotation.
    pub end: QuatFx,
}

impl Lens<TransformFx> for TransformRotationLens {
    open spec fn lens_wf(&self, target: &TransformFx, ratio: i64) -> bool {
        self.start.wf() && self.end.wf() && 0 <= ratio <= FP
    }

    open spec fn lens_applies(&self, before: TransformFx, after: TransformFx, ratio: i64) -> bool {
        after == (TransformFx {
            rotation: lerp_quat_spec(self.start, self.end, ratio as int),
            ..before
        })
    }

    fn lerp(&mut self, target: &mut TransformFx, ratio: i64) {
        target.rotation = QuatFx {
            x: lerp_fx(self.start.x, self.end.x, ratio),
            y: lerp_fx(self.start.y, self.end.y, ratio),
            z: lerp_fx(self.start.z, self.end.z, ratio),
            w: lerp_fx(self.start.w, self.end.w, ratio),
        };
    }
}

/// A lens over the scale of a transform.
#[derive(Debug, Copy, Clone, PartialEq, Eq, Structural)]
pub struct TransformScaleLens {
    /// Start value of the scale.
    pub start: Vec3Fx,
    /// End value of the scale.
    pub end: Vec3Fx,
}

impl Lens<TransformFx> for TransformScaleLens {
    open spec fn lens_wf(&self, target: &TransformFx, ratio: i64) -> bool {
        self.start.wf() && self.end.wf() && 0 <= ratio <= FP
    }

    open spec fn lens_applies(&self, before: TransformFx, after: TransformFx, ratio: i64) -> bool {
        after == (TransformFx { scale: lerp_vec_spec(self.start, self.end, ratio as int), ..before })
    }

    fn lerp(&mut self, target: &mut TransformFx, ratio: i64) {
        target.scale = lerp_vec(&self.start, &self.end, ratio);
    }
}

/// A lens over the position rectangle of a UI style.
#[derive(Debug, Copy, Clone, PartialEq, Eq, Structural)]
pub struct UiPositionLens {
    /// Start position.
    pub start: UiRectFx,
    /// End position.
    pub end: UiRectFx,
}

impl Lens<StyleFx> for UiPositionLens {
    open spec fn lens_wf(&self, target: &StyleFx, ratio: i64) -> bool {
        self.start.wf() && self.end.wf() && 0 <= ratio <= FP
    }

    open spec fn lens_applies(&self, before: StyleFx, after: StyleFx, ratio: i64) -> bool {
        after.position == (UiRectFx {
            left: lerp_val_spec(self.start.left, self.end.left, ratio as int),
            right: lerp_val_spec(self.start.right, self.end.right, ratio as int),
            top: lerp_val_spec(self.start.top, self.end.top, ratio as int),
            bottom: lerp_val_spec(self.start.bottom, self.end.bottom, ratio as int),
        })
    }

    fn lerp(&mut self, target: &mut StyleFx, ratio: i64) {
        target.position = UiRectFx {
            left: lerp_val(&self.start.left, &self.end.left, ratio),
            right: lerp_val(&self.start.right, &self.end.right, ratio),
            top: lerp_val(&self.start.top, &self.end.top, ratio),
            bottom: lerp_val(&self.start.bottom, &self.end.bottom, ratio),
        };
    }
}

/// A lens over the color of a color material asset.
#[derive(Debug, Copy, Clone, PartialEq, Eq, Structural)]
pub struct ColorMaterialColorLens {
    /// Start color.
    pub start: ColorFx,
    /// End color.
    pub end: ColorFx,
}

impl Lens<ColorMaterialFx> for ColorMaterialColorLens {
    open spec fn lens_wf(&self, target: &ColorMaterialFx, ratio: i64) -> bool {
        self.start.wf() && self.end.wf() && 0 <= ratio <= FP
    }

    open spec fn lens_applies(&self, before: ColorMaterialFx, after: ColorMaterialFx, ratio: i64) -> bool {
        after.color == lerp_color_spec(self.start, self.end, ratio as int)
    }

    fn lerp(&mut self, target: &mut ColorMaterialFx, ratio: i64) {
        target.color = lerp_color(&self.start, &self.end, ratio);
    }
}

/// A lens over the color of a sprite.
#[derive(Debug, Copy, Clone, PartialEq, Eq, Structural)]
pub struct SpriteColorLens {
    /// Start color.
    pub start: ColorFx,
    /// End color.
    pub end: ColorFx,
}

impl Lens<SpriteFx> for SpriteColorLens {
    open spec fn lens_wf(&self, target: &SpriteFx, ratio: i64) -> bool {
        self.start.wf() && self.end.wf() && 0 <= ratio <= FP
    }

    open spec fn lens_applies(&self, before: SpriteFx, after: SpriteFx, ratio: i64) -> bool {
        after.color == lerp_color_spec(self.start, self.end, ratio as int)
    }

    fn lerp(&mut self, target: &mut SpriteFx, ratio: i64) {
        target.color = lerp_color(&self.start, &self.end, ratio);
    }
}

} // verus!
