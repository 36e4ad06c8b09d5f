//! Tests of the lens interface and the fixed-point interpolation it uses.

use hanabi::fx::FP;
use hanabi::lens::{
    lerp_fx, ColorMaterialColorLens, ColorMaterialFx, Lens, QuatFx, SpriteColorLens, SpriteFx,
    StyleFx, TextColorLens, TextFx, TextSectionFx, TransformFx, TransformPositionLens,
    TransformRotationLens, TransformScaleLens, UiPositionLens, UiRectFx, ValFx,
};
use hanabi::math::{ColorFx, Vec3Fx};
use hanabi::AnimatorState;

fn vec3(x: i64, y: i64, z: i64) -> Vec3Fx {
    Vec3Fx { x, y, z }
}

fn base_transform() -> TransformFx {
    TransformFx {
        translation: vec3(0, 0, 0),
        rotation: QuatFx { x: 0, y: 0, z: 0, w: FP },
        scale: vec3(FP, FP, FP),
    }
}

#[test]
fn lerp_fx_endpoints_and_midpoint() {
    assert_eq!(lerp_fx(0, 10 * FP, 0), 0);
    assert_eq!(lerp_fx(0, 10 * FP, FP), 10 * FP);
    assert_eq!(lerp_fx(0, 10 * FP, FP / 2), 5 * FP);
    // Descending interpolation floors toward negative infinity.
    assert_eq!(lerp_fx(10 * FP, 0, FP / 2), 5 * FP);
    assert_eq!(lerp_fx(0, 3, FP / 2), 1);
}

#[test]
fn transform_position_lens_moves_translation_only() {
    let mut lens = TransformPositionLens { start: vec3(0, 0, 0), end: vec3(FP, 2 * FP, -4 * FP) };
    let mut target = base_transform();
    lens.lerp(&mut target, FP / 2);
    assert_eq!(target.translation, vec3(FP / 2, FP, -2 * FP));
    assert_eq!(target.rotation, base_transform().rotation);
    assert_eq!(target.scale, base_transform().scale);
}

#[test]
fn transform_rotation_lens_interpolates_components() {
    let start = QuatFx { x: 0, y: 0, z: 0, w: FP };
    let end = QuatFx { x: FP, y: 0, z: 0, w: 0 };
    let mut lens = TransformRotationLens { start, end };
    let mut target = base_transform();
    lens.lerp(&mut target, FP / 2);
    assert_eq!(target.rotation, QuatFx { x: FP / 2, y: 0, z: 0, w: FP / 2 });
}

#[test]
fn transform_scale_lens_scales() {
    let mut lens = TransformScaleLens { start: vec3(FP, FP, FP), end: vec3(3 * FP, FP, FP) };
    let mut target = base_transform();
    lens.lerp(&mut target, FP / 4);
    assert_eq!(target.scale, vec3(FP + FP / 2, FP, FP));
    assert_eq!(target.translation, vec3(0, 0, 0));
}

#[test]
fn text_color_lens_updates_one_section() {
    let red = ColorFx { red: FP, green: 0, blue: 0, alpha: FP };
    let blue = ColorFx { red: 0, green: 0, blue: FP, alpha: FP };
    let mut lens = TextColorLens { start: red, end: blue, section: 1 };
    let mut target = TextFx {
        sections: vec![
            TextSectionFx { color: red },
            TextSectionFx { color: red },
            TextSectionFx { color: red },
        ],
    };
    lens.lerp(&mut target, FP / 2);
    assert_eq!(target.sections[0].color, red);
    assert_eq!(
        target.sections[1].color,
        ColorFx { red: FP / 2, green: 0, blue: FP / 2, alpha: FP }
    );
    assert_eq!(target.sections[2].color, red);
}

#[test]
fn ui_position_lens_interpolates_like_values() {
    let start = UiRectFx {
        left: ValFx::Px(0),
        right: ValFx::Percent(0),
        top: ValFx::Px(10 * FP),
        bottom: ValFx::Auto,
    };
    let end = UiRectFx {
        left: ValFx::Px(4 * FP),
        right: ValFx::Percent(100 * FP),
        top: ValFx::Percent(50 * FP),
        bottom: ValFx::Px(FP),
    };
    let mut lens = UiPositionLens { start, end };
    let mut target = StyleFx { position: start };
    lens.lerp(&mut target, FP / 2);
    assert_eq!(target.position.left, ValFx::Px(2 * FP));
    assert_eq!(target.position.right, ValFx::Percent(50 * FP));
    // Mismatched variants keep the start value.
    assert_eq!(target.position.top, ValFx::Px(10 * FP));
    assert_eq!(target.position.bottom, ValFx::Auto);
}

#[test]
fn color_material_lens_interpolates() {
    let black = ColorFx { red: 0, green: 0, blue: 0, alpha: FP };
    let white = ColorFx { red: FP, green: FP, blue: FP, alpha: FP };
    let mut lens = ColorMaterialColorLens { start: black, end: white };
    let mut target = ColorMaterialFx { color: black };
    lens.lerp(&mut target, FP / 4);
    assert_eq!(
        target.color,
        ColorFx { red: FP / 4, green: FP / 4, blue: FP / 4, alpha: FP }
    );
}

#[test]
fn sprite_color_lens_interpolates() {
    let a = ColorFx { red: FP, green: FP, blue: 0, alpha: FP };
    let b = ColorFx { red: 0, green: FP, blue: 0, alpha: 0 };
    let mut lens = SpriteColorLens { start: a, end: b };
    let mut target = SpriteFx { color: a };
    lens.lerp(&mut target, FP);
    assert_eq!(target.color, b);
}

#[test]
fn animator_state_toggles() {
    assert_eq!(AnimatorState::Playing.not(), AnimatorState::Paused);
    assert_eq!(AnimatorState::Paused.not(), AnimatorState::Playing);
}
