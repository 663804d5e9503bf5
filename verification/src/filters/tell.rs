//! The numbers of a stack tell everything that its effect depends on.
use vstd::prelude::*;
use crate::filters::choice::TransferCurve;
use crate::filters::feed::{char_values, curve_values, flag, path_values, pixel_count, point_values};
use crate::filters::key::{StackEntry, entries_feed, entry_feed, stack_feed, visibility_ord};
use crate::filters::kind::{StudioFilterKind, StudioVisibility};
use crate::filters::params::{FilterParams, opt_text};

verus! {

impl FilterParams {
    /// Whether two filters have the same effect as far as their numbers go: the
    /// same parameters, whatever channel an editor shows, and overlay images of
    /// the same path and size.
    pub open spec fn alike(self, other: FilterParams) -> bool {
        match (self, other) {
            (
                FilterParams::Levels { black, mid, white, red, green, blue, .. },
                FilterParams::Levels {
                    black: black2,
                    mid: mid2,
                    white: white2,
                    red: red2,
                    green: green2,
                    blue: blue2,
                    ..
                },
            ) => {
                &&& (black, mid, white) == (black2, mid2, white2)
                &&& (red, green, blue) == (red2, green2, blue2)
            },
            (
                FilterParams::Curves { rgb, red, green, blue, .. },
                FilterParams::Curves { rgb: rgb2, red: red2, green: green2, blue: blue2, .. },
            ) => {
                &&& rgb.points@ == rgb2.points@
                &&& red.points@ == red2.points@
                &&& green.points@ == green2.points@
                &&& blue.points@ == blue2.points@
            },
            (
                FilterParams::ImageOverlay {
                    path,
                    rgba,
                    tex_w,
                    tex_h,
                    blend,
                    opacity,
                    scale,
                    rotation,
                    offset_x,
                    offset_y,
                    tile,
                },
                FilterParams::ImageOverlay {
                    path: path2,
                    rgba: rgba2,
                    tex_w: tex_w2,
                    tex_h: tex_h2,
                    blend: blend2,
                    opacity: opacity2,
                    scale: scale2,
                    rotation: rotation2,
                    offset_x: offset_x2,
                    offset_y: offset_y2,
                    tile: tile2,
                },
            ) => {
                &&& opt_text(path) == opt_text(path2)
                &&& pixel_count(rgba) == pixel_count(rgba2)
                &&& (tex_w, tex_h, blend, opacity, scale) == (tex_w2, tex_h2, blend2, opacity2, scale2)
                &&& (rotation, offset_x, offset_y, tile) == (rotation2, offset_x2, offset_y2, tile2)
            },
            _ => self == other,
        }
    }
}

proof fn lemma_tells_1(x: FilterParams, y: FilterParams)
    requires
        x.spec_kind() == y.spec_kind(),
        x.values() == y.values(),
        x is Gaussian
            || x is Motion
            || x is Radial
            || x is Unsharp
            || x is BrightnessContrast
            || x is Levels,
    ensures
        x.alike(y),
{
    match (x, y) {
        (
            FilterParams::Gaussian { radius },
            FilterParams::Gaussian { radius: radius2 },
        ) => {
            assert(x.values()[0] == radius as i128 && y.values()[0] == radius2 as i128);
        },
        (
            FilterParams::Motion { length, angle },
            FilterParams::Motion { length: length2, angle: angle2 },
        ) => {
            assert(x.values()[0] == length as i128 && y.values()[0] == length2 as i128);
            assert(x.values()[1] == angle as i128 && y.values()[1] == angle2 as i128);
        },
        (
            FilterParams::Radial { amount, zoom_mode },
            FilterParams::Radial { amount: amount2, zoom_mode: zoom_mode2 },
        ) => {
            assert(x.values()[0] == amount as i128 && y.values()[0] == amount2 as i128);
            assert(x.values()[1] == flag(zoom_mode) && y.values()[1] == flag(zoom_mode2));
        },
        (
            FilterParams::Unsharp { amount, radius },
            FilterParams::Unsharp { amount: amount2, radius: radius2 },
        ) => {
            assert(x.values()[0] == amount as i128 && y.values()[0] == amount2 as i128);
            assert(x.values()[1] == radius as i128 && y.values()[1] == radius2 as i128);
        },
        (
            FilterParams::BrightnessContrast { brightness, contrast },
            FilterParams::BrightnessContrast { brightness: brightness2, contrast: contrast2 },
        ) => {
            assert(x.values()[0] == brightness as i128 && y.values()[0] == brightness2 as i128);
            assert(x.values()[1] == contrast as i128 && y.values()[1] == contrast2 as i128);
        },
        (
            FilterParams::Levels { black, mid, white, red, green, blue, .. },
            FilterParams::Levels {
                black: black2,
                mid: mid2,
                white: white2,
                red: red2,
                green: green2,
                blue: blue2,
                ..
            },
        ) => {
            assert(x.values()[0] == black as i128 && y.values()[0] == black2 as i128);
            assert(x.values()[1] == mid as i128 && y.values()[1] == mid2 as i128);
            assert(x.values()[2] == white as i128 && y.values()[2] == white2 as i128);
            assert(x.values()[3] == red.black as i128 && y.values()[3] == red2.black as i128);
            assert(x.values()[4] == red.mid as i128 && y.values()[4] == red2.mid as i128);
            assert(x.values()[5] == red.white as i128 && y.values()[5] == red2.white as i128);
            assert(x.values()[6] == green.black as i128 && y.values()[6] == green2.black as i128);
            assert(x.values()[7] == green.mid as i128 && y.values()[7] == green2.mid as i128);
            assert(x.values()[8] == green.white as i128 && y.values()[8] == green2.white as i128);
            assert(x.values()[9] == blue.black as i128 && y.values()[9] == blue2.black as i128);
            assert(x.values()[10] == blue.mid as i128 && y.values()[10] == blue2.mid as i128);
            assert(x.values()[11] == blue.white as i128 && y.values()[11] == blue2.white as i128);
        },
        _ => {},
    }
}

proof fn lemma_tells_2(x: FilterParams, y: FilterParams)
    requires
        x.spec_kind() == y.spec_kind(),
        x.values() == y.values(),
        x is HueSaturation
            || x is ColorBalance
            || x is Pixelize
            || x is HexPixelize
            || x is TriPixelize
            || x is HexDots,
    ensures
        x.alike(y),
{
    match (x, y) {
        (
            FilterParams::HueSaturation { hue, saturation, lightness, colorize },
            FilterParams::HueSaturation {
                hue: hue2,
                saturation: saturation2,
                lightness: lightness2,
                colorize: colorize2,
            },
        ) => {
            assert(x.values()[0] == hue as i128 && y.values()[0] == hue2 as i128);
            assert(x.values()[1] == saturation as i128 && y.values()[1] == saturation2 as i128);
            assert(x.values()[2] == lightness as i128 && y.values()[2] == lightness2 as i128);
            assert(x.values()[3] == flag(colorize) && y.values()[3] == flag(colorize2));
        },
        (
            FilterParams::ColorBalance { cyan_red, magenta_green, yellow_blue },
            FilterParams::ColorBalance {
                cyan_red: cyan_red2,
                magenta_green: magenta_green2,
                yellow_blue: yellow_blue2,
            },
        ) => {
            assert(x.values()[0] == cyan_red as i128 && y.values()[0] == cyan_red2 as i128);
            assert(x.values()[1] == magenta_green as i128 && y.values()[1] == magenta_green2 as i128);
            assert(x.values()[2] == yellow_blue as i128 && y.values()[2] == yellow_blue2 as i128);
        },
        (
            FilterParams::Pixelize { method, block, soft_amount },
            FilterParams::Pixelize { method: method2, block: block2, soft_amount: soft_amount2 },
        ) => {
            assert(x.values()[0] == method.ord() && y.values()[0] == method2.ord());
            assert(x.values()[1] == block as i128 && y.values()[1] == block2 as i128);
            assert(x.values()[2] == soft_amount as i128 && y.values()[2] == soft_amount2 as i128);
        },
        (
            FilterParams::HexPixelize { size },
            FilterParams::HexPixelize { size: size2 },
        ) => {
            assert(x.values()[0] == size as i128 && y.values()[0] == size2 as i128);
        },
        (
            FilterParams::TriPixelize { size },
            FilterParams::TriPixelize { size: size2 },
        ) => {
            assert(x.values()[0] == size as i128 && y.values()[0] == size2 as i128);
        },
        (
            FilterParams::HexDots { size, fill_pct, soft_edge },
            FilterParams::HexDots { size: size2, fill_pct: fill_pct2, soft_edge: soft_edge2 },
        ) => {
            assert(x.values()[0] == size as i128 && y.values()[0] == size2 as i128);
            assert(x.values()[1] == fill_pct as i128 && y.values()[1] == fill_pct2 as i128);
            assert(x.values()[2] == flag(soft_edge) && y.values()[2] == flag(soft_edge2));
        },
        _ => {},
    }
}

proof fn lemma_tells_3(x: FilterParams, y: FilterParams)
    requires
        x.spec_kind() == y.spec_kind(),
        x.values() == y.values(),
        x is Posterize
            || x is Crystallize
            || x is Pointillize
            || x is ColorHalftone
            || x is Fisheye
            || x is SphericalLens,
    ensures
        x.alike(y),
{
    match (x, y) {
        (
            FilterParams::Posterize { levels },
            FilterParams::Posterize { levels: levels2 },
        ) => {
            assert(x.values()[0] == levels as i128 && y.values()[0] == levels2 as i128);
        },
        (
            FilterParams::Crystallize { size },
            FilterParams::Crystallize { size: size2 },
        ) => {
            assert(x.values()[0] == size as i128 && y.values()[0] == size2 as i128);
        },
        (
            FilterParams::Pointillize { size, density, bg },
            FilterParams::Pointillize { size: size2, density: density2, bg: bg2 },
        ) => {
            assert(x.values()[0] == size as i128 && y.values()[0] == size2 as i128);
            assert(x.values()[1] == density as i128 && y.values()[1] == density2 as i128);
            assert(x.values()[2] == bg.r as i128 && y.values()[2] == bg2.r as i128);
            assert(x.values()[3] == bg.g as i128 && y.values()[3] == bg2.g as i128);
            assert(x.values()[4] == bg.b as i128 && y.values()[4] == bg2.b as i128);
        },
        (
            FilterParams::ColorHalftone {
                size,
                angle,
                mode,
                paper,
                bg,
                strength,
                softness,
                contrast,
                angle_c,
                angle_m,
                angle_y,
                angle_k,
            },
            FilterParams::ColorHalftone {
                size: size2,
                angle: angle2,
                mode: mode2,
                paper: paper2,
                bg: bg2,
                strength: strength2,
                softness: softness2,
                contrast: contrast2,
                angle_c: angle_c2,
                angle_m: angle_m2,
                angle_y: angle_y2,
                angle_k: angle_k2,
            },
        ) => {
            assert(x.values()[0] == size as i128 && y.values()[0] == size2 as i128);
            assert(x.values()[1] == angle as i128 && y.values()[1] == angle2 as i128);
            assert(x.values()[2] == mode.ord() && y.values()[2] == mode2.ord());
            assert(x.values()[3] == paper.ord() && y.values()[3] == paper2.ord());
            assert(x.values()[4] == bg.r as i128 && y.values()[4] == bg2.r as i128);
            assert(x.values()[5] == bg.g as i128 && y.values()[5] == bg2.g as i128);
            assert(x.values()[6] == bg.b as i128 && y.values()[6] == bg2.b as i128);
            assert(x.values()[7] == strength as i128 && y.values()[7] == strength2 as i128);
            assert(x.values()[8] == softness as i128 && y.values()[8] == softness2 as i128);
            assert(x.values()[9] == contrast as i128 && y.values()[9] == contrast2 as i128);
            assert(x.values()[10] == angle_c as i128 && y.values()[10] == angle_c2 as i128);
            assert(x.values()[11] == angle_m as i128 && y.values()[11] == angle_m2 as i128);
            assert(x.values()[12] == angle_y as i128 && y.values()[12] == angle_y2 as i128);
            assert(x.values()[13] == angle_k as i128 && y.values()[13] == angle_k2 as i128);
        },
        (
            FilterParams::Fisheye { model, amount, radius, center_x, center_y },
            FilterParams::Fisheye {
                model: model2,
                amount: amount2,
                radius: radius2,
                center_x: center_x2,
                center_y: center_y2,
            },
        ) => {
            assert(x.values()[0] == model.ord() && y.values()[0] == model2.ord());
            assert(x.values()[1] == amount as i128 && y.values()[1] == amount2 as i128);
            assert(x.values()[2] == radius as i128 && y.values()[2] == radius2 as i128);
            assert(x.values()[3] == center_x as i128 && y.values()[3] == center_x2 as i128);
            assert(x.values()[4] == center_y as i128 && y.values()[4] == center_y2 as i128);
        },
        (
            FilterParams::SphericalLens { amount, radius, center_x, center_y },
            FilterParams::SphericalLens {
                amount: amount2,
                radius: radius2,
                center_x: center_x2,
                center_y: center_y2,
            },
        ) => {
            assert(x.values()[0] == amount as i128 && y.values()[0] == amount2 as i128);
            assert(x.values()[1] == radius as i128 && y.values()[1] == radius2 as i128);
            assert(x.values()[2] == center_x as i128 && y.values()[2] == center_x2 as i128);
            assert(x.values()[3] == center_y as i128 && y.values()[3] == center_y2 as i128);
        },
        _ => {},
    }
}

proof fn lemma_tells_4(x: FilterParams, y: FilterParams)
    requires
        x.spec_kind() == y.spec_kind(),
        x.values() == y.values(),
        x is Ripple
            || x is Twist
            || x is ChromaticAberration
            || x is Noise
            || x is Glitch
            || x is Vignette,
    ensures
        x.alike(y),
{
    match (x, y) {
        (
            FilterParams::Ripple { mode, amount, wavelength, angle, center_x, center_y },
            FilterParams::Ripple {
                mode: mode2,
                amount: amount2,
                wavelength: wavelength2,
                angle: angle2,
                center_x: center_x2,
                center_y: center_y2,
            },
        ) => {
            assert(x.values()[0] == mode.ord() && y.values()[0] == mode2.ord());
            assert(x.values()[1] == amount as i128 && y.values()[1] == amount2 as i128);
            assert(x.values()[2] == wavelength as i128 && y.values()[2] == wavelength2 as i128);
            assert(x.values()[3] == angle as i128 && y.values()[3] == angle2 as i128);
            assert(x.values()[4] == center_x as i128 && y.values()[4] == center_x2 as i128);
            assert(x.values()[5] == center_y as i128 && y.values()[5] == center_y2 as i128);
        },
        (
            FilterParams::Twist { amount, radius, center_x, center_y },
            FilterParams::Twist {
                amount: amount2,
                radius: radius2,
                center_x: center_x2,
                center_y: center_y2,
            },
        ) => {
            assert(x.values()[0] == amount as i128 && y.values()[0] == amount2 as i128);
            assert(x.values()[1] == radius as i128 && y.values()[1] == radius2 as i128);
            assert(x.values()[2] == center_x as i128 && y.values()[2] == center_x2 as i128);
            assert(x.values()[3] == center_y as i128 && y.values()[3] == center_y2 as i128);
        },
        (
            FilterParams::ChromaticAberration {
                mode,
                amount,
                angle,
                center_atten,
                red_scale,
                blue_scale,
            },
            FilterParams::ChromaticAberration {
                mode: mode2,
                amount: amount2,
                angle: angle2,
                center_atten: center_atten2,
                red_scale: red_scale2,
                blue_scale: blue_scale2,
            },
        ) => {
            assert(x.values()[0] == mode.ord() && y.values()[0] == mode2.ord());
            assert(x.values()[1] == amount as i128 && y.values()[1] == amount2 as i128);
            assert(x.values()[2] == angle as i128 && y.values()[2] == angle2 as i128);
            assert(x.values()[3] == center_atten as i128 && y.values()[3] == center_atten2 as i128);
            assert(x.values()[4] == red_scale as i128 && y.values()[4] == red_scale2 as i128);
            assert(x.values()[5] == blue_scale as i128 && y.values()[5] == blue_scale2 as i128);
        },
        (
            FilterParams::Noise { method, amount, monochrome },
            FilterParams::Noise { method: method2, amount: amount2, monochrome: monochrome2 },
        ) => {
            assert(x.values()[0] == method.ord() && y.values()[0] == method2.ord());
            assert(x.values()[1] == amount as i128 && y.values()[1] == amount2 as i128);
            assert(x.values()[2] == flag(monochrome) && y.values()[2] == flag(monochrome2));
        },
        (
            FilterParams::Glitch { method, amount, slice_height, max_shift },
            FilterParams::Glitch {
                method: method2,
                amount: amount2,
                slice_height: slice_height2,
                max_shift: max_shift2,
            },
        ) => {
            assert(x.values()[0] == method.ord() && y.values()[0] == method2.ord());
            assert(x.values()[1] == amount as i128 && y.values()[1] == amount2 as i128);
            assert(x.values()[2] == slice_height as i128 && y.values()[2] == slice_height2 as i128);
            assert(x.values()[3] == max_shift as i128 && y.values()[3] == max_shift2 as i128);
        },
        (
            FilterParams::Vignette { shape, amount, softness, roundness, color },
            FilterParams::Vignette {
                shape: shape2,
                amount: amount2,
                softness: softness2,
                roundness: roundness2,
                color: color2,
            },
        ) => {
            assert(x.values()[0] == shape.ord() && y.values()[0] == shape2.ord());
            assert(x.values()[1] == amount as i128 && y.values()[1] == amount2 as i128);
            assert(x.values()[2] == softness as i128 && y.values()[2] == softness2 as i128);
            assert(x.values()[3] == roundness as i128 && y.values()[3] == roundness2 as i128);
            assert(x.values()[4] == color.r as i128 && y.values()[4] == color2.r as i128);
            assert(x.values()[5] == color.g as i128 && y.values()[5] == color2.g as i128);
            assert(x.values()[6] == color.b as i128 && y.values()[6] == color2.b as i128);
        },
        _ => {},
    }
}

proof fn lemma_tells_5(x: FilterParams, y: FilterParams)
    requires
        x.spec_kind() == y.spec_kind(),
        x.values() == y.values(),
        x is Glow
            || x is Sepia
            || x is FilmGrain
            || x is Dither
            || x is ReplaceColor
            || x is Outline,
    ensures
        x.alike(y),
{
    match (x, y) {
        (
            FilterParams::Glow { radius, intensity, tint, color },
            FilterParams::Glow {
                radius: radius2,
                intensity: intensity2,
                tint: tint2,
                color: color2,
            },
        ) => {
            assert(x.values()[0] == radius as i128 && y.values()[0] == radius2 as i128);
            assert(x.values()[1] == intensity as i128 && y.values()[1] == intensity2 as i128);
            assert(x.values()[2] == flag(tint) && y.values()[2] == flag(tint2));
            assert(x.values()[3] == color.r as i128 && y.values()[3] == color2.r as i128);
            assert(x.values()[4] == color.g as i128 && y.values()[4] == color2.g as i128);
            assert(x.values()[5] == color.b as i128 && y.values()[5] == color2.b as i128);
        },
        (
            FilterParams::Sepia { amount, warmth },
            FilterParams::Sepia { amount: amount2, warmth: warmth2 },
        ) => {
            assert(x.values()[0] == amount as i128 && y.values()[0] == amount2 as i128);
            assert(x.values()[1] == warmth as i128 && y.values()[1] == warmth2 as i128);
        },
        (
            FilterParams::FilmGrain { amount, size, roughness, monochrome, shadow_bias },
            FilterParams::FilmGrain {
                amount: amount2,
                size: size2,
                roughness: roughness2,
                monochrome: monochrome2,
                shadow_bias: shadow_bias2,
            },
        ) => {
            assert(x.values()[0] == amount as i128 && y.values()[0] == amount2 as i128);
            assert(x.values()[1] == size as i128 && y.values()[1] == size2 as i128);
            assert(x.values()[2] == roughness as i128 && y.values()[2] == roughness2 as i128);
            assert(x.values()[3] == flag(monochrome) && y.values()[3] == flag(monochrome2));
            assert(x.values()[4] == shadow_bias as i128 && y.values()[4] == shadow_bias2 as i128);
        },
        (
            FilterParams::Dither {
                method,
                levels,
                amount,
                serpentine,
                pattern_size,
                monochrome,
            },
            FilterParams::Dither {
                method: method2,
                levels: levels2,
                amount: amount2,
                serpentine: serpentine2,
                pattern_size: pattern_size2,
                monochrome: monochrome2,
            },
        ) => {
            assert(x.values()[0] == method.ord() && y.values()[0] == method2.ord());
            assert(x.values()[1] == levels as i128 && y.values()[1] == levels2 as i128);
            assert(x.values()[2] == amount as i128 && y.values()[2] == amount2 as i128);
            assert(x.values()[3] == flag(serpentine) && y.values()[3] == flag(serpentine2));
            assert(x.values()[4] == pattern_size as i128 && y.values()[4] == pattern_size2 as i128);
            assert(x.values()[5] == flag(monochrome) && y.values()[5] == flag(monochrome2));
        },
        (
            FilterParams::ReplaceColor { from, to, tolerance, softness, affect, amount },
            FilterParams::ReplaceColor {
                from: from2,
                to: to2,
                tolerance: tolerance2,
                softness: softness2,
                affect: affect2,
                amount: amount2,
            },
        ) => {
            assert(x.values()[0] == from.r as i128 && y.values()[0] == from2.r as i128);
            assert(x.values()[1] == from.g as i128 && y.values()[1] == from2.g as i128);
            assert(x.values()[2] == from.b as i128 && y.values()[2] == from2.b as i128);
            assert(x.values()[3] == to.r as i128 && y.values()[3] == to2.r as i128);
            assert(x.values()[4] == to.g as i128 && y.values()[4] == to2.g as i128);
            assert(x.values()[5] == to.b as i128 && y.values()[5] == to2.b as i128);
            assert(x.values()[6] == tolerance as i128 && y.values()[6] == tolerance2 as i128);
            assert(x.values()[7] == softness as i128 && y.values()[7] == softness2 as i128);
            assert(x.values()[8] == affect.ord() && y.values()[8] == affect2.ord());
            assert(x.values()[9] == amount as i128 && y.values()[9] == amount2 as i128);
        },
        (
            FilterParams::Outline {
                thickness,
                threshold,
                softness,
                color,
                opacity,
                mode,
                use_luma,
            },
            FilterParams::Outline {
                thickness: thickness2,
                threshold: threshold2,
                softness: softness2,
                color: color2,
                opacity: opacity2,
                mode: mode2,
                use_luma: use_luma2,
            },
        ) => {
            assert(x.values()[0] == thickness as i128 && y.values()[0] == thickness2 as i128);
            assert(x.values()[1] == threshold as i128 && y.values()[1] == threshold2 as i128);
            assert(x.values()[2] == softness as i128 && y.values()[2] == softness2 as i128);
            assert(x.values()[3] == color.r as i128 && y.values()[3] == color2.r as i128);
            assert(x.values()[4] == color.g as i128 && y.values()[4] == color2.g as i128);
            assert(x.values()[5] == color.b as i128 && y.values()[5] == color2.b as i128);
            assert(x.values()[6] == opacity as i128 && y.values()[6] == opacity2 as i128);
            assert(x.values()[7] == mode.ord() && y.values()[7] == mode2.ord());
            assert(x.values()[8] == flag(use_luma) && y.values()[8] == flag(use_luma2));
        },
        _ => {},
    }
}

proof fn lemma_tells_6(x: FilterParams, y: FilterParams)
    requires
        x.spec_kind() == y.spec_kind(),
        x.values() == y.values(),
        x is OilPaint
            || x is Watercolor
            || x is Pencil
            || x is Pastel
            || x is PaperTexture
            || x is NeonGlow,
    ensures
        x.alike(y),
{
    match (x, y) {
        (
            FilterParams::OilPaint { radius, levels, strength },
            FilterParams::OilPaint { radius: radius2, levels: levels2, strength: strength2 },
        ) => {
            assert(x.values()[0] == radius as i128 && y.values()[0] == radius2 as i128);
            assert(x.values()[1] == levels as i128 && y.values()[1] == levels2 as i128);
            assert(x.values()[2] == strength as i128 && y.values()[2] == strength2 as i128);
        },
        (
            FilterParams::Watercolor { blur, bleed, edge, saturation, strength },
            FilterParams::Watercolor {
                blur: blur2,
                bleed: bleed2,
                edge: edge2,
                saturation: saturation2,
                strength: strength2,
            },
        ) => {
            assert(x.values()[0] == blur as i128 && y.values()[0] == blur2 as i128);
            assert(x.values()[1] == bleed as i128 && y.values()[1] == bleed2 as i128);
            assert(x.values()[2] == edge as i128 && y.values()[2] == edge2 as i128);
            assert(x.values()[3] == saturation as i128 && y.values()[3] == saturation2 as i128);
            assert(x.values()[4] == strength as i128 && y.values()[4] == strength2 as i128);
        },
        (
            FilterParams::Pencil { detail, darkness, grain, strength },
            FilterParams::Pencil {
                detail: detail2,
                darkness: darkness2,
                grain: grain2,
                strength: strength2,
            },
        ) => {
            assert(x.values()[0] == detail as i128 && y.values()[0] == detail2 as i128);
            assert(x.values()[1] == darkness as i128 && y.values()[1] == darkness2 as i128);
            assert(x.values()[2] == grain as i128 && y.values()[2] == grain2 as i128);
            assert(x.values()[3] == strength as i128 && y.values()[3] == strength2 as i128);
        },
        (
            FilterParams::Pastel { softness, chalk, lighten, strength },
            FilterParams::Pastel {
                softness: softness2,
                chalk: chalk2,
                lighten: lighten2,
                strength: strength2,
            },
        ) => {
            assert(x.values()[0] == softness as i128 && y.values()[0] == softness2 as i128);
            assert(x.values()[1] == chalk as i128 && y.values()[1] == chalk2 as i128);
            assert(x.values()[2] == lighten as i128 && y.values()[2] == lighten2 as i128);
            assert(x.values()[3] == strength as i128 && y.values()[3] == strength2 as i128);
        },
        (
            FilterParams::PaperTexture { amount, scale, roughness, warm },
            FilterParams::PaperTexture {
                amount: amount2,
                scale: scale2,
                roughness: roughness2,
                warm: warm2,
            },
        ) => {
            assert(x.values()[0] == amount as i128 && y.values()[0] == amount2 as i128);
            assert(x.values()[1] == scale as i128 && y.values()[1] == scale2 as i128);
            assert(x.values()[2] == roughness as i128 && y.values()[2] == roughness2 as i128);
            assert(x.values()[3] == warm as i128 && y.values()[3] == warm2 as i128);
        },
        (
            FilterParams::NeonGlow { radius, intensity, threshold, color, core },
            FilterParams::NeonGlow {
                radius: radius2,
                intensity: intensity2,
                threshold: threshold2,
                color: color2,
                core: core2,
            },
        ) => {
            assert(x.values()[0] == radius as i128 && y.values()[0] == radius2 as i128);
            assert(x.values()[1] == intensity as i128 && y.values()[1] == intensity2 as i128);
            assert(x.values()[2] == threshold as i128 && y.values()[2] == threshold2 as i128);
            assert(x.values()[3] == color.r as i128 && y.values()[3] == color2.r as i128);
            assert(x.values()[4] == color.g as i128 && y.values()[4] == color2.g as i128);
            assert(x.values()[5] == color.b as i128 && y.values()[5] == color2.b as i128);
            assert(x.values()[6] == core as i128 && y.values()[6] == core2 as i128);
        },
        _ => {},
    }
}

proof fn lemma_tells_7(x: FilterParams, y: FilterParams)
    requires
        x.spec_kind() == y.spec_kind(),
        x.values() == y.values(),
        x is LightRays
            || x is LensFlare
            || x is DropShadow
            || x is BevelEmboss
            || x is Scanlines
            || x is LiquidGlass,
    ensures
        x.alike(y),
{
    match (x, y) {
        (
            FilterParams::LightRays { amount, length, center_x, center_y, decay, tint, color },
            FilterParams::LightRays {
                amount: amount2,
                length: length2,
                center_x: center_x2,
                center_y: center_y2,
                decay: decay2,
                tint: tint2,
                color: color2,
            },
        ) => {
            assert(x.values()[0] == amount as i128 && y.values()[0] == amount2 as i128);
            assert(x.values()[1] == length as i128 && y.values()[1] == length2 as i128);
            assert(x.values()[2] == center_x as i128 && y.values()[2] == center_x2 as i128);
            assert(x.values()[3] == center_y as i128 && y.values()[3] == center_y2 as i128);
            assert(x.values()[4] == decay as i128 && y.values()[4] == decay2 as i128);
            assert(x.values()[5] == flag(tint) && y.values()[5] == flag(tint2));
            assert(x.values()[6] == color.r as i128 && y.values()[6] == color2.r as i128);
            assert(x.values()[7] == color.g as i128 && y.values()[7] == color2.g as i128);
            assert(x.values()[8] == color.b as i128 && y.values()[8] == color2.b as i128);
        },
        (
            FilterParams::LensFlare { amount, center_x, center_y, size, streak, color },
            FilterParams::LensFlare {
                amount: amount2,
                center_x: center_x2,
                center_y: center_y2,
                size: size2,
                streak: streak2,
                color: color2,
            },
        ) => {
            assert(x.values()[0] == amount as i128 && y.values()[0] == amount2 as i128);
            assert(x.values()[1] == center_x as i128 && y.values()[1] == center_x2 as i128);
            assert(x.values()[2] == center_y as i128 && y.values()[2] == center_y2 as i128);
            assert(x.values()[3] == size as i128 && y.values()[3] == size2 as i128);
            assert(x.values()[4] == streak as i128 && y.values()[4] == streak2 as i128);
            assert(x.values()[5] == color.r as i128 && y.values()[5] == color2.r as i128);
            assert(x.values()[6] == color.g as i128 && y.values()[6] == color2.g as i128);
            assert(x.values()[7] == color.b as i128 && y.values()[7] == color2.b as i128);
        },
        (
            FilterParams::DropShadow { angle, distance, blur, opacity, color },
            FilterParams::DropShadow {
                angle: angle2,
                distance: distance2,
                blur: blur2,
                opacity: opacity2,
                color: color2,
            },
        ) => {
            assert(x.values()[0] == angle as i128 && y.values()[0] == angle2 as i128);
            assert(x.values()[1] == distance as i128 && y.values()[1] == distance2 as i128);
            assert(x.values()[2] == blur as i128 && y.values()[2] == blur2 as i128);
            assert(x.values()[3] == opacity as i128 && y.values()[3] == opacity2 as i128);
            assert(x.values()[4] == color.r as i128 && y.values()[4] == color2.r as i128);
            assert(x.values()[5] == color.g as i128 && y.values()[5] == color2.g as i128);
            assert(x.values()[6] == color.b as i128 && y.values()[6] == color2.b as i128);
        },
        (
            FilterParams::BevelEmboss { depth, soft, angle, elevation, mode, strength },
            FilterParams::BevelEmboss {
                depth: depth2,
                soft: soft2,
                angle: angle2,
                elevation: elevation2,
                mode: mode2,
                strength: strength2,
            },
        ) => {
            assert(x.values()[0] == depth as i128 && y.values()[0] == depth2 as i128);
            assert(x.values()[1] == soft as i128 && y.values()[1] == soft2 as i128);
            assert(x.values()[2] == angle as i128 && y.values()[2] == angle2 as i128);
            assert(x.values()[3] == elevation as i128 && y.values()[3] == elevation2 as i128);
            assert(x.values()[4] == mode.ord() && y.values()[4] == mode2.ord());
            assert(x.values()[5] == strength as i128 && y.values()[5] == strength2 as i128);
        },
        (
            FilterParams::Scanlines { spacing, thickness, opacity, color, vertical, soft },
            FilterParams::Scanlines {
                spacing: spacing2,
                thickness: thickness2,
                opacity: opacity2,
                color: color2,
                vertical: vertical2,
                soft: soft2,
            },
        ) => {
            assert(x.values()[0] == spacing as i128 && y.values()[0] == spacing2 as i128);
            assert(x.values()[1] == thickness as i128 && y.values()[1] == thickness2 as i128);
            assert(x.values()[2] == opacity as i128 && y.values()[2] == opacity2 as i128);
            assert(x.values()[3] == color.r as i128 && y.values()[3] == color2.r as i128);
            assert(x.values()[4] == color.g as i128 && y.values()[4] == color2.g as i128);
            assert(x.values()[5] == color.b as i128 && y.values()[5] == color2.b as i128);
            assert(x.values()[6] == flag(vertical) && y.values()[6] == flag(vertical2));
            assert(x.values()[7] == flag(soft) && y.values()[7] == flag(soft2));
        },
        (
            FilterParams::LiquidGlass {
                mode,
                radius,
                center_x,
                center_y,
                spacing,
                angle,
                refraction,
                specular,
                rim,
                softness,
                chroma,
                tint,
                tint_amount,
            },
            FilterParams::LiquidGlass {
                mode: mode2,
                radius: radius2,
                center_x: center_x2,
                center_y: center_y2,
                spacing: spacing2,
                angle: angle2,
                refraction: refraction2,
                specular: specular2,
                rim: rim2,
                softness: softness2,
                chroma: chroma2,
                tint: tint2,
                tint_amount: tint_amount2,
            },
        ) => {
            assert(x.values()[0] == mode.ord() && y.values()[0] == mode2.ord());
            assert(x.values()[1] == radius as i128 && y.values()[1] == radius2 as i128);
            assert(x.values()[2] == center_x as i128 && y.values()[2] == center_x2 as i128);
            assert(x.values()[3] == center_y as i128 && y.values()[3] == center_y2 as i128);
            assert(x.values()[4] == spacing as i128 && y.values()[4] == spacing2 as i128);
            assert(x.values()[5] == angle as i128 && y.values()[5] == angle2 as i128);
            assert(x.values()[6] == refraction as i128 && y.values()[6] == refraction2 as i128);
            assert(x.values()[7] == specular as i128 && y.values()[7] == specular2 as i128);
            assert(x.values()[8] == rim as i128 && y.values()[8] == rim2 as i128);
            assert(x.values()[9] == softness as i128 && y.values()[9] == softness2 as i128);
            assert(x.values()[10] == chroma as i128 && y.values()[10] == chroma2 as i128);
            assert(x.values()[11] == tint.r as i128 && y.values()[11] == tint2.r as i128);
            assert(x.values()[12] == tint.g as i128 && y.values()[12] == tint2.g as i128);
            assert(x.values()[13] == tint.b as i128 && y.values()[13] == tint2.b as i128);
            assert(x.values()[14] == tint_amount as i128 && y.values()[14] == tint_amount2 as i128);
        },
        _ => {},
    }
}

proof fn lemma_tells_8(x: FilterParams, y: FilterParams)
    requires
        x.spec_kind() == y.spec_kind(),
        x.values() == y.values(),
        x is Gradient,
    ensures
        x.alike(y),
{
    match (x, y) {
        (
            FilterParams::Gradient {
                shape,
                angle,
                spread,
                center_x,
                center_y,
                color_a,
                color_b,
                opacity_a,
                opacity_b,
                amount,
                blend,
                reverse,
            },
            FilterParams::Gradient {
                shape: shape2,
                angle: angle2,
                spread: spread2,
                center_x: center_x2,
                center_y: center_y2,
                color_a: color_a2,
                color_b: color_b2,
                opacity_a: opacity_a2,
                opacity_b: opacity_b2,
                amount: amount2,
                blend: blend2,
                reverse: reverse2,
            },
        ) => {
            assert(x.values()[0] == shape.ord() && y.values()[0] == shape2.ord());
            assert(x.values()[1] == angle as i128 && y.values()[1] == angle2 as i128);
            assert(x.values()[2] == spread as i128 && y.values()[2] == spread2 as i128);
            assert(x.values()[3] == center_x as i128 && y.values()[3] == center_x2 as i128);
            assert(x.values()[4] == center_y as i128 && y.values()[4] == center_y2 as i128);
            assert(x.values()[5] == color_a.r as i128 && y.values()[5] == color_a2.r as i128);
            assert(x.values()[6] == color_a.g as i128 && y.values()[6] == color_a2.g as i128);
            assert(x.values()[7] == color_a.b as i128 && y.values()[7] == color_a2.b as i128);
            assert(x.values()[8] == color_b.r as i128 && y.values()[8] == color_b2.r as i128);
            assert(x.values()[9] == color_b.g as i128 && y.values()[9] == color_b2.g as i128);
            assert(x.values()[10] == color_b.b as i128 && y.values()[10] == color_b2.b as i128);
            assert(x.values()[11] == opacity_a as i128 && y.values()[11] == opacity_a2 as i128);
            assert(x.values()[12] == opacity_b as i128 && y.values()[12] == opacity_b2 as i128);
            assert(x.values()[13] == amount as i128 && y.values()[13] == amount2 as i128);
            assert(x.values()[14] == blend.ord() && y.values()[14] == blend2.ord());
            assert(x.values()[15] == flag(reverse) && y.values()[15] == flag(reverse2));
        },
        _ => {},
    }
}

proof fn lemma_points(p: Seq<(i32, i32)>)
    ensures
        point_values(p).len() == 2 * p.len(),
        forall|i: int| 0 <= i < p.len() ==> point_values(p)[2 * i] == (#[trigger] p[i]).0 as i128,
        forall|i: int|
            0 <= i < p.len() ==> point_values(p)[2 * i + 1] == (#[trigger] p[i]).1 as i128,
    decreases p.len(),
{
    if p.len() > 0 {
        let q = p.drop_last();
        lemma_points(q);
        assert forall|i: int| 0 <= i < p.len() implies point_values(p)[2 * i] == (
        #[trigger] p[i]).0 as i128 && point_values(p)[2 * i + 1] == p[i].1 as i128 by {
            if i < q.len() {
                assert(q[i] == p[i]);
            }
        }
    }
}

/// Curves at the head of two equal lists of numbers are equal, and so is what
/// follows them.
proof fn lemma_curve_head(
    c: TransferCurve,
    d: TransferCurve,
    rest: Seq<i128>,
    other: Seq<i128>,
)
    requires
        curve_values(c) + rest == curve_values(d) + other,
    ensures
        c.points@ == d.points@,
        rest == other,
{
    let s = curve_values(c) + rest;
    let t = curve_values(d) + other;
    lemma_points(c.points@);
    lemma_points(d.points@);
    assert(c.points.len() == c.points@.len() && d.points.len() == d.points@.len());
    assert(s[0] == c.points@.len() as i128);
    assert(t[0] == d.points@.len() as i128);
    let n = c.points@.len();
    assert forall|i: int| 0 <= i < n implies c.points@[i] == d.points@[i] by {
        assert(s[1 + 2 * i] == point_values(c.points@)[2 * i]);
        assert(t[1 + 2 * i] == point_values(d.points@)[2 * i]);
        assert(s[2 + 2 * i] == point_values(c.points@)[2 * i + 1]);
        assert(t[2 + 2 * i] == point_values(d.points@)[2 * i + 1]);
    }
    assert(c.points@ =~= d.points@);
    assert(rest =~= s.skip(1 + 2 * n as int));
    assert(other =~= t.skip(1 + 2 * n as int));
}

proof fn lemma_tells_curves(x: FilterParams, y: FilterParams)
    requires
        x.values() == y.values(),
        x is Curves,
        y is Curves,
    ensures
        x.alike(y),
{
    match (x, y) {
        (
            FilterParams::Curves { rgb, red, green, blue, .. },
            FilterParams::Curves { rgb: rgb2, red: red2, green: green2, blue: blue2, .. },
        ) => {
            let e = Seq::<i128>::empty();
            let b1 = curve_values(blue) + e;
            let b2 = curve_values(blue2) + e;
            let g1 = curve_values(green) + b1;
            let g2 = curve_values(green2) + b2;
            let r1 = curve_values(red) + g1;
            let r2 = curve_values(red2) + g2;
            assert(x.values() =~= curve_values(rgb) + r1);
            assert(y.values() =~= curve_values(rgb2) + r2);
            lemma_curve_head(rgb, rgb2, r1, r2);
            lemma_curve_head(red, red2, g1, g2);
            lemma_curve_head(green, green2, b1, b2);
            lemma_curve_head(blue, blue2, e, e);
        },
        _ => {},
    }
}

proof fn lemma_char(c: char, d: char)
    requires
        c as u32 as i128 == d as u32 as i128,
    ensures
        c == d,
{
}

proof fn lemma_chars(a: Seq<char>, b: Seq<char>)
    requires
        char_values(a) == char_values(b),
    ensures
        a == b,
{
    assert(a.len() == char_values(a).len());
    assert(b.len() == char_values(b).len());
    assert forall|i: int| 0 <= i < a.len() implies a[i] == b[i] by {
        assert(char_values(a)[i] == a[i] as u32 as i128);
        assert(char_values(b)[i] == b[i] as u32 as i128);
        lemma_char(a[i], b[i]);
    }
    assert(a =~= b);
}

proof fn lemma_path_head(p: Option<String>, q: Option<String>, rest: Seq<i128>, other: Seq<i128>)
    requires
        path_values(p) + rest == path_values(q) + other,
        path_values(p).len() <= i128::MAX,
        path_values(q).len() <= i128::MAX,
    ensures
        opt_text(p) == opt_text(q),
        rest == other,
{
    let s = path_values(p) + rest;
    let t = path_values(q) + other;
    assert(s[0] == path_values(p)[0]);
    assert(t[0] == path_values(q)[0]);
    match (p, q) {
        (Some(a), Some(b)) => {
            let n = a@.len() as int;
            let m = b@.len() as int;
            assert(path_values(p).len() == 2 + n && path_values(q).len() == 2 + m);
            assert(s[1] == path_values(p)[1] && t[1] == path_values(q)[1]);
            assert(n == m);
            assert(char_values(a@) =~= s.subrange(2, 2 + n));
            assert(char_values(b@) =~= t.subrange(2, 2 + n));
            lemma_chars(a@, b@);
            assert(rest =~= s.skip(2 + n));
            assert(other =~= t.skip(2 + n));
        },
        (None, None) => {
            assert(rest =~= s.skip(1));
            assert(other =~= t.skip(1));
        },
        _ => {},
    }
}

proof fn lemma_tells_overlay(x: FilterParams, y: FilterParams)
    requires
        x.values() == y.values(),
        x.values().len() <= i128::MAX,
        x is ImageOverlay,
        y is ImageOverlay,
    ensures
        x.alike(y),
{
    match (x, y) {
        (
            FilterParams::ImageOverlay {
                path,
                rgba,
                tex_w,
                tex_h,
                blend,
                opacity,
                scale,
                rotation,
                offset_x,
                offset_y,
                tile,
            },
            FilterParams::ImageOverlay {
                path: path2,
                rgba: rgba2,
                tex_w: tex_w2,
                tex_h: tex_h2,
                blend: blend2,
                opacity: opacity2,
                scale: scale2,
                rotation: rotation2,
                offset_x: offset_x2,
                offset_y: offset_y2,
                tile: tile2,
            },
        ) => {
            let u = seq![
                tex_w as i128,
                tex_h as i128,
                pixel_count(rgba),
                blend.ord() as i128,
                opacity as i128,
                scale as i128,
                rotation as i128,
                offset_x as i128,
                offset_y as i128,
                flag(tile),
            ];
            let v = seq![
                tex_w2 as i128,
                tex_h2 as i128,
                pixel_count(rgba2),
                blend2.ord() as i128,
                opacity2 as i128,
                scale2 as i128,
                rotation2 as i128,
                offset_x2 as i128,
                offset_y2 as i128,
                flag(tile2),
            ];
            lemma_path_head(path, path2, u, v);
            assert(u[0] == v[0] && u[1] == v[1] && u[2] == v[2] && u[3] == v[3] && u[4] == v[4]);
            assert(u[5] == v[5] && u[6] == v[6] && u[7] == v[7] && u[8] == v[8] && u[9] == v[9]);
        },
        _ => {},
    }
}

/// Filters of one kind with the same numbers have the same effect.
pub proof fn law_values_tell(x: FilterParams, y: FilterParams)
    requires
        x.spec_kind() == y.spec_kind(),
        x.values() == y.values(),
        x.values().len() <= i128::MAX,
    ensures
        x.alike(y),
{
    if x is Gaussian || x is Motion || x is Radial || x is Unsharp || x is BrightnessContrast || x is Levels {
        lemma_tells_1(x, y);
    } else if x is HueSaturation || x is ColorBalance || x is Pixelize || x is HexPixelize || x is TriPixelize || x is HexDots {
        lemma_tells_2(x, y);
    } else if x is Posterize || x is Crystallize || x is Pointillize || x is ColorHalftone || x is Fisheye || x is SphericalLens {
        lemma_tells_3(x, y);
    } else if x is Ripple || x is Twist || x is ChromaticAberration || x is Noise || x is Glitch || x is Vignette {
        lemma_tells_4(x, y);
    } else if x is Glow || x is Sepia || x is FilmGrain || x is Dither || x is ReplaceColor || x is Outline {
        lemma_tells_5(x, y);
    } else if x is OilPaint || x is Watercolor || x is Pencil || x is Pastel || x is PaperTexture || x is NeonGlow {
        lemma_tells_6(x, y);
    } else if x is LightRays || x is LensFlare || x is DropShadow || x is BevelEmboss || x is Scanlines || x is LiquidGlass {
        lemma_tells_7(x, y);
    } else if x is Gradient {
        lemma_tells_8(x, y);
    } else if x is Curves {
        lemma_tells_curves(x, y);
    } else if x is ImageOverlay {
        lemma_tells_overlay(x, y);
    }
}

proof fn lemma_kind_ord(a: StudioFilterKind, b: StudioFilterKind)
    requires
        a.ord() == b.ord(),
    ensures
        a == b,
{
}

/// Whether two entries have the same effect.
pub open spec fn entry_alike(a: StackEntry, b: StackEntry) -> bool {
    a.params.alike(b.params) && a.advanced_open == b.advanced_open
}

/// A filter at the end of two equal lists of numbers is the same, and so is
/// what comes before it, where the lists before it are as long.
proof fn lemma_entry_head(a: StackEntry, b: StackEntry, rest: Seq<i128>, other: Seq<i128>)
    requires
        entry_feed(a) + rest == entry_feed(b) + other,
        a.params.values().len() <= i128::MAX,
        b.params.values().len() <= i128::MAX,
    ensures
        entry_alike(a, b),
        rest == other,
{
    let s = entry_feed(a) + rest;
    let t = entry_feed(b) + other;
    let v = a.params.values();
    let w = b.params.values();
    assert(s[0] == a.params.spec_kind().ord() as i128);
    assert(t[0] == b.params.spec_kind().ord() as i128);
    assert(s[1] == v.len() as i128);
    assert(t[1] == w.len() as i128);
    lemma_kind_ord(a.params.spec_kind(), b.params.spec_kind());
    let n = v.len() as int;
    assert(v =~= s.subrange(2, 2 + n));
    assert(w =~= t.subrange(2, 2 + n));
    law_values_tell(a.params, b.params);
    assert(s[2 + n] == flag(a.advanced_open));
    assert(t[2 + n] == flag(b.advanced_open));
    assert(rest =~= s.skip(3 + n));
    assert(other =~= t.skip(3 + n));
}

/// The numbers of a stack from the front.
proof fn lemma_entries_front(stack: Seq<StackEntry>)
    requires
        stack.len() > 0,
    ensures
        entries_feed(stack) == entry_feed(stack[0]) + entries_feed(stack.drop_first()),
    decreases stack.len(),
{
    if stack.len() == 1 {
        assert(stack.drop_last() =~= Seq::empty());
        assert(stack.drop_first() =~= Seq::empty());
        assert(entries_feed(stack) =~= entry_feed(stack[0]));
        assert(entry_feed(stack[0]) + Seq::<i128>::empty() =~= entry_feed(stack[0]));
    } else {
        lemma_entries_front(stack.drop_last());
        assert(stack.drop_last().drop_first() =~= stack.drop_first().drop_last());
        assert(stack.drop_first().last() == stack.last());
        assert(entries_feed(stack) =~= entry_feed(stack[0]) + entries_feed(stack.drop_first()));
    }
}

proof fn lemma_entries_tell(s: Seq<StackEntry>, t: Seq<StackEntry>)
    requires
        s.len() == t.len(),
        entries_feed(s) == entries_feed(t),
        forall|i: int| 0 <= i < s.len() ==> (#[trigger] s[i]).params.values().len() <= i128::MAX,
        forall|i: int| 0 <= i < t.len() ==> (#[trigger] t[i]).params.values().len() <= i128::MAX,
    ensures
        forall|i: int| 0 <= i < s.len() ==> entry_alike(#[trigger] s[i], t[i]),
    decreases s.len(),
{
    if s.len() > 0 {
        lemma_entries_front(s);
        lemma_entries_front(t);
        let s2 = s.drop_first();
        let t2 = t.drop_first();
        lemma_entry_head(s[0], t[0], entries_feed(s2), entries_feed(t2));
        assert forall|i: int| 0 <= i < s2.len() implies (#[trigger] s2[i]).params.values().len()
            <= i128::MAX by {
            assert(s2[i] == s[i + 1]);
        }
        assert forall|i: int| 0 <= i < t2.len() implies (#[trigger] t2[i]).params.values().len()
            <= i128::MAX by {
            assert(t2[i] == t[i + 1]);
        }
        lemma_entries_tell(s2, t2);
        assert forall|i: int| 0 <= i < s.len() implies entry_alike(#[trigger] s[i], t[i]) by {
            if i > 0 {
                assert(entry_alike(s2[i - 1], t2[i - 1]));
            }
        }
    }
}

/// Two previews whose numbers agree show the same layers through stacks with
/// the same effect. What is hashed into a preview's key leaves nothing out.
pub proof fn law_stack_feed_tells(
    v: StudioVisibility,
    s: Seq<StackEntry>,
    w: StudioVisibility,
    t: Seq<StackEntry>,
)
    requires
        stack_feed(v, s) == stack_feed(w, t),
        s.len() <= i128::MAX,
        t.len() <= i128::MAX,
        forall|i: int| 0 <= i < s.len() ==> (#[trigger] s[i]).params.values().len() <= i128::MAX,
        forall|i: int| 0 <= i < t.len() ==> (#[trigger] t[i]).params.values().len() <= i128::MAX,
    ensures
        v == w,
        s.len() == t.len(),
        forall|i: int| 0 <= i < s.len() ==> entry_alike(#[trigger] s[i], t[i]),
{
    let a = stack_feed(v, s);
    let b = stack_feed(w, t);
    assert(a[0] == visibility_ord(v) && b[0] == visibility_ord(w));
    assert(a[1] == s.len() as i128 && b[1] == t.len() as i128);
    assert(entries_feed(s) =~= a.skip(2));
    assert(entries_feed(t) =~= b.skip(2));
    lemma_entries_tell(s, t);
}

} // verus!
