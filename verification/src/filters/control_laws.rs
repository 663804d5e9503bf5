//! What the controls of each filter show, from top to bottom, and within which
//! limits.
use vstd::prelude::*;
use crate::filters::choice::{
    BevelMode, BlendMode, ChromaMode, DitherMethod, FisheyeModel, GlitchMethod, GradientShape,
    HalftoneMode, HalftonePaper, LiquidGlassMode, NoiseMethod, OutlineMode, PixelizeMethod,
    ReplaceAffect, Rgb, RippleMode, VignetteShape,
};
use crate::filters::control::Control;
use crate::filters::params::FilterParams;

verus! {

/// What gaussian shows.
#[verifier::spinoff_prover]
pub proof fn law_controls_of_gaussian(radius: i32, advanced_open: bool)
    ensures
        ({
            let p = FilterParams::Gaussian { radius };
            let list = p.spec_controls(advanced_open);
            &&& list.len() == 1
            &&& list[0] == (Control::Slider { label: "Radius", value: radius, lo: 500, hi: 80_000 })
        }),
{
}

/// What motion shows.
#[verifier::spinoff_prover]
pub proof fn law_controls_of_motion(length: i32, angle: i32, advanced_open: bool)
    ensures
        ({
            let p = FilterParams::Motion { length, angle };
            let list = p.spec_controls(advanced_open);
            &&& list.len() == 2
            &&& list[0] == (Control::Slider { label: "Length", value: length, lo: 1000, hi: 120_000 })
            &&& list[1] == (Control::Slider { label: "Angle", value: angle, lo: (-180_000) as i32, hi: 180_000 })
        }),
{
}

/// What radial shows.
#[verifier::spinoff_prover]
pub proof fn law_controls_of_radial(amount: i32, zoom_mode: bool, advanced_open: bool)
    ensures
        ({
            let p = FilterParams::Radial { amount, zoom_mode };
            let list = p.spec_controls(advanced_open);
            &&& list.len() == 2
            &&& list[0] == (Control::Switch { label: "Zoom", on: zoom_mode })
            &&& list[1] == (Control::Slider { label: "Amount", value: amount, lo: 0, hi: 100_000 })
        }),
{
}

/// What unsharp shows.
#[verifier::spinoff_prover]
pub proof fn law_controls_of_unsharp(amount: i32, radius: i32, advanced_open: bool)
    ensures
        ({
            let p = FilterParams::Unsharp { amount, radius };
            let list = p.spec_controls(advanced_open);
            &&& list.len() == 2
            &&& list[0] == (Control::Slider { label: "Amount", value: amount, lo: 0, hi: 300_000 })
            &&& list[1] == (Control::Slider { label: "Radius", value: radius, lo: 500, hi: 12_000 })
        }),
{
}

/// What brightness contrast shows.
#[verifier::spinoff_prover]
pub proof fn law_controls_of_brightness_contrast(brightness: i32, contrast: i32, advanced_open: bool)
    ensures
        ({
            let p = FilterParams::BrightnessContrast { brightness, contrast };
            let list = p.spec_controls(advanced_open);
            &&& list.len() == 2
            &&& list[0] == (Control::Slider { label: "Brightness", value: brightness, lo: (-100_000) as i32, hi: 100_000 })
            &&& list[1] == (Control::Slider { label: "Contrast", value: contrast, lo: (-100_000) as i32, hi: 100_000 })
        }),
{
}

/// What color balance shows.
#[verifier::spinoff_prover]
pub proof fn law_controls_of_color_balance(
    cyan_red: i32,
    magenta_green: i32,
    yellow_blue: i32,
    advanced_open: bool,
)
    ensures
        ({
            let p = FilterParams::ColorBalance {
                cyan_red,
                magenta_green,
                yellow_blue,
            };
            let list = p.spec_controls(advanced_open);
            &&& list.len() == 3
            &&& list[0] == (Control::Slider { label: "Cyan — Red", value: cyan_red, lo: (-100_000) as i32, hi: 100_000 })
            &&& list[1] == (Control::Slider { label: "Magenta — Green", value: magenta_green, lo: (-100_000) as i32, hi: 100_000 })
            &&& list[2] == (Control::Slider { label: "Yellow — Blue", value: yellow_blue, lo: (-100_000) as i32, hi: 100_000 })
        }),
{
}

/// What pixelize shows.
#[verifier::spinoff_prover]
pub proof fn law_controls_of_pixelize(
    method: PixelizeMethod,
    block: u32,
    soft_amount: i32,
    advanced_open: bool,
)
    ensures
        ({
            let p = FilterParams::Pixelize { method, block, soft_amount };
            let list = p.spec_controls(advanced_open);
            &&& (method is Soft) ==> {
                &&& list.len() == 3
                &&& list[0] == (Control::Choice { label: "Method", chosen: method.ord() as i128 })
                &&& list[1] == (Control::Count { label: "Block size", value: block, lo: 2, hi: 64 })
                &&& list[2] == (Control::Slider { label: "Soft amount", value: soft_amount, lo: 0, hi: 100_000 })
            }
            &&& !(method is Soft) ==> {
                &&& list.len() == 2
                &&& list[0] == (Control::Choice { label: "Method", chosen: method.ord() as i128 })
                &&& list[1] == (Control::Count { label: "Block size", value: block, lo: 2, hi: 64 })
            }
        }),
{
}

/// What hex pixelize shows.
#[verifier::spinoff_prover]
pub proof fn law_controls_of_hex_pixelize(size: u32, advanced_open: bool)
    ensures
        ({
            let p = FilterParams::HexPixelize { size };
            let list = p.spec_controls(advanced_open);
            &&& list.len() == 1
            &&& list[0] == (Control::Count { label: "Cell size", value: size, lo: 4, hi: 64 })
        }),
{
}

/// What tri pixelize shows.
#[verifier::spinoff_prover]
pub proof fn law_controls_of_tri_pixelize(size: u32, advanced_open: bool)
    ensures
        ({
            let p = FilterParams::TriPixelize { size };
            let list = p.spec_controls(advanced_open);
            &&& list.len() == 1
            &&& list[0] == (Control::Count { label: "Cell size", value: size, lo: 4, hi: 64 })
        }),
{
}

/// What hex dots shows.
#[verifier::spinoff_prover]
pub proof fn law_controls_of_hex_dots(
    size: u32,
    fill_pct: i32,
    soft_edge: bool,
    advanced_open: bool,
)
    ensures
        ({
            let p = FilterParams::HexDots { size, fill_pct, soft_edge };
            let list = p.spec_controls(advanced_open);
            &&& list.len() == 3
            &&& list[0] == (Control::Count { label: "Cell size", value: size, lo: 4, hi: 64 })
            &&& list[1] == (Control::Slider { label: "Fill %", value: fill_pct, lo: 20_000, hi: 100_000 })
            &&& list[2] == (Control::Switch { label: "Soft edge", on: soft_edge })
        }),
{
}

/// What posterize shows.
#[verifier::spinoff_prover]
pub proof fn law_controls_of_posterize(levels: u32, advanced_open: bool)
    ensures
        ({
            let p = FilterParams::Posterize { levels };
            let list = p.spec_controls(advanced_open);
            &&& list.len() == 1
            &&& list[0] == (Control::Count { label: "Levels", value: levels, lo: 2, hi: 32 })
        }),
{
}

/// What crystallize shows.
#[verifier::spinoff_prover]
pub proof fn law_controls_of_crystallize(size: u32, advanced_open: bool)
    ensures
        ({
            let p = FilterParams::Crystallize { size };
            let list = p.spec_controls(advanced_open);
            &&& list.len() == 1
            &&& list[0] == (Control::Count { label: "Crystal size", value: size, lo: 4, hi: 96 })
        }),
{
}

/// What pointillize shows.
#[verifier::spinoff_prover]
pub proof fn law_controls_of_pointillize(size: u32, density: i32, bg: Rgb, advanced_open: bool)
    ensures
        ({
            let p = FilterParams::Pointillize { size, density, bg };
            let list = p.spec_controls(advanced_open);
            &&& list.len() == 3
            &&& list[0] == (Control::Count { label: "Dot size", value: size, lo: 3, hi: 64 })
            &&& list[1] == (Control::Slider { label: "Density", value: density, lo: 10_000, hi: 100_000 })
            &&& list[2] == (Control::Colour { label: "Background", value: bg })
        }),
{
}

/// What color halftone shows.
#[verifier::spinoff_prover]
pub proof fn law_controls_of_color_halftone(
    size: u32,
    angle: i32,
    mode: HalftoneMode,
    paper: HalftonePaper,
    bg: Rgb,
    strength: i32,
    softness: i32,
    contrast: i32,
    angle_c: i32,
    angle_m: i32,
    angle_y: i32,
    angle_k: i32,
    advanced_open: bool,
)
    ensures
        ({
            let p = FilterParams::ColorHalftone {
                size,
                angle,
                mode,
                paper,
                bg,
                strength,
                softness,
                contrast,
                angle_c,
                angle_m,
                angle_y,
                angle_k,
            };
            let list = p.spec_controls(advanced_open);
            &&& (paper is Replace) ==> {
                &&& list.len() == 12
                &&& list[0] == (Control::Choice { label: "Mode", chosen: mode.ord() as i128 })
                &&& list[1] == (Control::Choice { label: "Paper", chosen: paper.ord() as i128 })
                &&& list[2] == (Control::Count { label: "Dot size", value: size, lo: 2, hi: 64 })
                &&& list[3] == (Control::Slider { label: "Base angle", value: angle, lo: (-180_000) as i32, hi: 180_000 })
                &&& list[4] == (Control::Slider { label: "Strength", value: strength, lo: 0, hi: 100_000 })
                &&& list[5] == (Control::Slider { label: "Softness", value: softness, lo: 0, hi: 100_000 })
                &&& list[6] == (Control::Slider { label: "Contrast", value: contrast, lo: 25_000, hi: 250_000 })
                &&& list[7] == (Control::Colour { label: "Paper color", value: bg })
                &&& list[8] == (Control::Slider { label: "C / R", value: angle_c, lo: (-180_000) as i32, hi: 180_000 })
                &&& list[9] == (Control::Slider { label: "M / G", value: angle_m, lo: (-180_000) as i32, hi: 180_000 })
                &&& list[10] == (Control::Slider { label: "Y / B", value: angle_y, lo: (-180_000) as i32, hi: 180_000 })
                &&& list[11] == (Control::Slider { label: "K / Mono", value: angle_k, lo: (-180_000) as i32, hi: 180_000 })
            }
            &&& !(paper is Replace) ==> {
                &&& list.len() == 11
                &&& list[0] == (Control::Choice { label: "Mode", chosen: mode.ord() as i128 })
                &&& list[1] == (Control::Choice { label: "Paper", chosen: paper.ord() as i128 })
                &&& list[2] == (Control::Count { label: "Dot size", value: size, lo: 2, hi: 64 })
                &&& list[3] == (Control::Slider { label: "Base angle", value: angle, lo: (-180_000) as i32, hi: 180_000 })
                &&& list[4] == (Control::Slider { label: "Strength", value: strength, lo: 0, hi: 100_000 })
                &&& list[5] == (Control::Slider { label: "Softness", value: softness, lo: 0, hi: 100_000 })
                &&& list[6] == (Control::Slider { label: "Contrast", value: contrast, lo: 25_000, hi: 250_000 })
                &&& list[7] == (Control::Slider { label: "C / R", value: angle_c, lo: (-180_000) as i32, hi: 180_000 })
                &&& list[8] == (Control::Slider { label: "M / G", value: angle_m, lo: (-180_000) as i32, hi: 180_000 })
                &&& list[9] == (Control::Slider { label: "Y / B", value: angle_y, lo: (-180_000) as i32, hi: 180_000 })
                &&& list[10] == (Control::Slider { label: "K / Mono", value: angle_k, lo: (-180_000) as i32, hi: 180_000 })
            }
        }),
{
}

/// What fisheye shows.
#[verifier::spinoff_prover]
pub proof fn law_controls_of_fisheye(
    model: FisheyeModel,
    amount: i32,
    radius: i32,
    center_x: i32,
    center_y: i32,
    advanced_open: bool,
)
    ensures
        ({
            let p = FilterParams::Fisheye {
                model,
                amount,
                radius,
                center_x,
                center_y,
            };
            let list = p.spec_controls(advanced_open);
            &&& list.len() == 5
            &&& list[0] == (Control::Choice { label: "Model", chosen: model.ord() as i128 })
            &&& list[1] == (Control::Slider { label: "Amount", value: amount, lo: (-1000) as i32, hi: 1000 })
            &&& list[2] == (Control::Slider { label: "Radius %", value: radius, lo: 10_000, hi: 200_000 })
            &&& list[3] == (Control::Slider { label: "Center X %", value: center_x, lo: 0, hi: 100_000 })
            &&& list[4] == (Control::Slider { label: "Center Y %", value: center_y, lo: 0, hi: 100_000 })
        }),
{
}

/// What spherical lens shows.
#[verifier::spinoff_prover]
pub proof fn law_controls_of_spherical_lens(
    amount: i32,
    radius: i32,
    center_x: i32,
    center_y: i32,
    advanced_open: bool,
)
    ensures
        ({
            let p = FilterParams::SphericalLens {
                amount,
                radius,
                center_x,
                center_y,
            };
            let list = p.spec_controls(advanced_open);
            &&& list.len() == 4
            &&& list[0] == (Control::Slider { label: "Amount", value: amount, lo: (-1000) as i32, hi: 1000 })
            &&& list[1] == (Control::Slider { label: "Radius %", value: radius, lo: 10_000, hi: 200_000 })
            &&& list[2] == (Control::Slider { label: "Center X %", value: center_x, lo: 0, hi: 100_000 })
            &&& list[3] == (Control::Slider { label: "Center Y %", value: center_y, lo: 0, hi: 100_000 })
        }),
{
}

/// What ripple shows.
#[verifier::spinoff_prover]
pub proof fn law_controls_of_ripple(
    mode: RippleMode,
    amount: i32,
    wavelength: i32,
    angle: i32,
    center_x: i32,
    center_y: i32,
    advanced_open: bool,
)
    ensures
        ({
            let p = FilterParams::Ripple {
                mode,
                amount,
                wavelength,
                angle,
                center_x,
                center_y,
            };
            let list = p.spec_controls(advanced_open);
            &&& (mode is Linear) ==> {
                &&& list.len() == 6
                &&& list[0] == (Control::Choice { label: "Mode", chosen: mode.ord() as i128 })
                &&& list[1] == (Control::Slider { label: "Amount", value: amount, lo: 0, hi: 40_000 })
                &&& list[2] == (Control::Slider { label: "Wavelength", value: wavelength, lo: 4000, hi: 200_000 })
                &&& list[3] == (Control::Slider { label: "Angle", value: angle, lo: (-180_000) as i32, hi: 180_000 })
                &&& list[4] == (Control::Slider { label: "Center X %", value: center_x, lo: 0, hi: 100_000 })
                &&& list[5] == (Control::Slider { label: "Center Y %", value: center_y, lo: 0, hi: 100_000 })
            }
            &&& !(mode is Linear) ==> {
                &&& list.len() == 5
                &&& list[0] == (Control::Choice { label: "Mode", chosen: mode.ord() as i128 })
                &&& list[1] == (Control::Slider { label: "Amount", value: amount, lo: 0, hi: 40_000 })
                &&& list[2] == (Control::Slider { label: "Wavelength", value: wavelength, lo: 4000, hi: 200_000 })
                &&& list[3] == (Control::Slider { label: "Center X %", value: center_x, lo: 0, hi: 100_000 })
                &&& list[4] == (Control::Slider { label: "Center Y %", value: center_y, lo: 0, hi: 100_000 })
            }
        }),
{
}

/// What twist shows.
#[verifier::spinoff_prover]
pub proof fn law_controls_of_twist(
    amount: i32,
    radius: i32,
    center_x: i32,
    center_y: i32,
    advanced_open: bool,
)
    ensures
        ({
            let p = FilterParams::Twist { amount, radius, center_x, center_y };
            let list = p.spec_controls(advanced_open);
            &&& list.len() == 4
            &&& list[0] == (Control::Slider { label: "Amount", value: amount, lo: (-3000) as i32, hi: 3000 })
            &&& list[1] == (Control::Slider { label: "Radius %", value: radius, lo: 10_000, hi: 200_000 })
            &&& list[2] == (Control::Slider { label: "Center X %", value: center_x, lo: 0, hi: 100_000 })
            &&& list[3] == (Control::Slider { label: "Center Y %", value: center_y, lo: 0, hi: 100_000 })
        }),
{
}

/// What chromatic aberration shows.
#[verifier::spinoff_prover]
pub proof fn law_controls_of_chromatic_aberration(
    mode: ChromaMode,
    amount: i32,
    angle: i32,
    center_atten: i32,
    red_scale: i32,
    blue_scale: i32,
    advanced_open: bool,
)
    ensures
        ({
            let p = FilterParams::ChromaticAberration {
                mode,
                amount,
                angle,
                center_atten,
                red_scale,
                blue_scale,
            };
            let list = p.spec_controls(advanced_open);
            &&& (advanced_open) ==> {
                &&& list.len() == 6
                &&& list[0] == (Control::Choice { label: "Mode", chosen: mode.ord() as i128 })
                &&& list[1] == (Control::Slider { label: "Amount", value: amount, lo: 0, hi: 64_000 })
                &&& list[2] == (Control::Slider { label: "Angle", value: angle, lo: (-180_000) as i32, hi: 180_000 })
                &&& list[3] == (Control::Slider { label: "Edge only", value: center_atten, lo: 0, hi: 100_000 })
                &&& list[4] == (Control::Slider { label: "Red shift", value: red_scale, lo: 0, hi: 2000 })
                &&& list[5] == (Control::Slider { label: "Blue shift", value: blue_scale, lo: 0, hi: 2000 })
            }
            &&& !(advanced_open) ==> {
                &&& list.len() == 3
                &&& list[0] == (Control::Choice { label: "Mode", chosen: mode.ord() as i128 })
                &&& list[1] == (Control::Slider { label: "Amount", value: amount, lo: 0, hi: 64_000 })
                &&& list[2] == (Control::Slider { label: "Angle", value: angle, lo: (-180_000) as i32, hi: 180_000 })
            }
        }),
{
}

/// What noise shows.
#[verifier::spinoff_prover]
pub proof fn law_controls_of_noise(
    method: NoiseMethod,
    amount: i32,
    monochrome: bool,
    advanced_open: bool,
)
    ensures
        ({
            let p = FilterParams::Noise { method, amount, monochrome };
            let list = p.spec_controls(advanced_open);
            &&& list.len() == 3
            &&& list[0] == (Control::Choice { label: "Method", chosen: method.ord() as i128 })
            &&& list[1] == (Control::Slider { label: "Amount", value: amount, lo: 0, hi: 100_000 })
            &&& list[2] == (Control::Switch { label: "Monochrome", on: monochrome })
        }),
{
}

/// What glitch shows.
#[verifier::spinoff_prover]
pub proof fn law_controls_of_glitch(
    method: GlitchMethod,
    amount: i32,
    slice_height: i32,
    max_shift: i32,
    advanced_open: bool,
)
    ensures
        ({
            let p = FilterParams::Glitch {
                method,
                amount,
                slice_height,
                max_shift,
            };
            let list = p.spec_controls(advanced_open);
            &&& list.len() == 4
            &&& list[0] == (Control::Choice { label: "Method", chosen: method.ord() as i128 })
            &&& list[1] == (Control::Slider { label: "Amount", value: amount, lo: 0, hi: 100_000 })
            &&& list[2] == (Control::Slider { label: "Slice / block", value: slice_height, lo: 2000, hi: 64_000 })
            &&& list[3] == (Control::Slider { label: "Max shift", value: max_shift, lo: 1000, hi: 120_000 })
        }),
{
}

/// What vignette shows.
#[verifier::spinoff_prover]
pub proof fn law_controls_of_vignette(
    shape: VignetteShape,
    amount: i32,
    softness: i32,
    roundness: i32,
    color: Rgb,
    advanced_open: bool,
)
    ensures
        ({
            let p = FilterParams::Vignette {
                shape,
                amount,
                softness,
                roundness,
                color,
            };
            let list = p.spec_controls(advanced_open);
            &&& (shape is Ellipse) ==> {
                &&& list.len() == 5
                &&& list[0] == (Control::Choice { label: "Shape", chosen: shape.ord() as i128 })
                &&& list[1] == (Control::Slider { label: "Amount", value: amount, lo: 0, hi: 100_000 })
                &&& list[2] == (Control::Slider { label: "Softness", value: softness, lo: 5000, hi: 100_000 })
                &&& list[3] == (Control::Slider { label: "Roundness", value: roundness, lo: 0, hi: 100_000 })
                &&& list[4] == (Control::Colour { label: "Color", value: color })
            }
            &&& !(shape is Ellipse) ==> {
                &&& list.len() == 4
                &&& list[0] == (Control::Choice { label: "Shape", chosen: shape.ord() as i128 })
                &&& list[1] == (Control::Slider { label: "Amount", value: amount, lo: 0, hi: 100_000 })
                &&& list[2] == (Control::Slider { label: "Softness", value: softness, lo: 5000, hi: 100_000 })
                &&& list[3] == (Control::Colour { label: "Color", value: color })
            }
        }),
{
}

/// What glow shows.
#[verifier::spinoff_prover]
pub proof fn law_controls_of_glow(
    radius: i32,
    intensity: i32,
    tint: bool,
    color: Rgb,
    advanced_open: bool,
)
    ensures
        ({
            let p = FilterParams::Glow { radius, intensity, tint, color };
            let list = p.spec_controls(advanced_open);
            &&& (tint) ==> {
                &&& list.len() == 4
                &&& list[0] == (Control::Slider { label: "Radius", value: radius, lo: 500, hi: 64_000 })
                &&& list[1] == (Control::Slider { label: "Intensity", value: intensity, lo: 0, hi: 200_000 })
                &&& list[2] == (Control::Switch { label: "Tint color", on: tint })
                &&& list[3] == (Control::Colour { label: "Color", value: color })
            }
            &&& !(tint) ==> {
                &&& list.len() == 3
                &&& list[0] == (Control::Slider { label: "Radius", value: radius, lo: 500, hi: 64_000 })
                &&& list[1] == (Control::Slider { label: "Intensity", value: intensity, lo: 0, hi: 200_000 })
                &&& list[2] == (Control::Switch { label: "Tint color", on: tint })
            }
        }),
{
}

/// What sepia shows.
#[verifier::spinoff_prover]
pub proof fn law_controls_of_sepia(amount: i32, warmth: i32, advanced_open: bool)
    ensures
        ({
            let p = FilterParams::Sepia { amount, warmth };
            let list = p.spec_controls(advanced_open);
            &&& list.len() == 2
            &&& list[0] == (Control::Slider { label: "Amount", value: amount, lo: 0, hi: 100_000 })
            &&& list[1] == (Control::Slider { label: "Warmth", value: warmth, lo: 0, hi: 100_000 })
        }),
{
}

/// What film grain shows.
#[verifier::spinoff_prover]
pub proof fn law_controls_of_film_grain(
    amount: i32,
    size: i32,
    roughness: i32,
    monochrome: bool,
    shadow_bias: i32,
    advanced_open: bool,
)
    ensures
        ({
            let p = FilterParams::FilmGrain {
                amount,
                size,
                roughness,
                monochrome,
                shadow_bias,
            };
            let list = p.spec_controls(advanced_open);
            &&& list.len() == 5
            &&& list[0] == (Control::Slider { label: "Amount", value: amount, lo: 0, hi: 100_000 })
            &&& list[1] == (Control::Slider { label: "Size", value: size, lo: 250, hi: 8000 })
            &&& list[2] == (Control::Slider { label: "Roughness", value: roughness, lo: 0, hi: 100_000 })
            &&& list[3] == (Control::Switch { label: "Monochrome", on: monochrome })
            &&& list[4] == (Control::Slider { label: "Shadow bias", value: shadow_bias, lo: 0, hi: 100_000 })
        }),
{
}

/// What dither shows.
#[verifier::spinoff_prover]
pub proof fn law_controls_of_dither(
    method: DitherMethod,
    levels: u32,
    amount: i32,
    serpentine: bool,
    pattern_size: i32,
    monochrome: bool,
    advanced_open: bool,
)
    ensures
        ({
            let p = FilterParams::Dither {
                method,
                levels,
                amount,
                serpentine,
                pattern_size,
                monochrome,
            };
            let list = p.spec_controls(advanced_open);
            &&& (method is FloydSteinberg) ==> {
                &&& list.len() == 6
                &&& list[0] == (Control::Choice { label: "Method", chosen: method.ord() as i128 })
                &&& list[1] == (Control::Count { label: "Levels", value: levels, lo: 2, hi: 32 })
                &&& list[2] == (Control::Slider { label: "Amount", value: amount, lo: 0, hi: 100_000 })
                &&& list[3] == (Control::Slider { label: "Pattern size", value: pattern_size, lo: 250, hi: 16_000 })
                &&& list[4] == (Control::Switch { label: "Monochrome (luma)", on: monochrome })
                &&& list[5] == (Control::Switch { label: "Serpentine scan", on: serpentine })
            }
            &&& !(method is FloydSteinberg) ==> {
                &&& list.len() == 5
                &&& list[0] == (Control::Choice { label: "Method", chosen: method.ord() as i128 })
                &&& list[1] == (Control::Count { label: "Levels", value: levels, lo: 2, hi: 32 })
                &&& list[2] == (Control::Slider { label: "Amount", value: amount, lo: 0, hi: 100_000 })
                &&& list[3] == (Control::Slider { label: "Pattern size", value: pattern_size, lo: 250, hi: 16_000 })
                &&& list[4] == (Control::Switch { label: "Monochrome (luma)", on: monochrome })
            }
        }),
{
}

/// What replace color shows.
#[verifier::spinoff_prover]
pub proof fn law_controls_of_replace_color(
    from: Rgb,
    to: Rgb,
    tolerance: i32,
    softness: i32,
    affect: ReplaceAffect,
    amount: i32,
    advanced_open: bool,
)
    ensures
        ({
            let p = FilterParams::ReplaceColor {
                from,
                to,
                tolerance,
                softness,
                affect,
                amount,
            };
            let list = p.spec_controls(advanced_open);
            &&& list.len() == 6
            &&& list[0] == (Control::Colour { label: "From", value: from })
            &&& list[1] == (Control::Colour { label: "To", value: to })
            &&& list[2] == (Control::Slider { label: "Tolerance", value: tolerance, lo: 0, hi: 100_000 })
            &&& list[3] == (Control::Slider { label: "Softness", value: softness, lo: 0, hi: 100_000 })
            &&& list[4] == (Control::Choice { label: "Affect", chosen: affect.ord() as i128 })
            &&& list[5] == (Control::Slider { label: "Amount", value: amount, lo: 0, hi: 100_000 })
        }),
{
}

/// What outline shows.
#[verifier::spinoff_prover]
pub proof fn law_controls_of_outline(
    thickness: i32,
    threshold: i32,
    softness: i32,
    color: Rgb,
    opacity: i32,
    mode: OutlineMode,
    use_luma: bool,
    advanced_open: bool,
)
    ensures
        ({
            let p = FilterParams::Outline {
                thickness,
                threshold,
                softness,
                color,
                opacity,
                mode,
                use_luma,
            };
            let list = p.spec_controls(advanced_open);
            &&& list.len() == 7
            &&& list[0] == (Control::Choice { label: "Mode", chosen: mode.ord() as i128 })
            &&& list[1] == (Control::Slider { label: "Thickness", value: thickness, lo: 500, hi: 24_000 })
            &&& list[2] == (Control::Slider { label: "Threshold", value: threshold, lo: 1000, hi: 100_000 })
            &&& list[3] == (Control::Slider { label: "Softness", value: softness, lo: 0, hi: 100_000 })
            &&& list[4] == (Control::Slider { label: "Opacity", value: opacity, lo: 0, hi: 100_000 })
            &&& list[5] == (Control::Colour { label: "Color", value: color })
            &&& list[6] == (Control::Switch { label: "Use luminance edges", on: use_luma })
        }),
{
}

/// What oil paint shows.
#[verifier::spinoff_prover]
pub proof fn law_controls_of_oil_paint(radius: i32, levels: u32, strength: i32, advanced_open: bool)
    ensures
        ({
            let p = FilterParams::OilPaint { radius, levels, strength };
            let list = p.spec_controls(advanced_open);
            &&& list.len() == 3
            &&& list[0] == (Control::Slider { label: "Brush size", value: radius, lo: 1000, hi: 12_000 })
            &&& list[1] == (Control::Count { label: "Levels", value: levels, lo: 4, hi: 32 })
            &&& list[2] == (Control::Slider { label: "Strength", value: strength, lo: 0, hi: 100_000 })
        }),
{
}

/// What watercolor shows.
#[verifier::spinoff_prover]
pub proof fn law_controls_of_watercolor(
    blur: i32,
    bleed: i32,
    edge: i32,
    saturation: i32,
    strength: i32,
    advanced_open: bool,
)
    ensures
        ({
            let p = FilterParams::Watercolor {
                blur,
                bleed,
                edge,
                saturation,
                strength,
            };
            let list = p.spec_controls(advanced_open);
            &&& list.len() == 5
            &&& list[0] == (Control::Slider { label: "Blur", value: blur, lo: 500, hi: 16_000 })
            &&& list[1] == (Control::Slider { label: "Bleed", value: bleed, lo: 0, hi: 100_000 })
            &&& list[2] == (Control::Slider { label: "Edge darken", value: edge, lo: 0, hi: 100_000 })
            &&& list[3] == (Control::Slider { label: "Saturation", value: saturation, lo: (-50_000) as i32, hi: 100_000 })
            &&& list[4] == (Control::Slider { label: "Strength", value: strength, lo: 0, hi: 100_000 })
        }),
{
}

/// What pencil shows.
#[verifier::spinoff_prover]
pub proof fn law_controls_of_pencil(
    detail: i32,
    darkness: i32,
    grain: i32,
    strength: i32,
    advanced_open: bool,
)
    ensures
        ({
            let p = FilterParams::Pencil { detail, darkness, grain, strength };
            let list = p.spec_controls(advanced_open);
            &&& list.len() == 4
            &&& list[0] == (Control::Slider { label: "Detail", value: detail, lo: 500, hi: 8000 })
            &&& list[1] == (Control::Slider { label: "Darkness", value: darkness, lo: 0, hi: 150_000 })
            &&& list[2] == (Control::Slider { label: "Grain", value: grain, lo: 0, hi: 100_000 })
            &&& list[3] == (Control::Slider { label: "Strength", value: strength, lo: 0, hi: 100_000 })
        }),
{
}

/// What pastel shows.
#[verifier::spinoff_prover]
pub proof fn law_controls_of_pastel(
    softness: i32,
    chalk: i32,
    lighten: i32,
    strength: i32,
    advanced_open: bool,
)
    ensures
        ({
            let p = FilterParams::Pastel { softness, chalk, lighten, strength };
            let list = p.spec_controls(advanced_open);
            &&& list.len() == 4
            &&& list[0] == (Control::Slider { label: "Softness", value: softness, lo: 0, hi: 12_000 })
            &&& list[1] == (Control::Slider { label: "Chalk", value: chalk, lo: 0, hi: 100_000 })
            &&& list[2] == (Control::Slider { label: "Lighten", value: lighten, lo: 0, hi: 100_000 })
            &&& list[3] == (Control::Slider { label: "Strength", value: strength, lo: 0, hi: 100_000 })
        }),
{
}

/// What paper texture shows.
#[verifier::spinoff_prover]
pub proof fn law_controls_of_paper_texture(
    amount: i32,
    scale: i32,
    roughness: i32,
    warm: i32,
    advanced_open: bool,
)
    ensures
        ({
            let p = FilterParams::PaperTexture {
                amount,
                scale,
                roughness,
                warm,
            };
            let list = p.spec_controls(advanced_open);
            &&& list.len() == 4
            &&& list[0] == (Control::Slider { label: "Amount", value: amount, lo: 0, hi: 100_000 })
            &&& list[1] == (Control::Slider { label: "Scale", value: scale, lo: 500, hi: 24_000 })
            &&& list[2] == (Control::Slider { label: "Roughness", value: roughness, lo: 0, hi: 100_000 })
            &&& list[3] == (Control::Slider { label: "Warmth", value: warm, lo: 0, hi: 100_000 })
        }),
{
}

/// What neon glow shows.
#[verifier::spinoff_prover]
pub proof fn law_controls_of_neon_glow(
    radius: i32,
    intensity: i32,
    threshold: i32,
    color: Rgb,
    core: i32,
    advanced_open: bool,
)
    ensures
        ({
            let p = FilterParams::NeonGlow {
                radius,
                intensity,
                threshold,
                color,
                core,
            };
            let list = p.spec_controls(advanced_open);
            &&& list.len() == 5
            &&& list[0] == (Control::Slider { label: "Radius", value: radius, lo: 500, hi: 48_000 })
            &&& list[1] == (Control::Slider { label: "Intensity", value: intensity, lo: 0, hi: 200_000 })
            &&& list[2] == (Control::Slider { label: "Threshold", value: threshold, lo: 0, hi: 100_000 })
            &&& list[3] == (Control::Slider { label: "Core", value: core, lo: 0, hi: 100_000 })
            &&& list[4] == (Control::Colour { label: "Color", value: color })
        }),
{
}

/// What light rays shows.
#[verifier::spinoff_prover]
pub proof fn law_controls_of_light_rays(
    amount: i32,
    length: i32,
    center_x: i32,
    center_y: i32,
    decay: i32,
    tint: bool,
    color: Rgb,
    advanced_open: bool,
)
    ensures
        ({
            let p = FilterParams::LightRays {
                amount,
                length,
                center_x,
                center_y,
                decay,
                tint,
                color,
            };
            let list = p.spec_controls(advanced_open);
            &&& (tint) ==> {
                &&& list.len() == 7
                &&& list[0] == (Control::Slider { label: "Amount", value: amount, lo: 0, hi: 150_000 })
                &&& list[1] == (Control::Slider { label: "Length", value: length, lo: 4000, hi: 120_000 })
                &&& list[2] == (Control::Slider { label: "Decay", value: decay, lo: 5000, hi: 100_000 })
                &&& list[3] == (Control::Slider { label: "Center X %", value: center_x, lo: 0, hi: 100_000 })
                &&& list[4] == (Control::Slider { label: "Center Y %", value: center_y, lo: 0, hi: 100_000 })
                &&& list[5] == (Control::Switch { label: "Tint color", on: tint })
                &&& list[6] == (Control::Colour { label: "Color", value: color })
            }
            &&& !(tint) ==> {
                &&& list.len() == 6
                &&& list[0] == (Control::Slider { label: "Amount", value: amount, lo: 0, hi: 150_000 })
                &&& list[1] == (Control::Slider { label: "Length", value: length, lo: 4000, hi: 120_000 })
                &&& list[2] == (Control::Slider { label: "Decay", value: decay, lo: 5000, hi: 100_000 })
                &&& list[3] == (Control::Slider { label: "Center X %", value: center_x, lo: 0, hi: 100_000 })
                &&& list[4] == (Control::Slider { label: "Center Y %", value: center_y, lo: 0, hi: 100_000 })
                &&& list[5] == (Control::Switch { label: "Tint color", on: tint })
            }
        }),
{
}

/// What lens flare shows.
#[verifier::spinoff_prover]
pub proof fn law_controls_of_lens_flare(
    amount: i32,
    center_x: i32,
    center_y: i32,
    size: i32,
    streak: i32,
    color: Rgb,
    advanced_open: bool,
)
    ensures
        ({
            let p = FilterParams::LensFlare {
                amount,
                center_x,
                center_y,
                size,
                streak,
                color,
            };
            let list = p.spec_controls(advanced_open);
            &&& list.len() == 6
            &&& list[0] == (Control::Slider { label: "Amount", value: amount, lo: 0, hi: 150_000 })
            &&& list[1] == (Control::Slider { label: "Size", value: size, lo: 4000, hi: 160_000 })
            &&& list[2] == (Control::Slider { label: "Streak", value: streak, lo: 0, hi: 100_000 })
            &&& list[3] == (Control::Slider { label: "Center X %", value: center_x, lo: 0, hi: 100_000 })
            &&& list[4] == (Control::Slider { label: "Center Y %", value: center_y, lo: 0, hi: 100_000 })
            &&& list[5] == (Control::Colour { label: "Color", value: color })
        }),
{
}

/// What drop shadow shows.
#[verifier::spinoff_prover]
pub proof fn law_controls_of_drop_shadow(
    angle: i32,
    distance: i32,
    blur: i32,
    opacity: i32,
    color: Rgb,
    advanced_open: bool,
)
    ensures
        ({
            let p = FilterParams::DropShadow {
                angle,
                distance,
                blur,
                opacity,
                color,
            };
            let list = p.spec_controls(advanced_open);
            &&& list.len() == 5
            &&& list[0] == (Control::Slider { label: "Angle", value: angle, lo: (-180_000) as i32, hi: 180_000 })
            &&& list[1] == (Control::Slider { label: "Distance", value: distance, lo: 0, hi: 96_000 })
            &&& list[2] == (Control::Slider { label: "Blur", value: blur, lo: 0, hi: 48_000 })
            &&& list[3] == (Control::Slider { label: "Opacity", value: opacity, lo: 0, hi: 100_000 })
            &&& list[4] == (Control::Colour { label: "Color", value: color })
        }),
{
}

/// What bevel emboss shows.
#[verifier::spinoff_prover]
pub proof fn law_controls_of_bevel_emboss(
    depth: i32,
    soft: i32,
    angle: i32,
    elevation: i32,
    mode: BevelMode,
    strength: i32,
    advanced_open: bool,
)
    ensures
        ({
            let p = FilterParams::BevelEmboss {
                depth,
                soft,
                angle,
                elevation,
                mode,
                strength,
            };
            let list = p.spec_controls(advanced_open);
            &&& list.len() == 6
            &&& list[0] == (Control::Choice { label: "Mode", chosen: mode.ord() as i128 })
            &&& list[1] == (Control::Slider { label: "Depth", value: depth, lo: 500, hi: 16_000 })
            &&& list[2] == (Control::Slider { label: "Softness", value: soft, lo: 0, hi: 8000 })
            &&& list[3] == (Control::Slider { label: "Angle", value: angle, lo: (-180_000) as i32, hi: 180_000 })
            &&& list[4] == (Control::Slider { label: "Elevation", value: elevation, lo: 5000, hi: 90_000 })
            &&& list[5] == (Control::Slider { label: "Strength", value: strength, lo: 0, hi: 150_000 })
        }),
{
}

/// What scanlines shows.
#[verifier::spinoff_prover]
pub proof fn law_controls_of_scanlines(
    spacing: i32,
    thickness: i32,
    opacity: i32,
    color: Rgb,
    vertical: bool,
    soft: bool,
    advanced_open: bool,
)
    ensures
        ({
            let p = FilterParams::Scanlines {
                spacing,
                thickness,
                opacity,
                color,
                vertical,
                soft,
            };
            let list = p.spec_controls(advanced_open);
            &&& list.len() == 6
            &&& list[0] == (Control::Slider { label: "Spacing", value: spacing, lo: 1000, hi: 32_000 })
            &&& list[1] == (Control::Slider { label: "Thickness", value: thickness, lo: 200, hi: 16_000 })
            &&& list[2] == (Control::Slider { label: "Opacity", value: opacity, lo: 0, hi: 100_000 })
            &&& list[3] == (Control::Colour { label: "Color", value: color })
            &&& list[4] == (Control::Switch { label: "Vertical", on: vertical })
            &&& list[5] == (Control::Switch { label: "Soft edge", on: soft })
        }),
{
}

/// What liquid glass shows.
#[verifier::spinoff_prover]
pub proof fn law_controls_of_liquid_glass(
    mode: LiquidGlassMode,
    radius: i32,
    center_x: i32,
    center_y: i32,
    spacing: i32,
    angle: i32,
    refraction: i32,
    specular: i32,
    rim: i32,
    softness: i32,
    chroma: i32,
    tint: Rgb,
    tint_amount: i32,
    advanced_open: bool,
)
    ensures
        ({
            let p = FilterParams::LiquidGlass {
                mode,
                radius,
                center_x,
                center_y,
                spacing,
                angle,
                refraction,
                specular,
                rim,
                softness,
                chroma,
                tint,
                tint_amount,
            };
            let list = p.spec_controls(advanced_open);
            &&& (mode is Droplet) && (mode is Selection) && (mode is Ribbed) ==> {
                &&& list.len() == 15
                &&& list[0] == (Control::Choice { label: "Mode", chosen: mode.ord() as i128 })
                &&& list[1] == (Control::Slider { label: "Radius %", value: radius, lo: 5000, hi: 120_000 })
                &&& list[2] == (Control::Slider { label: "Center X %", value: center_x, lo: 0, hi: 100_000 })
                &&& list[3] == (Control::Slider { label: "Center Y %", value: center_y, lo: 0, hi: 100_000 })
                &&& list[4] == (Control::Slider { label: "Thickness", value: radius, lo: 15_000, hi: 120_000 })
                &&& list[5] == (Control::Slider { label: "Spacing", value: spacing, lo: 2000, hi: 96_000 })
                &&& list[6] == (Control::Slider { label: "Angle", value: angle, lo: (-180_000) as i32, hi: 180_000 })
                &&& list[7] == (Control::Slider { label: "Roundness", value: radius, lo: 5000, hi: 100_000 })
                &&& list[8] == (Control::Slider { label: "Refraction", value: refraction, lo: 0, hi: 120_000 })
                &&& list[9] == (Control::Slider { label: "Specular", value: specular, lo: 0, hi: 150_000 })
                &&& list[10] == (Control::Slider { label: "Rim", value: rim, lo: 0, hi: 150_000 })
                &&& list[11] == (Control::Slider { label: "Softness", value: softness, lo: 2000, hi: 80_000 })
                &&& list[12] == (Control::Slider { label: "Chroma", value: chroma, lo: 0, hi: 100_000 })
                &&& list[13] == (Control::Colour { label: "Tint", value: tint })
                &&& list[14] == (Control::Slider { label: "Tint amount", value: tint_amount, lo: 0, hi: 100_000 })
            }
            &&& (mode is Droplet) && (mode is Selection) && !(mode is Ribbed) ==> {
                &&& list.len() == 12
                &&& list[0] == (Control::Choice { label: "Mode", chosen: mode.ord() as i128 })
                &&& list[1] == (Control::Slider { label: "Radius %", value: radius, lo: 5000, hi: 120_000 })
                &&& list[2] == (Control::Slider { label: "Center X %", value: center_x, lo: 0, hi: 100_000 })
                &&& list[3] == (Control::Slider { label: "Center Y %", value: center_y, lo: 0, hi: 100_000 })
                &&& list[4] == (Control::Slider { label: "Thickness", value: radius, lo: 15_000, hi: 120_000 })
                &&& list[5] == (Control::Slider { label: "Refraction", value: refraction, lo: 0, hi: 120_000 })
                &&& list[6] == (Control::Slider { label: "Specular", value: specular, lo: 0, hi: 150_000 })
                &&& list[7] == (Control::Slider { label: "Rim", value: rim, lo: 0, hi: 150_000 })
                &&& list[8] == (Control::Slider { label: "Softness", value: softness, lo: 2000, hi: 80_000 })
                &&& list[9] == (Control::Slider { label: "Chroma", value: chroma, lo: 0, hi: 100_000 })
                &&& list[10] == (Control::Colour { label: "Tint", value: tint })
                &&& list[11] == (Control::Slider { label: "Tint amount", value: tint_amount, lo: 0, hi: 100_000 })
            }
            &&& (mode is Droplet) && !(mode is Selection) && (mode is Ribbed) ==> {
                &&& list.len() == 14
                &&& list[0] == (Control::Choice { label: "Mode", chosen: mode.ord() as i128 })
                &&& list[1] == (Control::Slider { label: "Radius %", value: radius, lo: 5000, hi: 120_000 })
                &&& list[2] == (Control::Slider { label: "Center X %", value: center_x, lo: 0, hi: 100_000 })
                &&& list[3] == (Control::Slider { label: "Center Y %", value: center_y, lo: 0, hi: 100_000 })
                &&& list[4] == (Control::Slider { label: "Spacing", value: spacing, lo: 2000, hi: 96_000 })
                &&& list[5] == (Control::Slider { label: "Angle", value: angle, lo: (-180_000) as i32, hi: 180_000 })
                &&& list[6] == (Control::Slider { label: "Roundness", value: radius, lo: 5000, hi: 100_000 })
                &&& list[7] == (Control::Slider { label: "Refraction", value: refraction, lo: 0, hi: 120_000 })
                &&& list[8] == (Control::Slider { label: "Specular", value: specular, lo: 0, hi: 150_000 })
                &&& list[9] == (Control::Slider { label: "Rim", value: rim, lo: 0, hi: 150_000 })
                &&& list[10] == (Control::Slider { label: "Softness", value: softness, lo: 2000, hi: 80_000 })
                &&& list[11] == (Control::Slider { label: "Chroma", value: chroma, lo: 0, hi: 100_000 })
                &&& list[12] == (Control::Colour { label: "Tint", value: tint })
                &&& list[13] == (Control::Slider { label: "Tint amount", value: tint_amount, lo: 0, hi: 100_000 })
            }
            &&& (mode is Droplet) && !(mode is Selection) && !(mode is Ribbed) ==> {
                &&& list.len() == 11
                &&& list[0] == (Control::Choice { label: "Mode", chosen: mode.ord() as i128 })
                &&& list[1] == (Control::Slider { label: "Radius %", value: radius, lo: 5000, hi: 120_000 })
                &&& list[2] == (Control::Slider { label: "Center X %", value: center_x, lo: 0, hi: 100_000 })
                &&& list[3] == (Control::Slider { label: "Center Y %", value: center_y, lo: 0, hi: 100_000 })
                &&& list[4] == (Control::Slider { label: "Refraction", value: refraction, lo: 0, hi: 120_000 })
                &&& list[5] == (Control::Slider { label: "Specular", value: specular, lo: 0, hi: 150_000 })
                &&& list[6] == (Control::Slider { label: "Rim", value: rim, lo: 0, hi: 150_000 })
                &&& list[7] == (Control::Slider { label: "Softness", value: softness, lo: 2000, hi: 80_000 })
                &&& list[8] == (Control::Slider { label: "Chroma", value: chroma, lo: 0, hi: 100_000 })
                &&& list[9] == (Control::Colour { label: "Tint", value: tint })
                &&& list[10] == (Control::Slider { label: "Tint amount", value: tint_amount, lo: 0, hi: 100_000 })
            }
            &&& !(mode is Droplet) && (mode is Selection) && (mode is Ribbed) ==> {
                &&& list.len() == 12
                &&& list[0] == (Control::Choice { label: "Mode", chosen: mode.ord() as i128 })
                &&& list[1] == (Control::Slider { label: "Thickness", value: radius, lo: 15_000, hi: 120_000 })
                &&& list[2] == (Control::Slider { label: "Spacing", value: spacing, lo: 2000, hi: 96_000 })
                &&& list[3] == (Control::Slider { label: "Angle", value: angle, lo: (-180_000) as i32, hi: 180_000 })
                &&& list[4] == (Control::Slider { label: "Roundness", value: radius, lo: 5000, hi: 100_000 })
                &&& list[5] == (Control::Slider { label: "Refraction", value: refraction, lo: 0, hi: 120_000 })
                &&& list[6] == (Control::Slider { label: "Specular", value: specular, lo: 0, hi: 150_000 })
                &&& list[7] == (Control::Slider { label: "Rim", value: rim, lo: 0, hi: 150_000 })
                &&& list[8] == (Control::Slider { label: "Softness", value: softness, lo: 2000, hi: 80_000 })
                &&& list[9] == (Control::Slider { label: "Chroma", value: chroma, lo: 0, hi: 100_000 })
                &&& list[10] == (Control::Colour { label: "Tint", value: tint })
                &&& list[11] == (Control::Slider { label: "Tint amount", value: tint_amount, lo: 0, hi: 100_000 })
            }
            &&& !(mode is Droplet) && (mode is Selection) && !(mode is Ribbed) ==> {
                &&& list.len() == 9
                &&& list[0] == (Control::Choice { label: "Mode", chosen: mode.ord() as i128 })
                &&& list[1] == (Control::Slider { label: "Thickness", value: radius, lo: 15_000, hi: 120_000 })
                &&& list[2] == (Control::Slider { label: "Refraction", value: refraction, lo: 0, hi: 120_000 })
                &&& list[3] == (Control::Slider { label: "Specular", value: specular, lo: 0, hi: 150_000 })
                &&& list[4] == (Control::Slider { label: "Rim", value: rim, lo: 0, hi: 150_000 })
                &&& list[5] == (Control::Slider { label: "Softness", value: softness, lo: 2000, hi: 80_000 })
                &&& list[6] == (Control::Slider { label: "Chroma", value: chroma, lo: 0, hi: 100_000 })
                &&& list[7] == (Control::Colour { label: "Tint", value: tint })
                &&& list[8] == (Control::Slider { label: "Tint amount", value: tint_amount, lo: 0, hi: 100_000 })
            }
            &&& !(mode is Droplet) && !(mode is Selection) && (mode is Ribbed) ==> {
                &&& list.len() == 11
                &&& list[0] == (Control::Choice { label: "Mode", chosen: mode.ord() as i128 })
                &&& list[1] == (Control::Slider { label: "Spacing", value: spacing, lo: 2000, hi: 96_000 })
                &&& list[2] == (Control::Slider { label: "Angle", value: angle, lo: (-180_000) as i32, hi: 180_000 })
                &&& list[3] == (Control::Slider { label: "Roundness", value: radius, lo: 5000, hi: 100_000 })
                &&& list[4] == (Control::Slider { label: "Refraction", value: refraction, lo: 0, hi: 120_000 })
                &&& list[5] == (Control::Slider { label: "Specular", value: specular, lo: 0, hi: 150_000 })
                &&& list[6] == (Control::Slider { label: "Rim", value: rim, lo: 0, hi: 150_000 })
                &&& list[7] == (Control::Slider { label: "Softness", value: softness, lo: 2000, hi: 80_000 })
                &&& list[8] == (Control::Slider { label: "Chroma", value: chroma, lo: 0, hi: 100_000 })
                &&& list[9] == (Control::Colour { label: "Tint", value: tint })
                &&& list[10] == (Control::Slider { label: "Tint amount", value: tint_amount, lo: 0, hi: 100_000 })
            }
            &&& !(mode is Droplet) && !(mode is Selection) && !(mode is Ribbed) ==> {
                &&& list.len() == 8
                &&& list[0] == (Control::Choice { label: "Mode", chosen: mode.ord() as i128 })
                &&& list[1] == (Control::Slider { label: "Refraction", value: refraction, lo: 0, hi: 120_000 })
                &&& list[2] == (Control::Slider { label: "Specular", value: specular, lo: 0, hi: 150_000 })
                &&& list[3] == (Control::Slider { label: "Rim", value: rim, lo: 0, hi: 150_000 })
                &&& list[4] == (Control::Slider { label: "Softness", value: softness, lo: 2000, hi: 80_000 })
                &&& list[5] == (Control::Slider { label: "Chroma", value: chroma, lo: 0, hi: 100_000 })
                &&& list[6] == (Control::Colour { label: "Tint", value: tint })
                &&& list[7] == (Control::Slider { label: "Tint amount", value: tint_amount, lo: 0, hi: 100_000 })
            }
        }),
{
}

/// What gradient shows.
#[verifier::spinoff_prover]
pub proof fn law_controls_of_gradient(
    shape: GradientShape,
    angle: i32,
    spread: i32,
    center_x: i32,
    center_y: i32,
    color_a: Rgb,
    color_b: Rgb,
    opacity_a: i32,
    opacity_b: i32,
    amount: i32,
    blend: BlendMode,
    reverse: bool,
    advanced_open: bool,
)
    ensures
        ({
            let p = FilterParams::Gradient {
                shape,
                angle,
                spread,
                center_x,
                center_y,
                color_a,
                color_b,
                opacity_a,
                opacity_b,
                amount,
                blend,
                reverse,
            };
            let list = p.spec_controls(advanced_open);
            &&& list.len() == 12
            &&& list[0] == (Control::Choice { label: "Shape", chosen: shape.ord() as i128 })
            &&& list[1] == (Control::Choice { label: "Blend", chosen: blend.ord() as i128 })
            &&& list[2] == (Control::Slider { label: "Angle", value: angle, lo: (-180_000) as i32, hi: 180_000 })
            &&& list[3] == (Control::Slider { label: "Spread %", value: spread, lo: 20_000, hi: 200_000 })
            &&& list[4] == (Control::Slider { label: "Center X %", value: center_x, lo: 0, hi: 100_000 })
            &&& list[5] == (Control::Slider { label: "Center Y %", value: center_y, lo: 0, hi: 100_000 })
            &&& list[6] == (Control::Colour { label: "Color A", value: color_a })
            &&& list[7] == (Control::Colour { label: "Color B", value: color_b })
            &&& list[8] == (Control::Slider { label: "Opacity A", value: opacity_a, lo: 0, hi: 100_000 })
            &&& list[9] == (Control::Slider { label: "Opacity B", value: opacity_b, lo: 0, hi: 100_000 })
            &&& list[10] == (Control::Slider { label: "Amount", value: amount, lo: 0, hi: 100_000 })
            &&& list[11] == (Control::Switch { label: "Reverse", on: reverse })
        }),
{
}

/// What image overlay shows.
#[verifier::spinoff_prover]
pub proof fn law_controls_of_image_overlay(
    path: Option<String>,
    rgba: Option<Vec<u8>>,
    tex_w: u32,
    tex_h: u32,
    blend: BlendMode,
    opacity: i32,
    scale: i32,
    rotation: i32,
    offset_x: i32,
    offset_y: i32,
    tile: bool,
    advanced_open: bool,
)
    ensures
        ({
            let p = FilterParams::ImageOverlay {
                path,
                rgba,
                tex_w,
                tex_h,
                blend,
                opacity,
                scale,
                rotation,
                offset_x,
                offset_y,
                tile,
            };
            let list = p.spec_controls(advanced_open);
            &&& list.len() == 7
            &&& list[0] == (Control::Choice { label: "Blend", chosen: blend.ord() as i128 })
            &&& list[1] == (Control::Slider { label: "Opacity", value: opacity, lo: 0, hi: 100_000 })
            &&& list[2] == (Control::Slider { label: "Scale %", value: scale, lo: 10_000, hi: 400_000 })
            &&& list[3] == (Control::Slider { label: "Rotation", value: rotation, lo: (-180_000) as i32, hi: 180_000 })
            &&& list[4] == (Control::Slider { label: "Offset X %", value: offset_x, lo: (-100_000) as i32, hi: 100_000 })
            &&& list[5] == (Control::Slider { label: "Offset Y %", value: offset_y, lo: (-100_000) as i32, hi: 100_000 })
            &&& list[6] == (Control::Switch { label: "Tile", on: tile })
        }),
{
}

} // verus!
