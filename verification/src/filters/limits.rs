//! The limits of the settings: new filters and the looks that come with the
//! studio keep them.
use vstd::prelude::*;
use crate::filters::choice::LevelsChannel;
use crate::filters::control::Control;
use crate::filters::kind::StudioFilterKind;
use crate::filters::params::FilterParams;
use crate::filters::presets::{
    builtin_looks, look_bleach_bypass, look_camcorder_90s, look_candy_pop, look_cel_outline_fun,
    look_cinematic, look_clean_outline, look_comic_print, look_crt_screen, look_cyberpunk,
    look_duotone_night, look_glitch, look_golden_hour, look_neon_night, look_newspaper,
    look_noirish, look_oil_painting, look_old_anime, look_pencil_sketch, look_polaroid_fade,
    look_radial_glow_wash, look_soft_dream, look_sunset_gradient, look_tape_glitch_fun,
    look_teal_orange_grade, look_vhs, look_vintage_film, look_watercolor_wash,
    look_worn_rental_vhs,
};

verus! {

/// Whether a control shows a value within its limits.
pub open spec fn in_limits(c: Control) -> bool {
    match c {
        Control::Slider { value, lo, hi, .. } => lo <= value <= hi,
        Control::Count { value, lo, hi, .. } => lo <= value <= hi,
        _ => true,
    }
}

pub open spec fn all_in_limits(list: Seq<Control>) -> bool {
    forall|i: int| 0 <= i < list.len() ==> in_limits(#[trigger] list[i])
}

pub open spec fn levels_fit(c: LevelsChannel) -> bool {
    0 <= c.black <= 255_000 && 50 <= c.mid <= 950 && 0 <= c.white <= 255_000
}

impl FilterParams {
    /// Whether every setting is within the limits of its control, whatever is
    /// unfolded and whichever channel is edited.
    pub open spec fn fits(self) -> bool {
        match self {
            FilterParams::Gaussian { radius } => {
                &&& 500 <= radius <= 80_000
            },
            FilterParams::Motion { length, angle } => {
                &&& 1000 <= length <= 120_000
                &&& -180_000 <= angle <= 180_000
            },
            FilterParams::Radial { amount, .. } => {
                &&& 0 <= amount <= 100_000
            },
            FilterParams::Unsharp { amount, radius } => {
                &&& 0 <= amount <= 300_000
                &&& 500 <= radius <= 12_000
            },
            FilterParams::BrightnessContrast { brightness, contrast } => {
                &&& -100_000 <= brightness <= 100_000
                &&& -100_000 <= contrast <= 100_000
            },
            FilterParams::Levels { black, mid, white, red, green, blue, .. } => {
                &&& levels_fit(LevelsChannel { black, mid, white })
                &&& levels_fit(red)
                &&& levels_fit(green)
                &&& levels_fit(blue)
            },
            FilterParams::Curves { .. } => true,
            FilterParams::HueSaturation { hue, saturation, lightness, colorize } => {
                &&& if colorize {
                    0 <= hue <= 360_000 && 0 <= saturation <= 100_000
                } else {
                    -180_000 <= hue <= 180_000 && -100_000 <= saturation <= 100_000
                }
                &&& -100_000 <= lightness <= 100_000
            },
            FilterParams::ColorBalance { cyan_red, magenta_green, yellow_blue } => {
                &&& -100_000 <= cyan_red <= 100_000
                &&& -100_000 <= magenta_green <= 100_000
                &&& -100_000 <= yellow_blue <= 100_000
            },
            FilterParams::Invert => true,
            FilterParams::Pixelize { method, block, soft_amount } => {
                &&& 2 <= block <= 64
                &&& (method is Soft ==> 0 <= soft_amount <= 100_000)
            },
            FilterParams::HexPixelize { size } => {
                &&& 4 <= size <= 64
            },
            FilterParams::TriPixelize { size } => {
                &&& 4 <= size <= 64
            },
            FilterParams::HexDots { size, fill_pct, .. } => {
                &&& 4 <= size <= 64
                &&& 20_000 <= fill_pct <= 100_000
            },
            FilterParams::Posterize { levels } => {
                &&& 2 <= levels <= 32
            },
            FilterParams::Crystallize { size } => {
                &&& 4 <= size <= 96
            },
            FilterParams::Pointillize { size, density, .. } => {
                &&& 3 <= size <= 64
                &&& 10_000 <= density <= 100_000
            },
            FilterParams::ColorHalftone {
                size,
                angle,
                strength,
                softness,
                contrast,
                angle_c,
                angle_m,
                angle_y,
                angle_k,
                ..
            } => {
                &&& 2 <= size <= 64
                &&& -180_000 <= angle <= 180_000
                &&& 0 <= strength <= 100_000
                &&& 0 <= softness <= 100_000
                &&& 25_000 <= contrast <= 250_000
                &&& -180_000 <= angle_c <= 180_000
                &&& -180_000 <= angle_m <= 180_000
                &&& -180_000 <= angle_y <= 180_000
                &&& -180_000 <= angle_k <= 180_000
            },
            FilterParams::Fisheye { amount, radius, center_x, center_y, .. } => {
                &&& -1000 <= amount <= 1000
                &&& 10_000 <= radius <= 200_000
                &&& 0 <= center_x <= 100_000
                &&& 0 <= center_y <= 100_000
            },
            FilterParams::SphericalLens { amount, radius, center_x, center_y } => {
                &&& -1000 <= amount <= 1000
                &&& 10_000 <= radius <= 200_000
                &&& 0 <= center_x <= 100_000
                &&& 0 <= center_y <= 100_000
            },
            FilterParams::Ripple { mode, amount, wavelength, angle, center_x, center_y } => {
                &&& 0 <= amount <= 40_000
                &&& 4000 <= wavelength <= 200_000
                &&& (mode is Linear ==> -180_000 <= angle <= 180_000)
                &&& 0 <= center_x <= 100_000
                &&& 0 <= center_y <= 100_000
            },
            FilterParams::Twist { amount, radius, center_x, center_y } => {
                &&& -3000 <= amount <= 3000
                &&& 10_000 <= radius <= 200_000
                &&& 0 <= center_x <= 100_000
                &&& 0 <= center_y <= 100_000
            },
            FilterParams::ChromaticAberration {
                amount,
                angle,
                center_atten,
                red_scale,
                blue_scale,
                ..
            } => {
                &&& 0 <= amount <= 64_000
                &&& -180_000 <= angle <= 180_000
                &&& 0 <= center_atten <= 100_000
                &&& 0 <= red_scale <= 2000
                &&& 0 <= blue_scale <= 2000
            },
            FilterParams::Noise { amount, .. } => {
                &&& 0 <= amount <= 100_000
            },
            FilterParams::Glitch { amount, slice_height, max_shift, .. } => {
                &&& 0 <= amount <= 100_000
                &&& 2000 <= slice_height <= 64_000
                &&& 1000 <= max_shift <= 120_000
            },
            FilterParams::Vignette { shape, amount, softness, roundness, .. } => {
                &&& 0 <= amount <= 100_000
                &&& 5000 <= softness <= 100_000
                &&& (shape is Ellipse ==> 0 <= roundness <= 100_000)
            },
            FilterParams::Glow { radius, intensity, .. } => {
                &&& 500 <= radius <= 64_000
                &&& 0 <= intensity <= 200_000
            },
            FilterParams::Sepia { amount, warmth } => {
                &&& 0 <= amount <= 100_000
                &&& 0 <= warmth <= 100_000
            },
            FilterParams::FilmGrain { amount, size, roughness, shadow_bias, .. } => {
                &&& 0 <= amount <= 100_000
                &&& 250 <= size <= 8000
                &&& 0 <= roughness <= 100_000
                &&& 0 <= shadow_bias <= 100_000
            },
            FilterParams::Dither { levels, amount, pattern_size, .. } => {
                &&& 2 <= levels <= 32
                &&& 0 <= amount <= 100_000
                &&& 250 <= pattern_size <= 16_000
            },
            FilterParams::ReplaceColor { tolerance, softness, amount, .. } => {
                &&& 0 <= tolerance <= 100_000
                &&& 0 <= softness <= 100_000
                &&& 0 <= amount <= 100_000
            },
            FilterParams::Outline { thickness, threshold, softness, opacity, .. } => {
                &&& 500 <= thickness <= 24_000
                &&& 1000 <= threshold <= 100_000
                &&& 0 <= softness <= 100_000
                &&& 0 <= opacity <= 100_000
            },
            FilterParams::OilPaint { radius, levels, strength } => {
                &&& 1000 <= radius <= 12_000
                &&& 4 <= levels <= 32
                &&& 0 <= strength <= 100_000
            },
            FilterParams::Watercolor { blur, bleed, edge, saturation, strength } => {
                &&& 500 <= blur <= 16_000
                &&& 0 <= bleed <= 100_000
                &&& 0 <= edge <= 100_000
                &&& -50_000 <= saturation <= 100_000
                &&& 0 <= strength <= 100_000
            },
            FilterParams::Pencil { detail, darkness, grain, strength } => {
                &&& 500 <= detail <= 8000
                &&& 0 <= darkness <= 150_000
                &&& 0 <= grain <= 100_000
                &&& 0 <= strength <= 100_000
            },
            FilterParams::Pastel { softness, chalk, lighten, strength } => {
                &&& 0 <= softness <= 12_000
                &&& 0 <= chalk <= 100_000
                &&& 0 <= lighten <= 100_000
                &&& 0 <= strength <= 100_000
            },
            FilterParams::PaperTexture { amount, scale, roughness, warm } => {
                &&& 0 <= amount <= 100_000
                &&& 500 <= scale <= 24_000
                &&& 0 <= roughness <= 100_000
                &&& 0 <= warm <= 100_000
            },
            FilterParams::NeonGlow { radius, intensity, threshold, core, .. } => {
                &&& 500 <= radius <= 48_000
                &&& 0 <= intensity <= 200_000
                &&& 0 <= threshold <= 100_000
                &&& 0 <= core <= 100_000
            },
            FilterParams::LightRays { amount, length, center_x, center_y, decay, .. } => {
                &&& 0 <= amount <= 150_000
                &&& 4000 <= length <= 120_000
                &&& 5000 <= decay <= 100_000
                &&& 0 <= center_x <= 100_000
                &&& 0 <= center_y <= 100_000
            },
            FilterParams::LensFlare { amount, center_x, center_y, size, streak, .. } => {
                &&& 0 <= amount <= 150_000
                &&& 4000 <= size <= 160_000
                &&& 0 <= streak <= 100_000
                &&& 0 <= center_x <= 100_000
                &&& 0 <= center_y <= 100_000
            },
            FilterParams::DropShadow { angle, distance, blur, opacity, .. } => {
                &&& -180_000 <= angle <= 180_000
                &&& 0 <= distance <= 96_000
                &&& 0 <= blur <= 48_000
                &&& 0 <= opacity <= 100_000
            },
            FilterParams::BevelEmboss { depth, soft, angle, elevation, strength, .. } => {
                &&& 500 <= depth <= 16_000
                &&& 0 <= soft <= 8000
                &&& -180_000 <= angle <= 180_000
                &&& 5000 <= elevation <= 90_000
                &&& 0 <= strength <= 150_000
            },
            FilterParams::Scanlines { spacing, thickness, opacity, .. } => {
                &&& 1000 <= spacing <= 32_000
                &&& 200 <= thickness <= 16_000
                &&& 0 <= opacity <= 100_000
            },
            FilterParams::LiquidGlass {
                mode,
                radius,
                center_x,
                center_y,
                spacing,
                angle,
                refraction,
                specular,
                rim,
                softness,
                chroma,
                tint_amount,
                ..
            } => {
                &&& (mode is Droplet ==> 5000 <= radius <= 120_000)
                &&& (mode is Droplet ==> 0 <= center_x <= 100_000)
                &&& (mode is Droplet ==> 0 <= center_y <= 100_000)
                &&& (mode is Selection ==> 15_000 <= radius <= 120_000)
                &&& (mode is Ribbed ==> 2000 <= spacing <= 96_000)
                &&& (mode is Ribbed ==> -180_000 <= angle <= 180_000)
                &&& (mode is Ribbed ==> 5000 <= radius <= 100_000)
                &&& 0 <= refraction <= 120_000
                &&& 0 <= specular <= 150_000
                &&& 0 <= rim <= 150_000
                &&& 2000 <= softness <= 80_000
                &&& 0 <= chroma <= 100_000
                &&& 0 <= tint_amount <= 100_000
            },
            FilterParams::Gradient {
                angle,
                spread,
                center_x,
                center_y,
                opacity_a,
                opacity_b,
                amount,
                ..
            } => {
                &&& -180_000 <= angle <= 180_000
                &&& 20_000 <= spread <= 200_000
                &&& 0 <= center_x <= 100_000
                &&& 0 <= center_y <= 100_000
                &&& 0 <= opacity_a <= 100_000
                &&& 0 <= opacity_b <= 100_000
                &&& 0 <= amount <= 100_000
            },
            FilterParams::ImageOverlay { opacity, scale, rotation, offset_x, offset_y, .. } => {
                &&& 0 <= opacity <= 100_000
                &&& 10_000 <= scale <= 400_000
                &&& -180_000 <= rotation <= 180_000
                &&& -100_000 <= offset_x <= 100_000
                &&& -100_000 <= offset_y <= 100_000
            },
        }
    }
}

proof fn lemma_limits_1(p: FilterParams, advanced_open: bool)
    requires
        p.fits(),
        p is Gaussian
            || p is Motion
            || p is Radial
            || p is Unsharp,
    ensures
        all_in_limits(p.spec_controls(advanced_open)),
{
    broadcast use vstd::seq_lib::group_seq_properties;
}

proof fn lemma_limits_2(p: FilterParams, advanced_open: bool)
    requires
        p.fits(),
        p is BrightnessContrast
            || p is Levels
            || p is Curves
            || p is HueSaturation,
    ensures
        all_in_limits(p.spec_controls(advanced_open)),
{
    broadcast use vstd::seq_lib::group_seq_properties;
}

proof fn lemma_limits_3(p: FilterParams, advanced_open: bool)
    requires
        p.fits(),
        p is ColorBalance
            || p is Invert
            || p is Pixelize
            || p is HexPixelize,
    ensures
        all_in_limits(p.spec_controls(advanced_open)),
{
    broadcast use vstd::seq_lib::group_seq_properties;
}

proof fn lemma_limits_4(p: FilterParams, advanced_open: bool)
    requires
        p.fits(),
        p is TriPixelize
            || p is HexDots
            || p is Posterize
            || p is Crystallize,
    ensures
        all_in_limits(p.spec_controls(advanced_open)),
{
    broadcast use vstd::seq_lib::group_seq_properties;
}

proof fn lemma_limits_5(p: FilterParams, advanced_open: bool)
    requires
        p.fits(),
        p is Pointillize
            || p is ColorHalftone
            || p is Fisheye
            || p is SphericalLens,
    ensures
        all_in_limits(p.spec_controls(advanced_open)),
{
    broadcast use vstd::seq_lib::group_seq_properties;
}

proof fn lemma_limits_6(p: FilterParams, advanced_open: bool)
    requires
        p.fits(),
        p is Ripple
            || p is Twist
            || p is ChromaticAberration
            || p is Noise,
    ensures
        all_in_limits(p.spec_controls(advanced_open)),
{
    broadcast use vstd::seq_lib::group_seq_properties;
}

proof fn lemma_limits_7(p: FilterParams, advanced_open: bool)
    requires
        p.fits(),
        p is Glitch
            || p is Vignette
            || p is Glow
            || p is Sepia,
    ensures
        all_in_limits(p.spec_controls(advanced_open)),
{
    broadcast use vstd::seq_lib::group_seq_properties;
}

proof fn lemma_limits_8(p: FilterParams, advanced_open: bool)
    requires
        p.fits(),
        p is FilmGrain
            || p is Dither
            || p is ReplaceColor
            || p is Outline,
    ensures
        all_in_limits(p.spec_controls(advanced_open)),
{
    broadcast use vstd::seq_lib::group_seq_properties;
}

proof fn lemma_limits_9(p: FilterParams, advanced_open: bool)
    requires
        p.fits(),
        p is OilPaint
            || p is Watercolor
            || p is Pencil
            || p is Pastel,
    ensures
        all_in_limits(p.spec_controls(advanced_open)),
{
    broadcast use vstd::seq_lib::group_seq_properties;
}

proof fn lemma_limits_10(p: FilterParams, advanced_open: bool)
    requires
        p.fits(),
        p is PaperTexture
            || p is NeonGlow
            || p is LightRays
            || p is LensFlare,
    ensures
        all_in_limits(p.spec_controls(advanced_open)),
{
    broadcast use vstd::seq_lib::group_seq_properties;
}

proof fn lemma_limits_11(p: FilterParams, advanced_open: bool)
    requires
        p.fits(),
        p is DropShadow
            || p is BevelEmboss
            || p is Scanlines
            || p is LiquidGlass,
    ensures
        all_in_limits(p.spec_controls(advanced_open)),
{
    broadcast use vstd::seq_lib::group_seq_properties;
}

proof fn lemma_limits_12(p: FilterParams, advanced_open: bool)
    requires
        p.fits(),
        p is Gradient
            || p is ImageOverlay,
    ensures
        all_in_limits(p.spec_controls(advanced_open)),
{
    broadcast use vstd::seq_lib::group_seq_properties;
}

/// A filter whose settings fit shows them all within their limits.
pub proof fn law_fits_in_limits(p: FilterParams, advanced_open: bool)
    requires
        p.fits(),
    ensures
        all_in_limits(p.spec_controls(advanced_open)),
{
    if p is Gaussian || p is Motion || p is Radial || p is Unsharp {
        lemma_limits_1(p, advanced_open);
    } else if p is BrightnessContrast || p is Levels || p is Curves || p is HueSaturation {
        lemma_limits_2(p, advanced_open);
    } else if p is ColorBalance || p is Invert || p is Pixelize || p is HexPixelize {
        lemma_limits_3(p, advanced_open);
    } else if p is TriPixelize || p is HexDots || p is Posterize || p is Crystallize {
        lemma_limits_4(p, advanced_open);
    } else if p is Pointillize || p is ColorHalftone || p is Fisheye || p is SphericalLens {
        lemma_limits_5(p, advanced_open);
    } else if p is Ripple || p is Twist || p is ChromaticAberration || p is Noise {
        lemma_limits_6(p, advanced_open);
    } else if p is Glitch || p is Vignette || p is Glow || p is Sepia {
        lemma_limits_7(p, advanced_open);
    } else if p is FilmGrain || p is Dither || p is ReplaceColor || p is Outline {
        lemma_limits_8(p, advanced_open);
    } else if p is OilPaint || p is Watercolor || p is Pencil || p is Pastel {
        lemma_limits_9(p, advanced_open);
    } else if p is PaperTexture || p is NeonGlow || p is LightRays || p is LensFlare {
        lemma_limits_10(p, advanced_open);
    } else if p is DropShadow || p is BevelEmboss || p is Scanlines || p is LiquidGlass {
        lemma_limits_11(p, advanced_open);
    } else if p is Gradient || p is ImageOverlay {
        lemma_limits_12(p, advanced_open);
    }
}

/// A new filter starts within the limits of all its controls.
pub proof fn law_defaults_fit(kind: StudioFilterKind, p: FilterParams)
    requires
        p.is_default(kind),
    ensures
        p.fits(),
{
}

proof fn lemma_fits_cel_outline_fun(j: int)
    requires
        0 <= j < look_cel_outline_fun().stack.len(),
    ensures
        look_cel_outline_fun().stack[j].fits(),
{
    let s = look_cel_outline_fun().stack;
    assert(s[0].fits());
    assert(s[1].fits());
    assert(s[2].fits());
    assert(s[3].fits());
    assert(s[4].fits());
}

proof fn lemma_fits_tape_glitch_fun(j: int)
    requires
        0 <= j < look_tape_glitch_fun().stack.len(),
    ensures
        look_tape_glitch_fun().stack[j].fits(),
{
    let s = look_tape_glitch_fun().stack;
    assert(s[0].fits());
    assert(s[1].fits());
    assert(s[2].fits());
    assert(s[3].fits());
    assert(s[4].fits());
    assert(s[5].fits());
}

proof fn lemma_fits_old_anime(j: int)
    requires
        0 <= j < look_old_anime().stack.len(),
    ensures
        look_old_anime().stack[j].fits(),
{
    let s = look_old_anime().stack;
    assert(s[0].fits());
    assert(s[1].fits());
    assert(s[2].fits());
    assert(s[3].fits());
    assert(s[4].fits());
    assert(s[5].fits());
    assert(s[6].fits());
}

proof fn lemma_fits_vhs(j: int)
    requires
        0 <= j < look_vhs().stack.len(),
    ensures
        look_vhs().stack[j].fits(),
{
    let s = look_vhs().stack;
    assert(s[0].fits());
    assert(s[1].fits());
    assert(s[2].fits());
    assert(s[3].fits());
    assert(s[4].fits());
    assert(s[5].fits());
    assert(s[6].fits());
    assert(s[7].fits());
}

proof fn lemma_fits_worn_rental_vhs(j: int)
    requires
        0 <= j < look_worn_rental_vhs().stack.len(),
    ensures
        look_worn_rental_vhs().stack[j].fits(),
{
    let s = look_worn_rental_vhs().stack;
    assert(s[0].fits());
    assert(s[1].fits());
    assert(s[2].fits());
    assert(s[3].fits());
    assert(s[4].fits());
    assert(s[5].fits());
    assert(s[6].fits());
}

proof fn lemma_fits_glitch(j: int)
    requires
        0 <= j < look_glitch().stack.len(),
    ensures
        look_glitch().stack[j].fits(),
{
    let s = look_glitch().stack;
    assert(s[0].fits());
    assert(s[1].fits());
    assert(s[2].fits());
    assert(s[3].fits());
}

proof fn lemma_fits_crt_screen(j: int)
    requires
        0 <= j < look_crt_screen().stack.len(),
    ensures
        look_crt_screen().stack[j].fits(),
{
    let s = look_crt_screen().stack;
    assert(s[0].fits());
    assert(s[1].fits());
    assert(s[2].fits());
    assert(s[3].fits());
}

proof fn lemma_fits_camcorder_90s(j: int)
    requires
        0 <= j < look_camcorder_90s().stack.len(),
    ensures
        look_camcorder_90s().stack[j].fits(),
{
    let s = look_camcorder_90s().stack;
    assert(s[0].fits());
    assert(s[1].fits());
    assert(s[2].fits());
    assert(s[3].fits());
    assert(s[4].fits());
}

proof fn lemma_fits_neon_night(j: int)
    requires
        0 <= j < look_neon_night().stack.len(),
    ensures
        look_neon_night().stack[j].fits(),
{
    let s = look_neon_night().stack;
    assert(s[0].fits());
    assert(s[1].fits());
    assert(s[2].fits());
}

proof fn lemma_fits_soft_dream(j: int)
    requires
        0 <= j < look_soft_dream().stack.len(),
    ensures
        look_soft_dream().stack[j].fits(),
{
    let s = look_soft_dream().stack;
    assert(s[0].fits());
    assert(s[1].fits());
    assert(s[2].fits());
    assert(s[3].fits());
}

proof fn lemma_fits_comic_print(j: int)
    requires
        0 <= j < look_comic_print().stack.len(),
    ensures
        look_comic_print().stack[j].fits(),
{
    let s = look_comic_print().stack;
    assert(s[0].fits());
    assert(s[1].fits());
    assert(s[2].fits());
}

proof fn lemma_fits_newspaper(j: int)
    requires
        0 <= j < look_newspaper().stack.len(),
    ensures
        look_newspaper().stack[j].fits(),
{
    let s = look_newspaper().stack;
    assert(s[0].fits());
    assert(s[1].fits());
    assert(s[2].fits());
}

proof fn lemma_fits_oil_painting(j: int)
    requires
        0 <= j < look_oil_painting().stack.len(),
    ensures
        look_oil_painting().stack[j].fits(),
{
    let s = look_oil_painting().stack;
    assert(s[0].fits());
    assert(s[1].fits());
    assert(s[2].fits());
}

proof fn lemma_fits_watercolor_wash(j: int)
    requires
        0 <= j < look_watercolor_wash().stack.len(),
    ensures
        look_watercolor_wash().stack[j].fits(),
{
    let s = look_watercolor_wash().stack;
    assert(s[0].fits());
    assert(s[1].fits());
}

proof fn lemma_fits_pencil_sketch(j: int)
    requires
        0 <= j < look_pencil_sketch().stack.len(),
    ensures
        look_pencil_sketch().stack[j].fits(),
{
    let s = look_pencil_sketch().stack;
    assert(s[0].fits());
}

proof fn lemma_fits_cinematic(j: int)
    requires
        0 <= j < look_cinematic().stack.len(),
    ensures
        look_cinematic().stack[j].fits(),
{
    let s = look_cinematic().stack;
    assert(s[0].fits());
    assert(s[1].fits());
    assert(s[2].fits());
    assert(s[3].fits());
    assert(s[4].fits());
}

proof fn lemma_fits_polaroid_fade(j: int)
    requires
        0 <= j < look_polaroid_fade().stack.len(),
    ensures
        look_polaroid_fade().stack[j].fits(),
{
    let s = look_polaroid_fade().stack;
    assert(s[0].fits());
    assert(s[1].fits());
    assert(s[2].fits());
    assert(s[3].fits());
}

proof fn lemma_fits_cyberpunk(j: int)
    requires
        0 <= j < look_cyberpunk().stack.len(),
    ensures
        look_cyberpunk().stack[j].fits(),
{
    let s = look_cyberpunk().stack;
    assert(s[0].fits());
    assert(s[1].fits());
    assert(s[2].fits());
    assert(s[3].fits());
}

proof fn lemma_fits_vintage_film(j: int)
    requires
        0 <= j < look_vintage_film().stack.len(),
    ensures
        look_vintage_film().stack[j].fits(),
{
    let s = look_vintage_film().stack;
    assert(s[0].fits());
    assert(s[1].fits());
    assert(s[2].fits());
    assert(s[3].fits());
}

proof fn lemma_fits_bleach_bypass(j: int)
    requires
        0 <= j < look_bleach_bypass().stack.len(),
    ensures
        look_bleach_bypass().stack[j].fits(),
{
    let s = look_bleach_bypass().stack;
    assert(s[0].fits());
    assert(s[1].fits());
    assert(s[2].fits());
    assert(s[3].fits());
}

proof fn lemma_fits_noirish(j: int)
    requires
        0 <= j < look_noirish().stack.len(),
    ensures
        look_noirish().stack[j].fits(),
{
    let s = look_noirish().stack;
    assert(s[0].fits());
    assert(s[1].fits());
    assert(s[2].fits());
    assert(s[3].fits());
}

proof fn lemma_fits_sunset_gradient(j: int)
    requires
        0 <= j < look_sunset_gradient().stack.len(),
    ensures
        look_sunset_gradient().stack[j].fits(),
{
    let s = look_sunset_gradient().stack;
    assert(s[0].fits());
    assert(s[1].fits());
}

proof fn lemma_fits_teal_orange_grade(j: int)
    requires
        0 <= j < look_teal_orange_grade().stack.len(),
    ensures
        look_teal_orange_grade().stack[j].fits(),
{
    let s = look_teal_orange_grade().stack;
    assert(s[0].fits());
    assert(s[1].fits());
}

proof fn lemma_fits_radial_glow_wash(j: int)
    requires
        0 <= j < look_radial_glow_wash().stack.len(),
    ensures
        look_radial_glow_wash().stack[j].fits(),
{
    let s = look_radial_glow_wash().stack;
    assert(s[0].fits());
    assert(s[1].fits());
}

proof fn lemma_fits_duotone_night(j: int)
    requires
        0 <= j < look_duotone_night().stack.len(),
    ensures
        look_duotone_night().stack[j].fits(),
{
    let s = look_duotone_night().stack;
    assert(s[0].fits());
    assert(s[1].fits());
    assert(s[2].fits());
}

proof fn lemma_fits_candy_pop(j: int)
    requires
        0 <= j < look_candy_pop().stack.len(),
    ensures
        look_candy_pop().stack[j].fits(),
{
    let s = look_candy_pop().stack;
    assert(s[0].fits());
    assert(s[1].fits());
    assert(s[2].fits());
}

proof fn lemma_fits_golden_hour(j: int)
    requires
        0 <= j < look_golden_hour().stack.len(),
    ensures
        look_golden_hour().stack[j].fits(),
{
    let s = look_golden_hour().stack;
    assert(s[0].fits());
    assert(s[1].fits());
    assert(s[2].fits());
}

proof fn lemma_fits_clean_outline(j: int)
    requires
        0 <= j < look_clean_outline().stack.len(),
    ensures
        look_clean_outline().stack[j].fits(),
{
    let s = look_clean_outline().stack;
    assert(s[0].fits());
}

/// Every look that comes with the studio is within the limits of all controls.
pub proof fn law_looks_fit(i: int, j: int)
    requires
        0 <= i < builtin_looks().len(),
        0 <= j < builtin_looks()[i].stack.len(),
    ensures
        builtin_looks()[i].stack[j].fits(),
{
    if i == 0 {
        lemma_fits_cel_outline_fun(j);
    } else if i == 1 {
        lemma_fits_tape_glitch_fun(j);
    } else if i == 2 {
        lemma_fits_old_anime(j);
    } else if i == 3 {
        lemma_fits_vhs(j);
    } else if i == 4 {
        lemma_fits_worn_rental_vhs(j);
    } else if i == 5 {
        lemma_fits_glitch(j);
    } else if i == 6 {
        lemma_fits_crt_screen(j);
    } else if i == 7 {
        lemma_fits_camcorder_90s(j);
    } else if i == 8 {
        lemma_fits_neon_night(j);
    } else if i == 9 {
        lemma_fits_soft_dream(j);
    } else if i == 10 {
        lemma_fits_comic_print(j);
    } else if i == 11 {
        lemma_fits_newspaper(j);
    } else if i == 12 {
        lemma_fits_oil_painting(j);
    } else if i == 13 {
        lemma_fits_watercolor_wash(j);
    } else if i == 14 {
        lemma_fits_pencil_sketch(j);
    } else if i == 15 {
        lemma_fits_cinematic(j);
    } else if i == 16 {
        lemma_fits_polaroid_fade(j);
    } else if i == 17 {
        lemma_fits_cyberpunk(j);
    } else if i == 18 {
        lemma_fits_vintage_film(j);
    } else if i == 19 {
        lemma_fits_bleach_bypass(j);
    } else if i == 20 {
        lemma_fits_noirish(j);
    } else if i == 21 {
        lemma_fits_sunset_gradient(j);
    } else if i == 22 {
        lemma_fits_teal_orange_grade(j);
    } else if i == 23 {
        lemma_fits_radial_glow_wash(j);
    } else if i == 24 {
        lemma_fits_duotone_night(j);
    } else if i == 25 {
        lemma_fits_candy_pop(j);
    } else if i == 26 {
        lemma_fits_golden_hour(j);
    } else if i == 27 {
        lemma_fits_clean_outline(j);
    }
}

} // verus!
