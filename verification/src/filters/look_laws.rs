//! What the looks that come with the studio are made of, and what new filters
//! begin with.
use vstd::prelude::*;
use crate::filters::choice::{
    BevelMode, BlendMode, ChromaMode, DitherMethod, FisheyeModel, GlitchMethod, GradientShape,
    HalftoneMode, HalftonePaper, LiquidGlassMode, NoiseMethod, OutlineMode, PixelizeMethod,
    ReplaceAffect, RippleMode, ToneChannel, VignetteShape, identity_levels, rgb,
};
use crate::filters::kind::StudioFilterKind;
use crate::filters::params::FilterParams;
use crate::filters::presets::{
    builtin_looks, look_bleach_bypass, look_camcorder_90s, look_candy_pop, look_cel_outline_fun,
    look_cinematic, look_clean_outline, look_comic_print, look_crt_screen, look_cyberpunk,
    look_duotone_night, look_glitch, look_golden_hour, look_neon_night, look_newspaper,
    look_noirish, look_oil_painting, look_old_anime, look_pencil_sketch, look_polaroid_fade,
    look_radial_glow_wash, look_soft_dream, look_sunset_gradient, look_tape_glitch_fun,
    look_teal_orange_grade, look_vhs, look_vintage_film, look_watercolor_wash,
    look_worn_rental_vhs,
};

verus! {

/// Cel Outline (fun).
pub proof fn law_look_cel_outline_fun()
    ensures
        look_cel_outline_fun().name == "Cel Outline (fun)"@,
        look_cel_outline_fun().stack.len() == 5,
        look_cel_outline_fun().stack[0].spec_kind() is Posterize,
        look_cel_outline_fun().stack[1].spec_kind() is Outline,
        look_cel_outline_fun().stack[2].spec_kind() is HueSaturation,
        look_cel_outline_fun().stack[3].spec_kind() is Glow,
        look_cel_outline_fun().stack[4].spec_kind() is Vignette,
{
}

/// Tape Glitch (fun).
pub proof fn law_look_tape_glitch_fun()
    ensures
        look_tape_glitch_fun().name == "Tape Glitch (fun)"@,
        look_tape_glitch_fun().stack.len() == 6,
        look_tape_glitch_fun().stack[0].spec_kind() is ChromaticAberration,
        look_tape_glitch_fun().stack[1].spec_kind() is Noise,
        look_tape_glitch_fun().stack[2].spec_kind() is FilmGrain,
        look_tape_glitch_fun().stack[3].spec_kind() is Glitch,
        look_tape_glitch_fun().stack[4].spec_kind() is Vignette,
        look_tape_glitch_fun().stack[5].spec_kind() is HueSaturation,
{
}

/// Old Anime.
pub proof fn law_look_old_anime()
    ensures
        look_old_anime().name == "Old Anime"@,
        look_old_anime().stack.len() == 7,
        look_old_anime().stack[0].spec_kind() is Gaussian,
        look_old_anime().stack[1].spec_kind() is Posterize,
        look_old_anime().stack[2].spec_kind() is Levels,
        look_old_anime().stack[3].spec_kind() is HueSaturation,
        look_old_anime().stack[4].spec_kind() is ChromaticAberration,
        look_old_anime().stack[5].spec_kind() is FilmGrain,
        look_old_anime().stack[6].spec_kind() is Vignette,
{
}

/// VHS.
pub proof fn law_look_vhs()
    ensures
        look_vhs().name == "VHS"@,
        look_vhs().stack.len() == 8,
        look_vhs().stack[0].spec_kind() is Gaussian,
        look_vhs().stack[1].spec_kind() is ChromaticAberration,
        look_vhs().stack[2].spec_kind() is HueSaturation,
        look_vhs().stack[3].spec_kind() is ColorBalance,
        look_vhs().stack[4].spec_kind() is Noise,
        look_vhs().stack[5].spec_kind() is FilmGrain,
        look_vhs().stack[6].spec_kind() is Scanlines,
        look_vhs().stack[7].spec_kind() is Vignette,
{
}

/// Worn Rental VHS.
pub proof fn law_look_worn_rental_vhs()
    ensures
        look_worn_rental_vhs().name == "Worn Rental VHS"@,
        look_worn_rental_vhs().stack.len() == 7,
        look_worn_rental_vhs().stack[0].spec_kind() is Gaussian,
        look_worn_rental_vhs().stack[1].spec_kind() is ChromaticAberration,
        look_worn_rental_vhs().stack[2].spec_kind() is Glitch,
        look_worn_rental_vhs().stack[3].spec_kind() is Noise,
        look_worn_rental_vhs().stack[4].spec_kind() is FilmGrain,
        look_worn_rental_vhs().stack[5].spec_kind() is Scanlines,
        look_worn_rental_vhs().stack[6].spec_kind() is Vignette,
{
}

/// Glitch.
pub proof fn law_look_glitch()
    ensures
        look_glitch().name == "Glitch"@,
        look_glitch().stack.len() == 4,
        look_glitch().stack[0].spec_kind() is ChromaticAberration,
        look_glitch().stack[1].spec_kind() is Glitch,
        look_glitch().stack[2].spec_kind() is Glitch,
        look_glitch().stack[3].spec_kind() is Noise,
{
}

/// CRT Screen.
pub proof fn law_look_crt_screen()
    ensures
        look_crt_screen().name == "CRT Screen"@,
        look_crt_screen().stack.len() == 4,
        look_crt_screen().stack[0].spec_kind() is Scanlines,
        look_crt_screen().stack[1].spec_kind() is ChromaticAberration,
        look_crt_screen().stack[2].spec_kind() is Vignette,
        look_crt_screen().stack[3].spec_kind() is BrightnessContrast,
{
}

/// 90s Camcorder.
pub proof fn law_look_camcorder_90s()
    ensures
        look_camcorder_90s().name == "90s Camcorder"@,
        look_camcorder_90s().stack.len() == 5,
        look_camcorder_90s().stack[0].spec_kind() is Gaussian,
        look_camcorder_90s().stack[1].spec_kind() is ColorBalance,
        look_camcorder_90s().stack[2].spec_kind() is HueSaturation,
        look_camcorder_90s().stack[3].spec_kind() is FilmGrain,
        look_camcorder_90s().stack[4].spec_kind() is Vignette,
{
}

/// Neon Night.
pub proof fn law_look_neon_night()
    ensures
        look_neon_night().name == "Neon Night"@,
        look_neon_night().stack.len() == 3,
        look_neon_night().stack[0].spec_kind() is BrightnessContrast,
        look_neon_night().stack[1].spec_kind() is NeonGlow,
        look_neon_night().stack[2].spec_kind() is Vignette,
{
}

/// Soft Dream.
pub proof fn law_look_soft_dream()
    ensures
        look_soft_dream().name == "Soft Dream"@,
        look_soft_dream().stack.len() == 4,
        look_soft_dream().stack[0].spec_kind() is Gaussian,
        look_soft_dream().stack[1].spec_kind() is Glow,
        look_soft_dream().stack[2].spec_kind() is Pastel,
        look_soft_dream().stack[3].spec_kind() is Vignette,
{
}

/// Comic Print.
pub proof fn law_look_comic_print()
    ensures
        look_comic_print().name == "Comic Print"@,
        look_comic_print().stack.len() == 3,
        look_comic_print().stack[0].spec_kind() is Posterize,
        look_comic_print().stack[1].spec_kind() is ColorHalftone,
        look_comic_print().stack[2].spec_kind() is Outline,
{
}

/// Newspaper.
pub proof fn law_look_newspaper()
    ensures
        look_newspaper().name == "Newspaper"@,
        look_newspaper().stack.len() == 3,
        look_newspaper().stack[0].spec_kind() is HueSaturation,
        look_newspaper().stack[1].spec_kind() is ColorHalftone,
        look_newspaper().stack[2].spec_kind() is BrightnessContrast,
{
}

/// Oil Painting.
pub proof fn law_look_oil_painting()
    ensures
        look_oil_painting().name == "Oil Painting"@,
        look_oil_painting().stack.len() == 3,
        look_oil_painting().stack[0].spec_kind() is OilPaint,
        look_oil_painting().stack[1].spec_kind() is PaperTexture,
        look_oil_painting().stack[2].spec_kind() is Unsharp,
{
}

/// Watercolor Wash.
pub proof fn law_look_watercolor_wash()
    ensures
        look_watercolor_wash().name == "Watercolor Wash"@,
        look_watercolor_wash().stack.len() == 2,
        look_watercolor_wash().stack[0].spec_kind() is Watercolor,
        look_watercolor_wash().stack[1].spec_kind() is PaperTexture,
{
}

/// Pencil Sketch.
pub proof fn law_look_pencil_sketch()
    ensures
        look_pencil_sketch().name == "Pencil Sketch"@,
        look_pencil_sketch().stack.len() == 1,
        look_pencil_sketch().stack[0].spec_kind() is Pencil,
{
}

/// Cinematic.
pub proof fn law_look_cinematic()
    ensures
        look_cinematic().name == "Cinematic"@,
        look_cinematic().stack.len() == 5,
        look_cinematic().stack[0].spec_kind() is ColorBalance,
        look_cinematic().stack[1].spec_kind() is BrightnessContrast,
        look_cinematic().stack[2].spec_kind() is FilmGrain,
        look_cinematic().stack[3].spec_kind() is Vignette,
        look_cinematic().stack[4].spec_kind() is Unsharp,
{
}

/// Polaroid Fade.
pub proof fn law_look_polaroid_fade()
    ensures
        look_polaroid_fade().name == "Polaroid Fade"@,
        look_polaroid_fade().stack.len() == 4,
        look_polaroid_fade().stack[0].spec_kind() is HueSaturation,
        look_polaroid_fade().stack[1].spec_kind() is Sepia,
        look_polaroid_fade().stack[2].spec_kind() is Vignette,
        look_polaroid_fade().stack[3].spec_kind() is FilmGrain,
{
}

/// Cyberpunk.
pub proof fn law_look_cyberpunk()
    ensures
        look_cyberpunk().name == "Cyberpunk"@,
        look_cyberpunk().stack.len() == 4,
        look_cyberpunk().stack[0].spec_kind() is HueSaturation,
        look_cyberpunk().stack[1].spec_kind() is ChromaticAberration,
        look_cyberpunk().stack[2].spec_kind() is NeonGlow,
        look_cyberpunk().stack[3].spec_kind() is Vignette,
{
}

/// Vintage Film.
pub proof fn law_look_vintage_film()
    ensures
        look_vintage_film().name == "Vintage Film"@,
        look_vintage_film().stack.len() == 4,
        look_vintage_film().stack[0].spec_kind() is Sepia,
        look_vintage_film().stack[1].spec_kind() is FilmGrain,
        look_vintage_film().stack[2].spec_kind() is Vignette,
        look_vintage_film().stack[3].spec_kind() is ColorBalance,
{
}

/// Bleach Bypass.
pub proof fn law_look_bleach_bypass()
    ensures
        look_bleach_bypass().name == "Bleach Bypass"@,
        look_bleach_bypass().stack.len() == 4,
        look_bleach_bypass().stack[0].spec_kind() is HueSaturation,
        look_bleach_bypass().stack[1].spec_kind() is BrightnessContrast,
        look_bleach_bypass().stack[2].spec_kind() is Unsharp,
        look_bleach_bypass().stack[3].spec_kind() is FilmGrain,
{
}

/// Noirish.
pub proof fn law_look_noirish()
    ensures
        look_noirish().name == "Noirish"@,
        look_noirish().stack.len() == 4,
        look_noirish().stack[0].spec_kind() is HueSaturation,
        look_noirish().stack[1].spec_kind() is Levels,
        look_noirish().stack[2].spec_kind() is Vignette,
        look_noirish().stack[3].spec_kind() is FilmGrain,
{
}

/// Sunset Gradient.
pub proof fn law_look_sunset_gradient()
    ensures
        look_sunset_gradient().name == "Sunset Gradient"@,
        look_sunset_gradient().stack.len() == 2,
        look_sunset_gradient().stack[0].spec_kind() is Gradient,
        look_sunset_gradient().stack[1].spec_kind() is Vignette,
{
}

/// Teal–Orange Grade.
pub proof fn law_look_teal_orange_grade()
    ensures
        look_teal_orange_grade().name == "Teal–Orange Grade"@,
        look_teal_orange_grade().stack.len() == 2,
        look_teal_orange_grade().stack[0].spec_kind() is Gradient,
        look_teal_orange_grade().stack[1].spec_kind() is Levels,
{
}

/// Radial Glow Wash.
pub proof fn law_look_radial_glow_wash()
    ensures
        look_radial_glow_wash().name == "Radial Glow Wash"@,
        look_radial_glow_wash().stack.len() == 2,
        look_radial_glow_wash().stack[0].spec_kind() is Gradient,
        look_radial_glow_wash().stack[1].spec_kind() is Glow,
{
}

/// Duotone Night.
pub proof fn law_look_duotone_night()
    ensures
        look_duotone_night().name == "Duotone Night"@,
        look_duotone_night().stack.len() == 3,
        look_duotone_night().stack[0].spec_kind() is HueSaturation,
        look_duotone_night().stack[1].spec_kind() is Gradient,
        look_duotone_night().stack[2].spec_kind() is Vignette,
{
}

/// Candy Pop.
pub proof fn law_look_candy_pop()
    ensures
        look_candy_pop().name == "Candy Pop"@,
        look_candy_pop().stack.len() == 3,
        look_candy_pop().stack[0].spec_kind() is Posterize,
        look_candy_pop().stack[1].spec_kind() is Outline,
        look_candy_pop().stack[2].spec_kind() is Gradient,
{
}

/// Golden Hour.
pub proof fn law_look_golden_hour()
    ensures
        look_golden_hour().name == "Golden Hour"@,
        look_golden_hour().stack.len() == 3,
        look_golden_hour().stack[0].spec_kind() is ColorBalance,
        look_golden_hour().stack[1].spec_kind() is Gradient,
        look_golden_hour().stack[2].spec_kind() is Vignette,
{
}

/// Clean Outline.
pub proof fn law_look_clean_outline()
    ensures
        look_clean_outline().name == "Clean Outline"@,
        look_clean_outline().stack.len() == 1,
        look_clean_outline().stack[0].spec_kind() is Outline,
{
}

/// The looks in the order in which they are offered.
pub proof fn law_order_of_looks()
    ensures
        builtin_looks().len() == 28,
        builtin_looks()[0] == look_cel_outline_fun(),
        builtin_looks()[1] == look_tape_glitch_fun(),
        builtin_looks()[2] == look_old_anime(),
        builtin_looks()[3] == look_vhs(),
        builtin_looks()[4] == look_worn_rental_vhs(),
        builtin_looks()[5] == look_glitch(),
        builtin_looks()[6] == look_crt_screen(),
        builtin_looks()[7] == look_camcorder_90s(),
        builtin_looks()[8] == look_neon_night(),
        builtin_looks()[9] == look_soft_dream(),
        builtin_looks()[10] == look_comic_print(),
        builtin_looks()[11] == look_newspaper(),
        builtin_looks()[12] == look_oil_painting(),
        builtin_looks()[13] == look_watercolor_wash(),
        builtin_looks()[14] == look_pencil_sketch(),
        builtin_looks()[15] == look_cinematic(),
        builtin_looks()[16] == look_polaroid_fade(),
        builtin_looks()[17] == look_cyberpunk(),
        builtin_looks()[18] == look_vintage_film(),
        builtin_looks()[19] == look_bleach_bypass(),
        builtin_looks()[20] == look_noirish(),
        builtin_looks()[21] == look_sunset_gradient(),
        builtin_looks()[22] == look_teal_orange_grade(),
        builtin_looks()[23] == look_radial_glow_wash(),
        builtin_looks()[24] == look_duotone_night(),
        builtin_looks()[25] == look_candy_pop(),
        builtin_looks()[26] == look_golden_hour(),
        builtin_looks()[27] == look_clean_outline(),
{
}

/// A correction begins with settings that change nothing.
pub proof fn law_neutral_defaults(p: FilterParams)
    ensures
        p.is_default(StudioFilterKind::BrightnessContrast) ==> p == (
        FilterParams::BrightnessContrast { brightness: 0, contrast: 0 }),
        p.is_default(StudioFilterKind::ColorBalance) ==> p == (FilterParams::ColorBalance {
            cyan_red: 0,
            magenta_green: 0,
            yellow_blue: 0,
        }),
        p.is_default(StudioFilterKind::HueSaturation) ==> p == (FilterParams::HueSaturation {
            hue: 0,
            saturation: 0,
            lightness: 0,
            colorize: false,
        }),
        p.is_default(StudioFilterKind::Invert) ==> p is Invert,
{
}

/// What each new filter begins with.
#[verifier::spinoff_prover]
pub proof fn law_new_filters()
    ensures
        FilterParams::plain_default(StudioFilterKind::Gaussian) == Some(FilterParams::Gaussian { radius: 4000 }),
        FilterParams::plain_default(StudioFilterKind::Motion) == Some(FilterParams::Motion { length: 12_000, angle: 0 }),
        FilterParams::plain_default(StudioFilterKind::Radial) == Some(FilterParams::Radial { amount: 12_000, zoom_mode: false }),
        FilterParams::plain_default(StudioFilterKind::Unsharp) == Some(FilterParams::Unsharp { amount: 50_000, radius: 1000 }),
        FilterParams::plain_default(StudioFilterKind::BrightnessContrast) == Some(FilterParams::BrightnessContrast { brightness: 0, contrast: 0 }),
        FilterParams::plain_default(StudioFilterKind::Levels) == Some(FilterParams::Levels {
            black: 0,
            mid: 500,
            white: 255_000,
            red: identity_levels(),
            green: identity_levels(),
            blue: identity_levels(),
            edit: ToneChannel::Rgb,
        }),
        FilterParams::plain_default(StudioFilterKind::HueSaturation) == Some(FilterParams::HueSaturation {
            hue: 0,
            saturation: 0,
            lightness: 0,
            colorize: false,
        }),
        FilterParams::plain_default(StudioFilterKind::ColorBalance) == Some(FilterParams::ColorBalance { cyan_red: 0, magenta_green: 0, yellow_blue: 0 }),
        FilterParams::plain_default(StudioFilterKind::Invert) == Some(FilterParams::Invert),
        FilterParams::plain_default(StudioFilterKind::Pixelize) == Some(FilterParams::Pixelize {
            method: PixelizeMethod::Mosaic,
            block: 8,
            soft_amount: 100_000,
        }),
        FilterParams::plain_default(StudioFilterKind::HexPixelize) == Some(FilterParams::HexPixelize { size: 12 }),
        FilterParams::plain_default(StudioFilterKind::TriPixelize) == Some(FilterParams::TriPixelize { size: 12 }),
        FilterParams::plain_default(StudioFilterKind::HexDots) == Some(FilterParams::HexDots { size: 12, fill_pct: 76_000, soft_edge: false }),
        FilterParams::plain_default(StudioFilterKind::Posterize) == Some(FilterParams::Posterize { levels: 8 }),
        FilterParams::plain_default(StudioFilterKind::Crystallize) == Some(FilterParams::Crystallize { size: 16 }),
        FilterParams::plain_default(StudioFilterKind::Pointillize) == Some(FilterParams::Pointillize { size: 10, density: 85_000, bg: rgb(255, 255, 255) }),
        FilterParams::plain_default(StudioFilterKind::ColorHalftone) == Some(FilterParams::ColorHalftone {
            size: 8,
            angle: 0,
            mode: HalftoneMode::Cmy,
            paper: HalftonePaper::Replace,
            bg: rgb(255, 255, 255),
            strength: 100_000,
            softness: 35_000,
            contrast: 100_000,
            angle_c: 15_000,
            angle_m: 75_000,
            angle_y: 0,
            angle_k: 45_000,
        }),
        FilterParams::plain_default(StudioFilterKind::Fisheye) == Some(FilterParams::Fisheye {
            model: FisheyeModel::Equidistant,
            amount: 450,
            radius: 100_000,
            center_x: 50_000,
            center_y: 50_000,
        }),
        FilterParams::plain_default(StudioFilterKind::SphericalLens) == Some(FilterParams::SphericalLens {
            amount: 350,
            radius: 100_000,
            center_x: 50_000,
            center_y: 50_000,
        }),
        FilterParams::plain_default(StudioFilterKind::Ripple) == Some(FilterParams::Ripple {
            mode: RippleMode::Circular,
            amount: 8000,
            wavelength: 32_000,
            angle: 0,
            center_x: 50_000,
            center_y: 50_000,
        }),
        FilterParams::plain_default(StudioFilterKind::Twist) == Some(FilterParams::Twist {
            amount: 1000,
            radius: 100_000,
            center_x: 50_000,
            center_y: 50_000,
        }),
        FilterParams::plain_default(StudioFilterKind::ChromaticAberration) == Some(FilterParams::ChromaticAberration {
            mode: ChromaMode::Radial,
            amount: 6000,
            angle: 0,
            center_atten: 55_000,
            red_scale: 1000,
            blue_scale: 1000,
        }),
        FilterParams::plain_default(StudioFilterKind::Noise) == Some(FilterParams::Noise {
            method: NoiseMethod::Soft,
            amount: 20_000,
            monochrome: true,
        }),
        FilterParams::plain_default(StudioFilterKind::Glitch) == Some(FilterParams::Glitch {
            method: GlitchMethod::SliceShift,
            amount: 35_000,
            slice_height: 12_000,
            max_shift: 24_000,
        }),
        FilterParams::plain_default(StudioFilterKind::Vignette) == Some(FilterParams::Vignette {
            shape: VignetteShape::Circle,
            amount: 55_000,
            softness: 55_000,
            roundness: 50_000,
            color: rgb(0, 0, 0),
        }),
        FilterParams::plain_default(StudioFilterKind::Glow) == Some(FilterParams::Glow {
            radius: 12_000,
            intensity: 60_000,
            tint: false,
            color: rgb(255, 220, 160),
        }),
        FilterParams::plain_default(StudioFilterKind::Sepia) == Some(FilterParams::Sepia { amount: 80_000, warmth: 50_000 }),
        FilterParams::plain_default(StudioFilterKind::FilmGrain) == Some(FilterParams::FilmGrain {
            amount: 35_000,
            size: 1000,
            roughness: 40_000,
            monochrome: true,
            shadow_bias: 20_000,
        }),
        FilterParams::plain_default(StudioFilterKind::Dither) == Some(FilterParams::Dither {
            method: DitherMethod::Bayer8,
            levels: 8,
            amount: 100_000,
            serpentine: true,
            pattern_size: 1000,
            monochrome: false,
        }),
        FilterParams::plain_default(StudioFilterKind::ReplaceColor) == Some(FilterParams::ReplaceColor {
            from: rgb(255, 0, 0),
            to: rgb(0, 128, 255),
            tolerance: 25_000,
            softness: 15_000,
            affect: ReplaceAffect::HueSat,
            amount: 100_000,
        }),
        FilterParams::plain_default(StudioFilterKind::Outline) == Some(FilterParams::Outline {
            thickness: 2000,
            threshold: 35_000,
            softness: 40_000,
            color: rgb(0, 0, 0),
            opacity: 100_000,
            mode: OutlineMode::Outer,
            use_luma: false,
        }),
        FilterParams::plain_default(StudioFilterKind::OilPaint) == Some(FilterParams::OilPaint { radius: 4000, levels: 16, strength: 100_000 }),
        FilterParams::plain_default(StudioFilterKind::Watercolor) == Some(FilterParams::Watercolor {
            blur: 3500,
            bleed: 55_000,
            edge: 45_000,
            saturation: 25_000,
            strength: 85_000,
        }),
        FilterParams::plain_default(StudioFilterKind::Pencil) == Some(FilterParams::Pencil {
            detail: 2500,
            darkness: 70_000,
            grain: 35_000,
            strength: 100_000,
        }),
        FilterParams::plain_default(StudioFilterKind::Pastel) == Some(FilterParams::Pastel {
            softness: 2500,
            chalk: 45_000,
            lighten: 25_000,
            strength: 80_000,
        }),
        FilterParams::plain_default(StudioFilterKind::PaperTexture) == Some(FilterParams::PaperTexture {
            amount: 40_000,
            scale: 3000,
            roughness: 55_000,
            warm: 30_000,
        }),
        FilterParams::plain_default(StudioFilterKind::NeonGlow) == Some(FilterParams::NeonGlow {
            radius: 10_000,
            intensity: 90_000,
            threshold: 35_000,
            color: rgb(80, 220, 255),
            core: 40_000,
        }),
        FilterParams::plain_default(StudioFilterKind::LightRays) == Some(FilterParams::LightRays {
            amount: 55_000,
            length: 48_000,
            center_x: 50_000,
            center_y: 35_000,
            decay: 45_000,
            tint: false,
            color: rgb(255, 230, 180),
        }),
        FilterParams::plain_default(StudioFilterKind::LensFlare) == Some(FilterParams::LensFlare {
            amount: 55_000,
            center_x: 70_000,
            center_y: 28_000,
            size: 36_000,
            streak: 45_000,
            color: rgb(255, 240, 210),
        }),
        FilterParams::plain_default(StudioFilterKind::DropShadow) == Some(FilterParams::DropShadow {
            angle: 135_000,
            distance: 8000,
            blur: 6000,
            opacity: 55_000,
            color: rgb(0, 0, 0),
        }),
        FilterParams::plain_default(StudioFilterKind::BevelEmboss) == Some(FilterParams::BevelEmboss {
            depth: 3000,
            soft: 1000,
            angle: 135_000,
            elevation: 40_000,
            mode: BevelMode::Bevel,
            strength: 70_000,
        }),
        FilterParams::plain_default(StudioFilterKind::Scanlines) == Some(FilterParams::Scanlines {
            spacing: 3000,
            thickness: 1200,
            opacity: 35_000,
            color: rgb(0, 0, 0),
            vertical: false,
            soft: true,
        }),
        FilterParams::plain_default(StudioFilterKind::LiquidGlass) == Some(FilterParams::LiquidGlass {
            mode: LiquidGlassMode::Droplet,
            radius: 35_000,
            center_x: 50_000,
            center_y: 50_000,
            spacing: 14_000,
            angle: 0,
            refraction: 55_000,
            specular: 70_000,
            rim: 45_000,
            softness: 25_000,
            chroma: 15_000,
            tint: rgb(180, 220, 255),
            tint_amount: 12_000,
        }),
        FilterParams::plain_default(StudioFilterKind::Gradient) == Some(FilterParams::Gradient {
            shape: GradientShape::Linear,
            angle: 90_000,
            spread: 100_000,
            center_x: 50_000,
            center_y: 50_000,
            color_a: rgb(255, 120, 60),
            color_b: rgb(80, 40, 160),
            opacity_a: 85_000,
            opacity_b: 85_000,
            amount: 55_000,
            blend: BlendMode::SoftLight,
            reverse: false,
        }),
        FilterParams::plain_default(StudioFilterKind::ImageOverlay) == Some(FilterParams::ImageOverlay {
            path: None,
            rgba: None,
            tex_w: 0,
            tex_h: 0,
            blend: BlendMode::Overlay,
            opacity: 55_000,
            scale: 100_000,
            rotation: 0,
            offset_x: 0,
            offset_y: 0,
            tile: true,
        }),
{
}

} // verus!
