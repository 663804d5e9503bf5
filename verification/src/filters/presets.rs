//! The looks that come with the studio.
use vstd::prelude::*;
use crate::filters::choice::{
    BlendMode, ChromaMode, GlitchMethod, GradientShape, HalftoneMode, HalftonePaper, NoiseMethod,
    OutlineMode, Rgb, ToneChannel, VignetteShape, identity_levels, rgb,
};
use crate::filters::params::FilterParams;

verus! {

/// A named stack of filters.
pub struct FilterPreset {
    pub name: String,
    pub stack: Vec<FilterParams>,
}

/// Levels for all channels together.
#[verifier::allow_in_spec]
pub fn levels(black: i32, mid: i32, white: i32) -> FilterParams
    returns
        (FilterParams::Levels {
            black,
            mid,
            white,
            red: identity_levels(),
            green: identity_levels(),
            blue: identity_levels(),
            edit: ToneChannel::Rgb,
        }),
{
    FilterParams::Levels {
        black,
        mid,
        white,
        red: identity_levels(),
        green: identity_levels(),
        blue: identity_levels(),
        edit: ToneChannel::Rgb,
    }
}

/// A halftone with the usual screen angles.
#[verifier::allow_in_spec]
pub fn halftone(
    size: u32,
    angle: i32,
    mode: HalftoneMode,
    paper: HalftonePaper,
    bg: Rgb,
    strength: i32,
) -> FilterParams
    returns
        (FilterParams::ColorHalftone {
            size,
            angle,
            mode,
            paper,
            bg,
            strength,
            softness: 35_000,
            contrast: 100_000,
            angle_c: 15_000,
            angle_m: 75_000,
            angle_y: 0,
            angle_k: 45_000,
        }),
{
    FilterParams::ColorHalftone {
        size,
        angle,
        mode,
        paper,
        bg,
        strength,
        softness: 35_000,
        contrast: 100_000,
        angle_c: 15_000,
        angle_m: 75_000,
        angle_y: 0,
        angle_k: 45_000,
    }
}

/// A look as a value: its name and its filters in order.
pub struct Look {
    pub name: Seq<char>,
    pub stack: Seq<FilterParams>,
}

impl View for FilterPreset {
    type V = Look;

    open spec fn view(&self) -> Look {
        Look { name: self.name@, stack: self.stack@ }
    }
}

pub open spec fn look_cel_outline_fun() -> Look {
    Look {
        name: "Cel Outline (fun)"@,
        stack: seq![
            FilterParams::Posterize { levels: 6 },
            FilterParams::Outline {
                thickness: 1500,
                threshold: 28_000,
                softness: 25_000,
                color: rgb(20, 18, 30),
                opacity: 85_000,
                mode: OutlineMode::Outer,
                use_luma: false,
            },
            FilterParams::HueSaturation {
                hue: 8000,
                saturation: 18_000,
                lightness: 4000,
                colorize: false,
            },
            FilterParams::Glow {
                radius: 4000,
                intensity: 28_000,
                tint: false,
                color: rgb(255, 220, 160),
            },
            FilterParams::Vignette {
                shape: VignetteShape::Ellipse,
                amount: 28_000,
                softness: 60_000,
                roundness: 40_000,
                color: rgb(20, 10, 30),
            },
        ],
    }
}

fn make_cel_outline_fun() -> (r: FilterPreset)
    ensures
        r@ == look_cel_outline_fun(),
{
    let mut stack: Vec<FilterParams> = Vec::new();
    stack.push(FilterParams::Posterize { levels: 6 });
    stack.push(FilterParams::Outline {
        thickness: 1500,
        threshold: 28_000,
        softness: 25_000,
        color: rgb(20, 18, 30),
        opacity: 85_000,
        mode: OutlineMode::Outer,
        use_luma: false,
    });
    stack.push(FilterParams::HueSaturation {
        hue: 8000,
        saturation: 18_000,
        lightness: 4000,
        colorize: false,
    });
    stack.push(FilterParams::Glow {
        radius: 4000,
        intensity: 28_000,
        tint: false,
        color: rgb(255, 220, 160),
    });
    stack.push(FilterParams::Vignette {
        shape: VignetteShape::Ellipse,
        amount: 28_000,
        softness: 60_000,
        roundness: 40_000,
        color: rgb(20, 10, 30),
    });
    let r = FilterPreset { name: "Cel Outline (fun)".to_owned(), stack };
    assert(r@.stack =~= look_cel_outline_fun().stack);
    r
}

pub open spec fn look_tape_glitch_fun() -> Look {
    Look {
        name: "Tape Glitch (fun)"@,
        stack: seq![
            FilterParams::ChromaticAberration {
                mode: ChromaMode::Linear,
                amount: 4500,
                angle: 0,
                center_atten: 20_000,
                red_scale: 1100,
                blue_scale: 1150,
            },
            FilterParams::Noise {
                method: NoiseMethod::Soft,
                amount: 18_000,
                monochrome: false,
            },
            FilterParams::FilmGrain {
                amount: 42_000,
                size: 1400,
                roughness: 55_000,
                monochrome: false,
                shadow_bias: 30_000,
            },
            FilterParams::Glitch {
                method: GlitchMethod::SliceShift,
                amount: 12_000,
                slice_height: 6000,
                max_shift: 8000,
            },
            FilterParams::Vignette {
                shape: VignetteShape::Ellipse,
                amount: 40_000,
                softness: 50_000,
                roundness: 35_000,
                color: rgb(0, 0, 0),
            },
            FilterParams::HueSaturation {
                hue: (-8000) as i32,
                saturation: (-12_000) as i32,
                lightness: (-4000) as i32,
                colorize: false,
            },
        ],
    }
}

fn make_tape_glitch_fun() -> (r: FilterPreset)
    ensures
        r@ == look_tape_glitch_fun(),
{
    let mut stack: Vec<FilterParams> = Vec::new();
    stack.push(FilterParams::ChromaticAberration {
        mode: ChromaMode::Linear,
        amount: 4500,
        angle: 0,
        center_atten: 20_000,
        red_scale: 1100,
        blue_scale: 1150,
    });
    stack.push(FilterParams::Noise { method: NoiseMethod::Soft, amount: 18_000, monochrome: false });
    stack.push(FilterParams::FilmGrain {
        amount: 42_000,
        size: 1400,
        roughness: 55_000,
        monochrome: false,
        shadow_bias: 30_000,
    });
    stack.push(FilterParams::Glitch {
        method: GlitchMethod::SliceShift,
        amount: 12_000,
        slice_height: 6000,
        max_shift: 8000,
    });
    stack.push(FilterParams::Vignette {
        shape: VignetteShape::Ellipse,
        amount: 40_000,
        softness: 50_000,
        roundness: 35_000,
        color: rgb(0, 0, 0),
    });
    stack.push(FilterParams::HueSaturation {
        hue: -8000,
        saturation: -12_000,
        lightness: -4000,
        colorize: false,
    });
    let r = FilterPreset { name: "Tape Glitch (fun)".to_owned(), stack };
    assert(r@.stack =~= look_tape_glitch_fun().stack);
    r
}

pub open spec fn look_old_anime() -> Look {
    Look {
        name: "Old Anime"@,
        stack: seq![
            FilterParams::Gaussian { radius: 700 },
            FilterParams::Posterize { levels: 12 },
            levels(8000, 550, 245_000),
            FilterParams::HueSaturation {
                hue: 6000,
                saturation: (-8000) as i32,
                lightness: (-3000) as i32,
                colorize: false,
            },
            FilterParams::ChromaticAberration {
                mode: ChromaMode::Linear,
                amount: 2200,
                angle: 0,
                center_atten: 30_000,
                red_scale: 1050,
                blue_scale: 1100,
            },
            FilterParams::FilmGrain {
                amount: 16_000,
                size: 1000,
                roughness: 28_000,
                monochrome: false,
                shadow_bias: 15_000,
            },
            FilterParams::Vignette {
                shape: VignetteShape::Ellipse,
                amount: 22_000,
                softness: 65_000,
                roundness: 40_000,
                color: rgb(18, 12, 28),
            },
        ],
    }
}

fn make_old_anime() -> (r: FilterPreset)
    ensures
        r@ == look_old_anime(),
{
    let mut stack: Vec<FilterParams> = Vec::new();
    stack.push(FilterParams::Gaussian { radius: 700 });
    stack.push(FilterParams::Posterize { levels: 12 });
    stack.push(levels(8000, 550, 245_000));
    stack.push(FilterParams::HueSaturation {
        hue: 6000,
        saturation: -8000,
        lightness: -3000,
        colorize: false,
    });
    stack.push(FilterParams::ChromaticAberration {
        mode: ChromaMode::Linear,
        amount: 2200,
        angle: 0,
        center_atten: 30_000,
        red_scale: 1050,
        blue_scale: 1100,
    });
    stack.push(FilterParams::FilmGrain {
        amount: 16_000,
        size: 1000,
        roughness: 28_000,
        monochrome: false,
        shadow_bias: 15_000,
    });
    stack.push(FilterParams::Vignette {
        shape: VignetteShape::Ellipse,
        amount: 22_000,
        softness: 65_000,
        roundness: 40_000,
        color: rgb(18, 12, 28),
    });
    let r = FilterPreset { name: "Old Anime".to_owned(), stack };
    assert(r@.stack =~= look_old_anime().stack);
    r
}

pub open spec fn look_vhs() -> Look {
    Look {
        name: "VHS"@,
        stack: seq![
            FilterParams::Gaussian { radius: 1200 },
            FilterParams::ChromaticAberration {
                mode: ChromaMode::Linear,
                amount: 5500,
                angle: 0,
                center_atten: 15_000,
                red_scale: 1150,
                blue_scale: 1200,
            },
            FilterParams::HueSaturation {
                hue: (-12_000) as i32,
                saturation: (-18_000) as i32,
                lightness: 2000,
                colorize: false,
            },
            FilterParams::ColorBalance {
                cyan_red: 6000,
                magenta_green: (-4000) as i32,
                yellow_blue: (-8000) as i32,
            },
            FilterParams::Noise {
                method: NoiseMethod::Soft,
                amount: 14_000,
                monochrome: false,
            },
            FilterParams::FilmGrain {
                amount: 28_000,
                size: 1300,
                roughness: 45_000,
                monochrome: false,
                shadow_bias: 25_000,
            },
            FilterParams::Scanlines {
                spacing: 2500,
                thickness: 1000,
                opacity: 28_000,
                color: rgb(0, 0, 0),
                vertical: false,
                soft: true,
            },
            FilterParams::Vignette {
                shape: VignetteShape::Ellipse,
                amount: 38_000,
                softness: 48_000,
                roundness: 30_000,
                color: rgb(0, 0, 0),
            },
        ],
    }
}

fn make_vhs() -> (r: FilterPreset)
    ensures
        r@ == look_vhs(),
{
    let mut stack: Vec<FilterParams> = Vec::new();
    stack.push(FilterParams::Gaussian { radius: 1200 });
    stack.push(FilterParams::ChromaticAberration {
        mode: ChromaMode::Linear,
        amount: 5500,
        angle: 0,
        center_atten: 15_000,
        red_scale: 1150,
        blue_scale: 1200,
    });
    stack.push(FilterParams::HueSaturation {
        hue: -12_000,
        saturation: -18_000,
        lightness: 2000,
        colorize: false,
    });
    stack.push(FilterParams::ColorBalance { cyan_red: 6000, magenta_green: -4000, yellow_blue: -8000 });
    stack.push(FilterParams::Noise { method: NoiseMethod::Soft, amount: 14_000, monochrome: false });
    stack.push(FilterParams::FilmGrain {
        amount: 28_000,
        size: 1300,
        roughness: 45_000,
        monochrome: false,
        shadow_bias: 25_000,
    });
    stack.push(FilterParams::Scanlines {
        spacing: 2500,
        thickness: 1000,
        opacity: 28_000,
        color: rgb(0, 0, 0),
        vertical: false,
        soft: true,
    });
    stack.push(FilterParams::Vignette {
        shape: VignetteShape::Ellipse,
        amount: 38_000,
        softness: 48_000,
        roundness: 30_000,
        color: rgb(0, 0, 0),
    });
    let r = FilterPreset { name: "VHS".to_owned(), stack };
    assert(r@.stack =~= look_vhs().stack);
    r
}

pub open spec fn look_worn_rental_vhs() -> Look {
    Look {
        name: "Worn Rental VHS"@,
        stack: seq![
            FilterParams::Gaussian { radius: 1600 },
            FilterParams::ChromaticAberration {
                mode: ChromaMode::Linear,
                amount: 7000,
                angle: 2000,
                center_atten: 10_000,
                red_scale: 1200,
                blue_scale: 1250,
            },
            FilterParams::Glitch {
                method: GlitchMethod::SliceShift,
                amount: 18_000,
                slice_height: 5000,
                max_shift: 14_000,
            },
            FilterParams::Noise {
                method: NoiseMethod::Uniform,
                amount: 22_000,
                monochrome: false,
            },
            FilterParams::FilmGrain {
                amount: 40_000,
                size: 1600,
                roughness: 60_000,
                monochrome: false,
                shadow_bias: 35_000,
            },
            FilterParams::Scanlines {
                spacing: 3000,
                thickness: 1400,
                opacity: 40_000,
                color: rgb(0, 0, 0),
                vertical: false,
                soft: false,
            },
            FilterParams::Vignette {
                shape: VignetteShape::Ellipse,
                amount: 50_000,
                softness: 40_000,
                roundness: 25_000,
                color: rgb(0, 0, 0),
            },
        ],
    }
}

fn make_worn_rental_vhs() -> (r: FilterPreset)
    ensures
        r@ == look_worn_rental_vhs(),
{
    let mut stack: Vec<FilterParams> = Vec::new();
    stack.push(FilterParams::Gaussian { radius: 1600 });
    stack.push(FilterParams::ChromaticAberration {
        mode: ChromaMode::Linear,
        amount: 7000,
        angle: 2000,
        center_atten: 10_000,
        red_scale: 1200,
        blue_scale: 1250,
    });
    stack.push(FilterParams::Glitch {
        method: GlitchMethod::SliceShift,
        amount: 18_000,
        slice_height: 5000,
        max_shift: 14_000,
    });
    stack.push(FilterParams::Noise { method: NoiseMethod::Uniform, amount: 22_000, monochrome: false });
    stack.push(FilterParams::FilmGrain {
        amount: 40_000,
        size: 1600,
        roughness: 60_000,
        monochrome: false,
        shadow_bias: 35_000,
    });
    stack.push(FilterParams::Scanlines {
        spacing: 3000,
        thickness: 1400,
        opacity: 40_000,
        color: rgb(0, 0, 0),
        vertical: false,
        soft: false,
    });
    stack.push(FilterParams::Vignette {
        shape: VignetteShape::Ellipse,
        amount: 50_000,
        softness: 40_000,
        roundness: 25_000,
        color: rgb(0, 0, 0),
    });
    let r = FilterPreset { name: "Worn Rental VHS".to_owned(), stack };
    assert(r@.stack =~= look_worn_rental_vhs().stack);
    r
}

pub open spec fn look_glitch() -> Look {
    Look {
        name: "Glitch"@,
        stack: seq![
            FilterParams::ChromaticAberration {
                mode: ChromaMode::Linear,
                amount: 10_000,
                angle: 0,
                center_atten: 0,
                red_scale: 1300,
                blue_scale: 1350,
            },
            FilterParams::Glitch {
                method: GlitchMethod::ChannelTear,
                amount: 45_000,
                slice_height: 10_000,
                max_shift: 28_000,
            },
            FilterParams::Glitch {
                method: GlitchMethod::BlockDisplace,
                amount: 30_000,
                slice_height: 16_000,
                max_shift: 20_000,
            },
            FilterParams::Noise {
                method: NoiseMethod::SaltPepper,
                amount: 12_000,
                monochrome: false,
            },
        ],
    }
}

fn make_glitch() -> (r: FilterPreset)
    ensures
        r@ == look_glitch(),
{
    let mut stack: Vec<FilterParams> = Vec::new();
    stack.push(FilterParams::ChromaticAberration {
        mode: ChromaMode::Linear,
        amount: 10_000,
        angle: 0,
        center_atten: 0,
        red_scale: 1300,
        blue_scale: 1350,
    });
    stack.push(FilterParams::Glitch {
        method: GlitchMethod::ChannelTear,
        amount: 45_000,
        slice_height: 10_000,
        max_shift: 28_000,
    });
    stack.push(FilterParams::Glitch {
        method: GlitchMethod::BlockDisplace,
        amount: 30_000,
        slice_height: 16_000,
        max_shift: 20_000,
    });
    stack.push(FilterParams::Noise { method: NoiseMethod::SaltPepper, amount: 12_000, monochrome: false });
    let r = FilterPreset { name: "Glitch".to_owned(), stack };
    assert(r@.stack =~= look_glitch().stack);
    r
}

pub open spec fn look_crt_screen() -> Look {
    Look {
        name: "CRT Screen"@,
        stack: seq![
            FilterParams::Scanlines {
                spacing: 2000,
                thickness: 900,
                opacity: 45_000,
                color: rgb(0, 0, 0),
                vertical: false,
                soft: true,
            },
            FilterParams::ChromaticAberration {
                mode: ChromaMode::Radial,
                amount: 3000,
                angle: 0,
                center_atten: 50_000,
                red_scale: 1080,
                blue_scale: 1100,
            },
            FilterParams::Vignette {
                shape: VignetteShape::Circle,
                amount: 35_000,
                softness: 55_000,
                roundness: 50_000,
                color: rgb(0, 0, 0),
            },
            FilterParams::BrightnessContrast { brightness: 4000, contrast: 8000 },
        ],
    }
}

fn make_crt_screen() -> (r: FilterPreset)
    ensures
        r@ == look_crt_screen(),
{
    let mut stack: Vec<FilterParams> = Vec::new();
    stack.push(FilterParams::Scanlines {
        spacing: 2000,
        thickness: 900,
        opacity: 45_000,
        color: rgb(0, 0, 0),
        vertical: false,
        soft: true,
    });
    stack.push(FilterParams::ChromaticAberration {
        mode: ChromaMode::Radial,
        amount: 3000,
        angle: 0,
        center_atten: 50_000,
        red_scale: 1080,
        blue_scale: 1100,
    });
    stack.push(FilterParams::Vignette {
        shape: VignetteShape::Circle,
        amount: 35_000,
        softness: 55_000,
        roundness: 50_000,
        color: rgb(0, 0, 0),
    });
    stack.push(FilterParams::BrightnessContrast { brightness: 4000, contrast: 8000 });
    let r = FilterPreset { name: "CRT Screen".to_owned(), stack };
    assert(r@.stack =~= look_crt_screen().stack);
    r
}

pub open spec fn look_camcorder_90s() -> Look {
    Look {
        name: "90s Camcorder"@,
        stack: seq![
            FilterParams::Gaussian { radius: 900 },
            FilterParams::ColorBalance {
                cyan_red: 10_000,
                magenta_green: 4000,
                yellow_blue: (-14_000) as i32,
            },
            FilterParams::HueSaturation {
                hue: 8000,
                saturation: 12_000,
                lightness: 4000,
                colorize: false,
            },
            FilterParams::FilmGrain {
                amount: 20_000,
                size: 1100,
                roughness: 35_000,
                monochrome: false,
                shadow_bias: 20_000,
            },
            FilterParams::Vignette {
                shape: VignetteShape::Ellipse,
                amount: 25_000,
                softness: 60_000,
                roundness: 35_000,
                color: rgb(20, 10, 0),
            },
        ],
    }
}

fn make_camcorder_90s() -> (r: FilterPreset)
    ensures
        r@ == look_camcorder_90s(),
{
    let mut stack: Vec<FilterParams> = Vec::new();
    stack.push(FilterParams::Gaussian { radius: 900 });
    stack.push(FilterParams::ColorBalance { cyan_red: 10_000, magenta_green: 4000, yellow_blue: -14_000 });
    stack.push(FilterParams::HueSaturation {
        hue: 8000,
        saturation: 12_000,
        lightness: 4000,
        colorize: false,
    });
    stack.push(FilterParams::FilmGrain {
        amount: 20_000,
        size: 1100,
        roughness: 35_000,
        monochrome: false,
        shadow_bias: 20_000,
    });
    stack.push(FilterParams::Vignette {
        shape: VignetteShape::Ellipse,
        amount: 25_000,
        softness: 60_000,
        roundness: 35_000,
        color: rgb(20, 10, 0),
    });
    let r = FilterPreset { name: "90s Camcorder".to_owned(), stack };
    assert(r@.stack =~= look_camcorder_90s().stack);
    r
}

pub open spec fn look_neon_night() -> Look {
    Look {
        name: "Neon Night"@,
        stack: seq![
            FilterParams::BrightnessContrast { brightness: (-8000) as i32, contrast: 18_000 },
            FilterParams::NeonGlow {
                radius: 12_000,
                intensity: 110_000,
                threshold: 30_000,
                color: rgb(90, 220, 255),
                core: 45_000,
            },
            FilterParams::Vignette {
                shape: VignetteShape::Ellipse,
                amount: 55_000,
                softness: 45_000,
                roundness: 40_000,
                color: rgb(0, 0, 20),
            },
        ],
    }
}

fn make_neon_night() -> (r: FilterPreset)
    ensures
        r@ == look_neon_night(),
{
    let mut stack: Vec<FilterParams> = Vec::new();
    stack.push(FilterParams::BrightnessContrast { brightness: -8000, contrast: 18_000 });
    stack.push(FilterParams::NeonGlow {
        radius: 12_000,
        intensity: 110_000,
        threshold: 30_000,
        color: rgb(90, 220, 255),
        core: 45_000,
    });
    stack.push(FilterParams::Vignette {
        shape: VignetteShape::Ellipse,
        amount: 55_000,
        softness: 45_000,
        roundness: 40_000,
        color: rgb(0, 0, 20),
    });
    let r = FilterPreset { name: "Neon Night".to_owned(), stack };
    assert(r@.stack =~= look_neon_night().stack);
    r
}

pub open spec fn look_soft_dream() -> Look {
    Look {
        name: "Soft Dream"@,
        stack: seq![
            FilterParams::Gaussian { radius: 1800 },
            FilterParams::Glow {
                radius: 14_000,
                intensity: 55_000,
                tint: true,
                color: rgb(255, 210, 230),
            },
            FilterParams::Pastel {
                softness: 1500,
                chalk: 30_000,
                lighten: 20_000,
                strength: 55_000,
            },
            FilterParams::Vignette {
                shape: VignetteShape::Circle,
                amount: 22_000,
                softness: 70_000,
                roundness: 50_000,
                color: rgb(40, 30, 50),
            },
        ],
    }
}

fn make_soft_dream() -> (r: FilterPreset)
    ensures
        r@ == look_soft_dream(),
{
    let mut stack: Vec<FilterParams> = Vec::new();
    stack.push(FilterParams::Gaussian { radius: 1800 });
    stack.push(FilterParams::Glow {
        radius: 14_000,
        intensity: 55_000,
        tint: true,
        color: rgb(255, 210, 230),
    });
    stack.push(FilterParams::Pastel { softness: 1500, chalk: 30_000, lighten: 20_000, strength: 55_000 });
    stack.push(FilterParams::Vignette {
        shape: VignetteShape::Circle,
        amount: 22_000,
        softness: 70_000,
        roundness: 50_000,
        color: rgb(40, 30, 50),
    });
    let r = FilterPreset { name: "Soft Dream".to_owned(), stack };
    assert(r@.stack =~= look_soft_dream().stack);
    r
}

pub open spec fn look_comic_print() -> Look {
    Look {
        name: "Comic Print"@,
        stack: seq![
            FilterParams::Posterize { levels: 5 },
            halftone(6, 15_000, HalftoneMode::Cmy, HalftonePaper::Overlay, rgb(255, 255, 255), 85_000),
            FilterParams::Outline {
                thickness: 2000,
                threshold: 40_000,
                softness: 15_000,
                color: rgb(0, 0, 0),
                opacity: 90_000,
                mode: OutlineMode::Center,
                use_luma: true,
            },
        ],
    }
}

fn make_comic_print() -> (r: FilterPreset)
    ensures
        r@ == look_comic_print(),
{
    let mut stack: Vec<FilterParams> = Vec::new();
    stack.push(FilterParams::Posterize { levels: 5 });
    stack.push(halftone(6, 15_000, HalftoneMode::Cmy, HalftonePaper::Overlay, rgb(255, 255, 255), 85_000));
    stack.push(FilterParams::Outline {
        thickness: 2000,
        threshold: 40_000,
        softness: 15_000,
        color: rgb(0, 0, 0),
        opacity: 90_000,
        mode: OutlineMode::Center,
        use_luma: true,
    });
    let r = FilterPreset { name: "Comic Print".to_owned(), stack };
    assert(r@.stack =~= look_comic_print().stack);
    r
}

pub open spec fn look_newspaper() -> Look {
    Look {
        name: "Newspaper"@,
        stack: seq![
            FilterParams::HueSaturation {
                hue: 0,
                saturation: (-100_000) as i32,
                lightness: 0,
                colorize: false,
            },
            halftone(5, 45_000, HalftoneMode::Mono, HalftonePaper::Replace, rgb(245, 245, 240), 100_000),
            FilterParams::BrightnessContrast { brightness: 4000, contrast: 18_000 },
        ],
    }
}

fn make_newspaper() -> (r: FilterPreset)
    ensures
        r@ == look_newspaper(),
{
    let mut stack: Vec<FilterParams> = Vec::new();
    stack.push(FilterParams::HueSaturation {
        hue: 0,
        saturation: -100_000,
        lightness: 0,
        colorize: false,
    });
    stack.push(halftone(5, 45_000, HalftoneMode::Mono, HalftonePaper::Replace, rgb(245, 245, 240), 100_000));
    stack.push(FilterParams::BrightnessContrast { brightness: 4000, contrast: 18_000 });
    let r = FilterPreset { name: "Newspaper".to_owned(), stack };
    assert(r@.stack =~= look_newspaper().stack);
    r
}

pub open spec fn look_oil_painting() -> Look {
    Look {
        name: "Oil Painting"@,
        stack: seq![
            FilterParams::OilPaint { radius: 5000, levels: 14, strength: 100_000 },
            FilterParams::PaperTexture {
                amount: 22_000,
                scale: 4000,
                roughness: 40_000,
                warm: 45_000,
            },
            FilterParams::Unsharp { amount: 25_000, radius: 800 },
        ],
    }
}

fn make_oil_painting() -> (r: FilterPreset)
    ensures
        r@ == look_oil_painting(),
{
    let mut stack: Vec<FilterParams> = Vec::new();
    stack.push(FilterParams::OilPaint { radius: 5000, levels: 14, strength: 100_000 });
    stack.push(FilterParams::PaperTexture {
        amount: 22_000,
        scale: 4000,
        roughness: 40_000,
        warm: 45_000,
    });
    stack.push(FilterParams::Unsharp { amount: 25_000, radius: 800 });
    let r = FilterPreset { name: "Oil Painting".to_owned(), stack };
    assert(r@.stack =~= look_oil_painting().stack);
    r
}

pub open spec fn look_watercolor_wash() -> Look {
    Look {
        name: "Watercolor Wash"@,
        stack: seq![
            FilterParams::Watercolor {
                blur: 4000,
                bleed: 65_000,
                edge: 50_000,
                saturation: 30_000,
                strength: 90_000,
            },
            FilterParams::PaperTexture {
                amount: 35_000,
                scale: 3500,
                roughness: 60_000,
                warm: 25_000,
            },
        ],
    }
}

fn make_watercolor_wash() -> (r: FilterPreset)
    ensures
        r@ == look_watercolor_wash(),
{
    let mut stack: Vec<FilterParams> = Vec::new();
    stack.push(FilterParams::Watercolor {
        blur: 4000,
        bleed: 65_000,
        edge: 50_000,
        saturation: 30_000,
        strength: 90_000,
    });
    stack.push(FilterParams::PaperTexture {
        amount: 35_000,
        scale: 3500,
        roughness: 60_000,
        warm: 25_000,
    });
    let r = FilterPreset { name: "Watercolor Wash".to_owned(), stack };
    assert(r@.stack =~= look_watercolor_wash().stack);
    r
}

pub open spec fn look_pencil_sketch() -> Look {
    Look {
        name: "Pencil Sketch"@,
        stack: seq![
            FilterParams::Pencil {
                detail: 2200,
                darkness: 75_000,
                grain: 40_000,
                strength: 100_000,
            },
        ],
    }
}

fn make_pencil_sketch() -> (r: FilterPreset)
    ensures
        r@ == look_pencil_sketch(),
{
    let mut stack: Vec<FilterParams> = Vec::new();
    stack.push(FilterParams::Pencil { detail: 2200, darkness: 75_000, grain: 40_000, strength: 100_000 });
    let r = FilterPreset { name: "Pencil Sketch".to_owned(), stack };
    assert(r@.stack =~= look_pencil_sketch().stack);
    r
}

pub open spec fn look_cinematic() -> Look {
    Look {
        name: "Cinematic"@,
        stack: seq![
            FilterParams::ColorBalance {
                cyan_red: 6000,
                magenta_green: (-6000) as i32,
                yellow_blue: (-12_000) as i32,
            },
            FilterParams::BrightnessContrast { brightness: (-4000) as i32, contrast: 12_000 },
            FilterParams::FilmGrain {
                amount: 22_000,
                size: 1000,
                roughness: 30_000,
                monochrome: true,
                shadow_bias: 25_000,
            },
            FilterParams::Vignette {
                shape: VignetteShape::Ellipse,
                amount: 38_000,
                softness: 55_000,
                roundness: 30_000,
                color: rgb(0, 0, 0),
            },
            FilterParams::Unsharp { amount: 20_000, radius: 700 },
        ],
    }
}

fn make_cinematic() -> (r: FilterPreset)
    ensures
        r@ == look_cinematic(),
{
    let mut stack: Vec<FilterParams> = Vec::new();
    stack.push(FilterParams::ColorBalance { cyan_red: 6000, magenta_green: -6000, yellow_blue: -12_000 });
    stack.push(FilterParams::BrightnessContrast { brightness: -4000, contrast: 12_000 });
    stack.push(FilterParams::FilmGrain {
        amount: 22_000,
        size: 1000,
        roughness: 30_000,
        monochrome: true,
        shadow_bias: 25_000,
    });
    stack.push(FilterParams::Vignette {
        shape: VignetteShape::Ellipse,
        amount: 38_000,
        softness: 55_000,
        roundness: 30_000,
        color: rgb(0, 0, 0),
    });
    stack.push(FilterParams::Unsharp { amount: 20_000, radius: 700 });
    let r = FilterPreset { name: "Cinematic".to_owned(), stack };
    assert(r@.stack =~= look_cinematic().stack);
    r
}

pub open spec fn look_polaroid_fade() -> Look {
    Look {
        name: "Polaroid Fade"@,
        stack: seq![
            FilterParams::HueSaturation {
                hue: 12_000,
                saturation: (-18_000) as i32,
                lightness: 8000,
                colorize: false,
            },
            FilterParams::Sepia { amount: 25_000, warmth: 45_000 },
            FilterParams::Vignette {
                shape: VignetteShape::Circle,
                amount: 30_000,
                softness: 65_000,
                roundness: 50_000,
                color: rgb(50, 40, 30),
            },
            FilterParams::FilmGrain {
                amount: 18_000,
                size: 1600,
                roughness: 25_000,
                monochrome: true,
                shadow_bias: 10_000,
            },
        ],
    }
}

fn make_polaroid_fade() -> (r: FilterPreset)
    ensures
        r@ == look_polaroid_fade(),
{
    let mut stack: Vec<FilterParams> = Vec::new();
    stack.push(FilterParams::HueSaturation {
        hue: 12_000,
        saturation: -18_000,
        lightness: 8000,
        colorize: false,
    });
    stack.push(FilterParams::Sepia { amount: 25_000, warmth: 45_000 });
    stack.push(FilterParams::Vignette {
        shape: VignetteShape::Circle,
        amount: 30_000,
        softness: 65_000,
        roundness: 50_000,
        color: rgb(50, 40, 30),
    });
    stack.push(FilterParams::FilmGrain {
        amount: 18_000,
        size: 1600,
        roughness: 25_000,
        monochrome: true,
        shadow_bias: 10_000,
    });
    let r = FilterPreset { name: "Polaroid Fade".to_owned(), stack };
    assert(r@.stack =~= look_polaroid_fade().stack);
    r
}

pub open spec fn look_cyberpunk() -> Look {
    Look {
        name: "Cyberpunk"@,
        stack: seq![
            FilterParams::HueSaturation {
                hue: (-18_000) as i32,
                saturation: 35_000,
                lightness: (-5000) as i32,
                colorize: false,
            },
            FilterParams::ChromaticAberration {
                mode: ChromaMode::Radial,
                amount: 5000,
                angle: 0,
                center_atten: 40_000,
                red_scale: 1200,
                blue_scale: 1300,
            },
            FilterParams::NeonGlow {
                radius: 8000,
                intensity: 70_000,
                threshold: 45_000,
                color: rgb(255, 60, 180),
                core: 30_000,
            },
            FilterParams::Vignette {
                shape: VignetteShape::Ellipse,
                amount: 42_000,
                softness: 50_000,
                roundness: 35_000,
                color: rgb(10, 0, 30),
            },
        ],
    }
}

fn make_cyberpunk() -> (r: FilterPreset)
    ensures
        r@ == look_cyberpunk(),
{
    let mut stack: Vec<FilterParams> = Vec::new();
    stack.push(FilterParams::HueSaturation {
        hue: -18_000,
        saturation: 35_000,
        lightness: -5000,
        colorize: false,
    });
    stack.push(FilterParams::ChromaticAberration {
        mode: ChromaMode::Radial,
        amount: 5000,
        angle: 0,
        center_atten: 40_000,
        red_scale: 1200,
        blue_scale: 1300,
    });
    stack.push(FilterParams::NeonGlow {
        radius: 8000,
        intensity: 70_000,
        threshold: 45_000,
        color: rgb(255, 60, 180),
        core: 30_000,
    });
    stack.push(FilterParams::Vignette {
        shape: VignetteShape::Ellipse,
        amount: 42_000,
        softness: 50_000,
        roundness: 35_000,
        color: rgb(10, 0, 30),
    });
    let r = FilterPreset { name: "Cyberpunk".to_owned(), stack };
    assert(r@.stack =~= look_cyberpunk().stack);
    r
}

pub open spec fn look_vintage_film() -> Look {
    Look {
        name: "Vintage Film"@,
        stack: seq![
            FilterParams::Sepia { amount: 55_000, warmth: 60_000 },
            FilterParams::FilmGrain {
                amount: 38_000,
                size: 1200,
                roughness: 40_000,
                monochrome: true,
                shadow_bias: 35_000,
            },
            FilterParams::Vignette {
                shape: VignetteShape::Circle,
                amount: 45_000,
                softness: 55_000,
                roundness: 50_000,
                color: rgb(30, 18, 8),
            },
            FilterParams::ColorBalance {
                cyan_red: 8000,
                magenta_green: (-4000) as i32,
                yellow_blue: (-10_000) as i32,
            },
        ],
    }
}

fn make_vintage_film() -> (r: FilterPreset)
    ensures
        r@ == look_vintage_film(),
{
    let mut stack: Vec<FilterParams> = Vec::new();
    stack.push(FilterParams::Sepia { amount: 55_000, warmth: 60_000 });
    stack.push(FilterParams::FilmGrain {
        amount: 38_000,
        size: 1200,
        roughness: 40_000,
        monochrome: true,
        shadow_bias: 35_000,
    });
    stack.push(FilterParams::Vignette {
        shape: VignetteShape::Circle,
        amount: 45_000,
        softness: 55_000,
        roundness: 50_000,
        color: rgb(30, 18, 8),
    });
    stack.push(FilterParams::ColorBalance { cyan_red: 8000, magenta_green: -4000, yellow_blue: -10_000 });
    let r = FilterPreset { name: "Vintage Film".to_owned(), stack };
    assert(r@.stack =~= look_vintage_film().stack);
    r
}

pub open spec fn look_bleach_bypass() -> Look {
    Look {
        name: "Bleach Bypass"@,
        stack: seq![
            FilterParams::HueSaturation {
                hue: 0,
                saturation: (-45_000) as i32,
                lightness: 0,
                colorize: false,
            },
            FilterParams::BrightnessContrast { brightness: 6000, contrast: 28_000 },
            FilterParams::Unsharp { amount: 35_000, radius: 900 },
            FilterParams::FilmGrain {
                amount: 18_000,
                size: 900,
                roughness: 25_000,
                monochrome: true,
                shadow_bias: 15_000,
            },
        ],
    }
}

fn make_bleach_bypass() -> (r: FilterPreset)
    ensures
        r@ == look_bleach_bypass(),
{
    let mut stack: Vec<FilterParams> = Vec::new();
    stack.push(FilterParams::HueSaturation { hue: 0, saturation: -45_000, lightness: 0, colorize: false });
    stack.push(FilterParams::BrightnessContrast { brightness: 6000, contrast: 28_000 });
    stack.push(FilterParams::Unsharp { amount: 35_000, radius: 900 });
    stack.push(FilterParams::FilmGrain {
        amount: 18_000,
        size: 900,
        roughness: 25_000,
        monochrome: true,
        shadow_bias: 15_000,
    });
    let r = FilterPreset { name: "Bleach Bypass".to_owned(), stack };
    assert(r@.stack =~= look_bleach_bypass().stack);
    r
}

pub open spec fn look_noirish() -> Look {
    Look {
        name: "Noirish"@,
        stack: seq![
            FilterParams::HueSaturation {
                hue: 0,
                saturation: (-100_000) as i32,
                lightness: 0,
                colorize: false,
            },
            levels(20_000, 420, 230_000),
            FilterParams::Vignette {
                shape: VignetteShape::Ellipse,
                amount: 55_000,
                softness: 45_000,
                roundness: 35_000,
                color: rgb(0, 0, 0),
            },
            FilterParams::FilmGrain {
                amount: 25_000,
                size: 1200,
                roughness: 40_000,
                monochrome: true,
                shadow_bias: 40_000,
            },
        ],
    }
}

fn make_noirish() -> (r: FilterPreset)
    ensures
        r@ == look_noirish(),
{
    let mut stack: Vec<FilterParams> = Vec::new();
    stack.push(FilterParams::HueSaturation {
        hue: 0,
        saturation: -100_000,
        lightness: 0,
        colorize: false,
    });
    stack.push(levels(20_000, 420, 230_000));
    stack.push(FilterParams::Vignette {
        shape: VignetteShape::Ellipse,
        amount: 55_000,
        softness: 45_000,
        roundness: 35_000,
        color: rgb(0, 0, 0),
    });
    stack.push(FilterParams::FilmGrain {
        amount: 25_000,
        size: 1200,
        roughness: 40_000,
        monochrome: true,
        shadow_bias: 40_000,
    });
    let r = FilterPreset { name: "Noirish".to_owned(), stack };
    assert(r@.stack =~= look_noirish().stack);
    r
}

pub open spec fn look_sunset_gradient() -> Look {
    Look {
        name: "Sunset Gradient"@,
        stack: seq![
            FilterParams::Gradient {
                shape: GradientShape::Linear,
                angle: 100_000,
                spread: 120_000,
                center_x: 50_000,
                center_y: 55_000,
                color_a: rgb(255, 140, 60),
                color_b: rgb(90, 30, 120),
                opacity_a: 90_000,
                opacity_b: 80_000,
                amount: 60_000,
                blend: BlendMode::SoftLight,
                reverse: false,
            },
            FilterParams::Vignette {
                shape: VignetteShape::Ellipse,
                amount: 35_000,
                softness: 55_000,
                roundness: 40_000,
                color: rgb(40, 10, 30),
            },
        ],
    }
}

fn make_sunset_gradient() -> (r: FilterPreset)
    ensures
        r@ == look_sunset_gradient(),
{
    let mut stack: Vec<FilterParams> = Vec::new();
    stack.push(FilterParams::Gradient {
        shape: GradientShape::Linear,
        angle: 100_000,
        spread: 120_000,
        center_x: 50_000,
        center_y: 55_000,
        color_a: rgb(255, 140, 60),
        color_b: rgb(90, 30, 120),
        opacity_a: 90_000,
        opacity_b: 80_000,
        amount: 60_000,
        blend: BlendMode::SoftLight,
        reverse: false,
    });
    stack.push(FilterParams::Vignette {
        shape: VignetteShape::Ellipse,
        amount: 35_000,
        softness: 55_000,
        roundness: 40_000,
        color: rgb(40, 10, 30),
    });
    let r = FilterPreset { name: "Sunset Gradient".to_owned(), stack };
    assert(r@.stack =~= look_sunset_gradient().stack);
    r
}

pub open spec fn look_teal_orange_grade() -> Look {
    Look {
        name: "Teal–Orange Grade"@,
        stack: seq![
            FilterParams::Gradient {
                shape: GradientShape::Linear,
                angle: 0,
                spread: 100_000,
                center_x: 50_000,
                center_y: 50_000,
                color_a: rgb(20, 160, 180),
                color_b: rgb(220, 110, 40),
                opacity_a: 70_000,
                opacity_b: 70_000,
                amount: 45_000,
                blend: BlendMode::Overlay,
                reverse: false,
            },
            levels(8000, 950, 248_000),
        ],
    }
}

fn make_teal_orange_grade() -> (r: FilterPreset)
    ensures
        r@ == look_teal_orange_grade(),
{
    let mut stack: Vec<FilterParams> = Vec::new();
    stack.push(FilterParams::Gradient {
        shape: GradientShape::Linear,
        angle: 0,
        spread: 100_000,
        center_x: 50_000,
        center_y: 50_000,
        color_a: rgb(20, 160, 180),
        color_b: rgb(220, 110, 40),
        opacity_a: 70_000,
        opacity_b: 70_000,
        amount: 45_000,
        blend: BlendMode::Overlay,
        reverse: false,
    });
    stack.push(levels(8000, 950, 248_000));
    let r = FilterPreset { name: "Teal–Orange Grade".to_owned(), stack };
    assert(r@.stack =~= look_teal_orange_grade().stack);
    r
}

pub open spec fn look_radial_glow_wash() -> Look {
    Look {
        name: "Radial Glow Wash"@,
        stack: seq![
            FilterParams::Gradient {
                shape: GradientShape::Radial,
                angle: 0,
                spread: 90_000,
                center_x: 50_000,
                center_y: 40_000,
                color_a: rgb(255, 230, 180),
                color_b: rgb(20, 10, 40),
                opacity_a: 55_000,
                opacity_b: 0,
                amount: 70_000,
                blend: BlendMode::Screen,
                reverse: false,
            },
            FilterParams::Glow {
                radius: 8000,
                intensity: 35_000,
                tint: true,
                color: rgb(255, 200, 140),
            },
        ],
    }
}

fn make_radial_glow_wash() -> (r: FilterPreset)
    ensures
        r@ == look_radial_glow_wash(),
{
    let mut stack: Vec<FilterParams> = Vec::new();
    stack.push(FilterParams::Gradient {
        shape: GradientShape::Radial,
        angle: 0,
        spread: 90_000,
        center_x: 50_000,
        center_y: 40_000,
        color_a: rgb(255, 230, 180),
        color_b: rgb(20, 10, 40),
        opacity_a: 55_000,
        opacity_b: 0,
        amount: 70_000,
        blend: BlendMode::Screen,
        reverse: false,
    });
    stack.push(FilterParams::Glow {
        radius: 8000,
        intensity: 35_000,
        tint: true,
        color: rgb(255, 200, 140),
    });
    let r = FilterPreset { name: "Radial Glow Wash".to_owned(), stack };
    assert(r@.stack =~= look_radial_glow_wash().stack);
    r
}

pub open spec fn look_duotone_night() -> Look {
    Look {
        name: "Duotone Night"@,
        stack: seq![
            FilterParams::HueSaturation {
                hue: 0,
                saturation: (-100_000) as i32,
                lightness: 0,
                colorize: false,
            },
            FilterParams::Gradient {
                shape: GradientShape::Linear,
                angle: 90_000,
                spread: 110_000,
                center_x: 50_000,
                center_y: 50_000,
                color_a: rgb(10, 20, 80),
                color_b: rgb(255, 90, 40),
                opacity_a: 100_000,
                opacity_b: 100_000,
                amount: 75_000,
                blend: BlendMode::Color,
                reverse: false,
            },
            FilterParams::Vignette {
                shape: VignetteShape::Ellipse,
                amount: 40_000,
                softness: 50_000,
                roundness: 35_000,
                color: rgb(0, 0, 0),
            },
        ],
    }
}

fn make_duotone_night() -> (r: FilterPreset)
    ensures
        r@ == look_duotone_night(),
{
    let mut stack: Vec<FilterParams> = Vec::new();
    stack.push(FilterParams::HueSaturation {
        hue: 0,
        saturation: -100_000,
        lightness: 0,
        colorize: false,
    });
    stack.push(FilterParams::Gradient {
        shape: GradientShape::Linear,
        angle: 90_000,
        spread: 110_000,
        center_x: 50_000,
        center_y: 50_000,
        color_a: rgb(10, 20, 80),
        color_b: rgb(255, 90, 40),
        opacity_a: 100_000,
        opacity_b: 100_000,
        amount: 75_000,
        blend: BlendMode::Color,
        reverse: false,
    });
    stack.push(FilterParams::Vignette {
        shape: VignetteShape::Ellipse,
        amount: 40_000,
        softness: 50_000,
        roundness: 35_000,
        color: rgb(0, 0, 0),
    });
    let r = FilterPreset { name: "Duotone Night".to_owned(), stack };
    assert(r@.stack =~= look_duotone_night().stack);
    r
}

pub open spec fn look_candy_pop() -> Look {
    Look {
        name: "Candy Pop"@,
        stack: seq![
            FilterParams::Posterize { levels: 7 },
            FilterParams::Outline {
                thickness: 2000,
                threshold: 30_000,
                softness: 20_000,
                color: rgb(30, 10, 50),
                opacity: 90_000,
                mode: OutlineMode::Outer,
                use_luma: false,
            },
            FilterParams::Gradient {
                shape: GradientShape::Angle,
                angle: 35_000,
                spread: 100_000,
                center_x: 50_000,
                center_y: 50_000,
                color_a: rgb(255, 80, 180),
                color_b: rgb(80, 200, 255),
                opacity_a: 50_000,
                opacity_b: 50_000,
                amount: 40_000,
                blend: BlendMode::SoftLight,
                reverse: false,
            },
        ],
    }
}

fn make_candy_pop() -> (r: FilterPreset)
    ensures
        r@ == look_candy_pop(),
{
    let mut stack: Vec<FilterParams> = Vec::new();
    stack.push(FilterParams::Posterize { levels: 7 });
    stack.push(FilterParams::Outline {
        thickness: 2000,
        threshold: 30_000,
        softness: 20_000,
        color: rgb(30, 10, 50),
        opacity: 90_000,
        mode: OutlineMode::Outer,
        use_luma: false,
    });
    stack.push(FilterParams::Gradient {
        shape: GradientShape::Angle,
        angle: 35_000,
        spread: 100_000,
        center_x: 50_000,
        center_y: 50_000,
        color_a: rgb(255, 80, 180),
        color_b: rgb(80, 200, 255),
        opacity_a: 50_000,
        opacity_b: 50_000,
        amount: 40_000,
        blend: BlendMode::SoftLight,
        reverse: false,
    });
    let r = FilterPreset { name: "Candy Pop".to_owned(), stack };
    assert(r@.stack =~= look_candy_pop().stack);
    r
}

pub open spec fn look_golden_hour() -> Look {
    Look {
        name: "Golden Hour"@,
        stack: seq![
            FilterParams::ColorBalance {
                cyan_red: 14_000,
                magenta_green: 4000,
                yellow_blue: (-12_000) as i32,
            },
            FilterParams::Gradient {
                shape: GradientShape::Linear,
                angle: 110_000,
                spread: 130_000,
                center_x: 50_000,
                center_y: 60_000,
                color_a: rgb(255, 190, 90),
                color_b: rgb(40, 60, 120),
                opacity_a: 45_000,
                opacity_b: 35_000,
                amount: 50_000,
                blend: BlendMode::SoftLight,
                reverse: false,
            },
            FilterParams::Vignette {
                shape: VignetteShape::Ellipse,
                amount: 28_000,
                softness: 60_000,
                roundness: 40_000,
                color: rgb(30, 15, 5),
            },
        ],
    }
}

fn make_golden_hour() -> (r: FilterPreset)
    ensures
        r@ == look_golden_hour(),
{
    let mut stack: Vec<FilterParams> = Vec::new();
    stack.push(FilterParams::ColorBalance { cyan_red: 14_000, magenta_green: 4000, yellow_blue: -12_000 });
    stack.push(FilterParams::Gradient {
        shape: GradientShape::Linear,
        angle: 110_000,
        spread: 130_000,
        center_x: 50_000,
        center_y: 60_000,
        color_a: rgb(255, 190, 90),
        color_b: rgb(40, 60, 120),
        opacity_a: 45_000,
        opacity_b: 35_000,
        amount: 50_000,
        blend: BlendMode::SoftLight,
        reverse: false,
    });
    stack.push(FilterParams::Vignette {
        shape: VignetteShape::Ellipse,
        amount: 28_000,
        softness: 60_000,
        roundness: 40_000,
        color: rgb(30, 15, 5),
    });
    let r = FilterPreset { name: "Golden Hour".to_owned(), stack };
    assert(r@.stack =~= look_golden_hour().stack);
    r
}

pub open spec fn look_clean_outline() -> Look {
    Look {
        name: "Clean Outline"@,
        stack: seq![
            FilterParams::Outline {
                thickness: 2500,
                threshold: 25_000,
                softness: 35_000,
                color: rgb(0, 0, 0),
                opacity: 100_000,
                mode: OutlineMode::Outer,
                use_luma: false,
            },
        ],
    }
}

fn make_clean_outline() -> (r: FilterPreset)
    ensures
        r@ == look_clean_outline(),
{
    let mut stack: Vec<FilterParams> = Vec::new();
    stack.push(FilterParams::Outline {
        thickness: 2500,
        threshold: 25_000,
        softness: 35_000,
        color: rgb(0, 0, 0),
        opacity: 100_000,
        mode: OutlineMode::Outer,
        use_luma: false,
    });
    let r = FilterPreset { name: "Clean Outline".to_owned(), stack };
    assert(r@.stack =~= look_clean_outline().stack);
    r
}

/// The looks that come with the studio, in the order they are offered.
pub open spec fn builtin_looks() -> Seq<Look> {
    seq![
        look_cel_outline_fun(),
        look_tape_glitch_fun(),
        look_old_anime(),
        look_vhs(),
        look_worn_rental_vhs(),
        look_glitch(),
        look_crt_screen(),
        look_camcorder_90s(),
        look_neon_night(),
        look_soft_dream(),
        look_comic_print(),
        look_newspaper(),
        look_oil_painting(),
        look_watercolor_wash(),
        look_pencil_sketch(),
        look_cinematic(),
        look_polaroid_fade(),
        look_cyberpunk(),
        look_vintage_film(),
        look_bleach_bypass(),
        look_noirish(),
        look_sunset_gradient(),
        look_teal_orange_grade(),
        look_radial_glow_wash(),
        look_duotone_night(),
        look_candy_pop(),
        look_golden_hour(),
        look_clean_outline(),
    ]
}

/// The presets that come with the studio.
pub fn builtin_filter_presets() -> (r: Vec<FilterPreset>)
    ensures
        r@.map_values(|p: FilterPreset| p@) == builtin_looks(),
{
    let mut out: Vec<FilterPreset> = Vec::new();
    out.push(make_cel_outline_fun());
    out.push(make_tape_glitch_fun());
    out.push(make_old_anime());
    out.push(make_vhs());
    out.push(make_worn_rental_vhs());
    out.push(make_glitch());
    out.push(make_crt_screen());
    out.push(make_camcorder_90s());
    out.push(make_neon_night());
    out.push(make_soft_dream());
    out.push(make_comic_print());
    out.push(make_newspaper());
    out.push(make_oil_painting());
    out.push(make_watercolor_wash());
    out.push(make_pencil_sketch());
    out.push(make_cinematic());
    out.push(make_polaroid_fade());
    out.push(make_cyberpunk());
    out.push(make_vintage_film());
    out.push(make_bleach_bypass());
    out.push(make_noirish());
    out.push(make_sunset_gradient());
    out.push(make_teal_orange_grade());
    out.push(make_radial_glow_wash());
    out.push(make_duotone_night());
    out.push(make_candy_pop());
    out.push(make_golden_hour());
    out.push(make_clean_outline());
    assert(out@.map_values(|p: FilterPreset| p@) =~= builtin_looks());
    out
}

} // verus!
