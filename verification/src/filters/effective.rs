//! The parameters that a filter is run with: settings kept in working range,
//! and advanced settings that count only while they are unfolded.
use vstd::prelude::*;
use crate::filters::params::FilterParams;
use crate::numbers::{single_of, through_single};

verus! {

/// The widest blur that is run.
pub const MAX_BLUR: i32 = 1_024_000;

pub open spec fn spec_min(x: i32, hi: i32) -> i32 {
    if x > hi {
        hi
    } else {
        x
    }
}

pub open spec fn spec_max(x: i32, lo: i32) -> i32 {
    if x < lo {
        lo
    } else {
        x
    }
}

fn at_most(x: i32, hi: i32) -> (r: i32)
    ensures
        r == spec_min(x, hi),
{
    if x > hi {
        hi
    } else {
        x
    }
}

fn at_least(x: i32, lo: i32) -> (r: i32)
    ensures
        r == spec_max(x, lo),
{
    if x < lo {
        lo
    } else {
        x
    }
}

/// A cell size as it is run: through single precision, and no smaller than
/// `lo`.
pub open spec fn cells(size: u32, lo: u32) -> u32 {
    if through_single(size) < lo {
        lo
    } else {
        through_single(size)
    }
}

fn cells_of(size: u32, lo: u32) -> (r: u32)
    ensures
        r == cells(size, lo),
{
    let n: u32 = single_of(size);
    if n < lo {
        lo
    } else {
        n
    }
}

impl FilterParams {
    /// The parameters that the filter is run with.
    pub open spec fn effective(self, advanced_open: bool) -> FilterParams {
        match self {
            FilterParams::Gaussian { radius } => FilterParams::Gaussian {
                radius: spec_min(radius, MAX_BLUR),
            },
            FilterParams::Motion { length, angle } => FilterParams::Motion {
                length: spec_min(length, MAX_BLUR),
                angle,
            },
            FilterParams::Radial { amount, zoom_mode } => FilterParams::Radial {
                amount: spec_min(amount, MAX_BLUR),
                zoom_mode,
            },
            FilterParams::Unsharp { amount, radius } => FilterParams::Unsharp {
                amount,
                radius: spec_min(radius, MAX_BLUR),
            },
            FilterParams::Pixelize { method, block, soft_amount } => FilterParams::Pixelize {
                method,
                block: cells(block, 1),
                soft_amount,
            },
            FilterParams::HexPixelize { size } => FilterParams::HexPixelize {
                size: cells(size, 2),
            },
            FilterParams::TriPixelize { size } => FilterParams::TriPixelize {
                size: cells(size, 2),
            },
            FilterParams::HexDots { size, fill_pct, soft_edge } => FilterParams::HexDots {
                size: cells(size, 2),
                fill_pct,
                soft_edge,
            },
            FilterParams::Crystallize { size } => FilterParams::Crystallize {
                size: cells(size, 2),
            },
            FilterParams::Pointillize { size, density, bg } => FilterParams::Pointillize {
                size: cells(size, 2),
                density,
                bg,
            },
            FilterParams::ColorHalftone {
                size,
                angle,
                mode,
                paper,
                bg,
                strength,
                softness,
                contrast,
                angle_c,
                angle_m,
                angle_y,
                angle_k,
            } => FilterParams::ColorHalftone {
                size: cells(size, 2),
                angle,
                mode,
                paper,
                bg,
                strength,
                softness,
                contrast,
                angle_c,
                angle_m,
                angle_y,
                angle_k,
            },
            FilterParams::ChromaticAberration {
                mode,
                amount,
                angle,
                center_atten,
                red_scale,
                blue_scale,
            } => FilterParams::ChromaticAberration {
                mode,
                amount,
                angle,
                center_atten: if advanced_open {
                    center_atten
                } else {
                    55_000
                },
                red_scale: if advanced_open {
                    red_scale
                } else {
                    1000
                },
                blue_scale: if advanced_open {
                    blue_scale
                } else {
                    1000
                },
            },
            FilterParams::Glow { radius, intensity, tint, color } => FilterParams::Glow {
                radius: spec_min(radius, MAX_BLUR),
                intensity,
                tint,
                color,
            },
            FilterParams::FilmGrain { amount, size, roughness, monochrome, shadow_bias } => {
                FilterParams::FilmGrain {
                    amount,
                    size: spec_max(size, 250),
                    roughness,
                    monochrome,
                    shadow_bias,
                }
            },
            FilterParams::Dither {
                method,
                levels,
                amount,
                serpentine,
                pattern_size,
                monochrome,
            } => FilterParams::Dither {
                method,
                levels,
                amount,
                serpentine,
                pattern_size: spec_max(pattern_size, 250),
                monochrome,
            },
            FilterParams::Outline {
                thickness,
                threshold,
                softness,
                color,
                opacity,
                mode,
                use_luma,
            } => FilterParams::Outline {
                thickness: spec_max(thickness, 500),
                threshold,
                softness,
                color,
                opacity,
                mode,
                use_luma,
            },
            FilterParams::OilPaint { radius, levels, strength } => FilterParams::OilPaint {
                radius: spec_max(radius, 1000),
                levels,
                strength,
            },
            FilterParams::Watercolor { blur, bleed, edge, saturation, strength } => {
                FilterParams::Watercolor {
                    blur: spec_max(blur, 500),
                    bleed,
                    edge,
                    saturation,
                    strength,
                }
            },
            FilterParams::Pencil { detail, darkness, grain, strength } => FilterParams::Pencil {
                detail: spec_max(detail, 500),
                darkness,
                grain,
                strength,
            },
            FilterParams::Pastel { softness, chalk, lighten, strength } => FilterParams::Pastel {
                softness: spec_max(softness, 0),
                chalk,
                lighten,
                strength,
            },
            FilterParams::PaperTexture { amount, scale, roughness, warm } => {
                FilterParams::PaperTexture {
                    amount,
                    scale: spec_max(scale, 500),
                    roughness,
                    warm,
                }
            },
            FilterParams::NeonGlow { radius, intensity, threshold, color, core } => {
                FilterParams::NeonGlow {
                    radius: spec_min(radius, MAX_BLUR),
                    intensity,
                    threshold,
                    color,
                    core,
                }
            },
            FilterParams::LightRays { amount, length, center_x, center_y, decay, tint, color } => {
                FilterParams::LightRays {
                    amount,
                    length: spec_max(length, 4000),
                    center_x,
                    center_y,
                    decay,
                    tint,
                    color,
                }
            },
            FilterParams::LensFlare { amount, center_x, center_y, size, streak, color } => {
                FilterParams::LensFlare {
                    amount,
                    center_x,
                    center_y,
                    size: spec_max(size, 4000),
                    streak,
                    color,
                }
            },
            FilterParams::DropShadow { angle, distance, blur, opacity, color } => {
                FilterParams::DropShadow {
                    angle,
                    distance,
                    blur: spec_max(blur, 0),
                    opacity,
                    color,
                }
            },
            FilterParams::BevelEmboss { depth, soft, angle, elevation, mode, strength } => {
                FilterParams::BevelEmboss {
                    depth,
                    soft: spec_max(soft, 0),
                    angle,
                    elevation,
                    mode,
                    strength,
                }
            },
            FilterParams::Scanlines { spacing, thickness, opacity, color, vertical, soft } => {
                FilterParams::Scanlines {
                    spacing: spec_max(spacing, 1000),
                    thickness: spec_max(thickness, 100),
                    opacity,
                    color,
                    vertical,
                    soft,
                }
            },
            FilterParams::LiquidGlass {
                mode,
                radius,
                center_x,
                center_y,
                spacing,
                angle,
                refraction,
                specular,
                rim,
                softness,
                chroma,
                tint,
                tint_amount,
            } => FilterParams::LiquidGlass {
                mode,
                radius,
                center_x,
                center_y,
                spacing: spec_max(spacing, 2000),
                angle,
                refraction,
                specular,
                rim,
                softness,
                chroma,
                tint,
                tint_amount,
            },
            _ => self,
        }
    }

    /// The parameters to run the filter with.
    pub fn to_run(&self, advanced_open: bool) -> (r: FilterParams)
        ensures
            self.effective(advanced_open).same(r),
            (*self matches FilterParams::Gaussian { radius } ==> r matches FilterParams::Gaussian {
                radius: run,
            } && run <= radius && run <= 1_024_000 && (run == radius || run == 1_024_000)),
    {
        match self {
            FilterParams::Gaussian { radius } => FilterParams::Gaussian {
                radius: at_most(*radius, MAX_BLUR),
            },
            FilterParams::Motion { length, angle } => FilterParams::Motion {
                length: at_most(*length, MAX_BLUR),
                angle: *angle,
            },
            FilterParams::Radial { amount, zoom_mode } => FilterParams::Radial {
                amount: at_most(*amount, MAX_BLUR),
                zoom_mode: *zoom_mode,
            },
            FilterParams::Unsharp { amount, radius } => FilterParams::Unsharp {
                amount: *amount,
                radius: at_most(*radius, MAX_BLUR),
            },
            FilterParams::Pixelize { method, block, soft_amount } => FilterParams::Pixelize {
                method: *method,
                block: cells_of(*block, 1),
                soft_amount: *soft_amount,
            },
            FilterParams::HexPixelize { size } => FilterParams::HexPixelize {
                size: cells_of(*size, 2),
            },
            FilterParams::TriPixelize { size } => FilterParams::TriPixelize {
                size: cells_of(*size, 2),
            },
            FilterParams::HexDots { size, fill_pct, soft_edge } => FilterParams::HexDots {
                size: cells_of(*size, 2),
                fill_pct: *fill_pct,
                soft_edge: *soft_edge,
            },
            FilterParams::Crystallize { size } => FilterParams::Crystallize {
                size: cells_of(*size, 2),
            },
            FilterParams::Pointillize { size, density, bg } => FilterParams::Pointillize {
                size: cells_of(*size, 2),
                density: *density,
                bg: *bg,
            },
            FilterParams::ColorHalftone {
                size,
                angle,
                mode,
                paper,
                bg,
                strength,
                softness,
                contrast,
                angle_c,
                angle_m,
                angle_y,
                angle_k,
            } => FilterParams::ColorHalftone {
                size: cells_of(*size, 2),
                angle: *angle,
                mode: *mode,
                paper: *paper,
                bg: *bg,
                strength: *strength,
                softness: *softness,
                contrast: *contrast,
                angle_c: *angle_c,
                angle_m: *angle_m,
                angle_y: *angle_y,
                angle_k: *angle_k,
            },
            FilterParams::ChromaticAberration {
                mode,
                amount,
                angle,
                center_atten,
                red_scale,
                blue_scale,
            } => FilterParams::ChromaticAberration {
                mode: *mode,
                amount: *amount,
                angle: *angle,
                center_atten: if advanced_open {
                    *center_atten
                } else {
                    55_000
                },
                red_scale: if advanced_open {
                    *red_scale
                } else {
                    1000
                },
                blue_scale: if advanced_open {
                    *blue_scale
                } else {
                    1000
                },
            },
            FilterParams::Glow { radius, intensity, tint, color } => FilterParams::Glow {
                radius: at_most(*radius, MAX_BLUR),
                intensity: *intensity,
                tint: *tint,
                color: *color,
            },
            FilterParams::FilmGrain { amount, size, roughness, monochrome, shadow_bias } => {
                FilterParams::FilmGrain {
                    amount: *amount,
                    size: at_least(*size, 250),
                    roughness: *roughness,
                    monochrome: *monochrome,
                    shadow_bias: *shadow_bias,
                }
            },
            FilterParams::Dither {
                method,
                levels,
                amount,
                serpentine,
                pattern_size,
                monochrome,
            } => FilterParams::Dither {
                method: *method,
                levels: *levels,
                amount: *amount,
                serpentine: *serpentine,
                pattern_size: at_least(*pattern_size, 250),
                monochrome: *monochrome,
            },
            FilterParams::Outline {
                thickness,
                threshold,
                softness,
                color,
                opacity,
                mode,
                use_luma,
            } => FilterParams::Outline {
                thickness: at_least(*thickness, 500),
                threshold: *threshold,
                softness: *softness,
                color: *color,
                opacity: *opacity,
                mode: *mode,
                use_luma: *use_luma,
            },
            FilterParams::OilPaint { radius, levels, strength } => FilterParams::OilPaint {
                radius: at_least(*radius, 1000),
                levels: *levels,
                strength: *strength,
            },
            FilterParams::Watercolor { blur, bleed, edge, saturation, strength } => {
                FilterParams::Watercolor {
                    blur: at_least(*blur, 500),
                    bleed: *bleed,
                    edge: *edge,
                    saturation: *saturation,
                    strength: *strength,
                }
            },
            FilterParams::Pencil { detail, darkness, grain, strength } => FilterParams::Pencil {
                detail: at_least(*detail, 500),
                darkness: *darkness,
                grain: *grain,
                strength: *strength,
            },
            FilterParams::Pastel { softness, chalk, lighten, strength } => FilterParams::Pastel {
                softness: at_least(*softness, 0),
                chalk: *chalk,
                lighten: *lighten,
                strength: *strength,
            },
            FilterParams::PaperTexture { amount, scale, roughness, warm } => {
                FilterParams::PaperTexture {
                    amount: *amount,
                    scale: at_least(*scale, 500),
                    roughness: *roughness,
                    warm: *warm,
                }
            },
            FilterParams::NeonGlow { radius, intensity, threshold, color, core } => {
                FilterParams::NeonGlow {
                    radius: at_most(*radius, MAX_BLUR),
                    intensity: *intensity,
                    threshold: *threshold,
                    color: *color,
                    core: *core,
                }
            },
            FilterParams::LightRays { amount, length, center_x, center_y, decay, tint, color } => {
                FilterParams::LightRays {
                    amount: *amount,
                    length: at_least(*length, 4000),
                    center_x: *center_x,
                    center_y: *center_y,
                    decay: *decay,
                    tint: *tint,
                    color: *color,
                }
            },
            FilterParams::LensFlare { amount, center_x, center_y, size, streak, color } => {
                FilterParams::LensFlare {
                    amount: *amount,
                    center_x: *center_x,
                    center_y: *center_y,
                    size: at_least(*size, 4000),
                    streak: *streak,
                    color: *color,
                }
            },
            FilterParams::DropShadow { angle, distance, blur, opacity, color } => {
                FilterParams::DropShadow {
                    angle: *angle,
                    distance: *distance,
                    blur: at_least(*blur, 0),
                    opacity: *opacity,
                    color: *color,
                }
            },
            FilterParams::BevelEmboss { depth, soft, angle, elevation, mode, strength } => {
                FilterParams::BevelEmboss {
                    depth: *depth,
                    soft: at_least(*soft, 0),
                    angle: *angle,
                    elevation: *elevation,
                    mode: *mode,
                    strength: *strength,
                }
            },
            FilterParams::Scanlines { spacing, thickness, opacity, color, vertical, soft } => {
                FilterParams::Scanlines {
                    spacing: at_least(*spacing, 1000),
                    thickness: at_least(*thickness, 100),
                    opacity: *opacity,
                    color: *color,
                    vertical: *vertical,
                    soft: *soft,
                }
            },
            FilterParams::LiquidGlass {
                mode,
                radius,
                center_x,
                center_y,
                spacing,
                angle,
                refraction,
                specular,
                rim,
                softness,
                chroma,
                tint,
                tint_amount,
            } => FilterParams::LiquidGlass {
                mode: *mode,
                radius: *radius,
                center_x: *center_x,
                center_y: *center_y,
                spacing: at_least(*spacing, 2000),
                angle: *angle,
                refraction: *refraction,
                specular: *specular,
                rim: *rim,
                softness: *softness,
                chroma: *chroma,
                tint: *tint,
                tint_amount: *tint_amount,
            },
            _ => self.copy(),
        }
    }

    /// Whether running the filter does anything: an overlay needs its image.
    pub open spec fn spec_runs(self) -> bool {
        match self {
            FilterParams::ImageOverlay { rgba, .. } => rgba is Some,
            _ => true,
        }
    }

    pub fn runs(&self) -> (r: bool)
        ensures
            r == self.spec_runs(),
    {
        match self {
            FilterParams::ImageOverlay { rgba, .. } => rgba.is_some(),
            _ => true,
        }
    }
}

} // verus!
