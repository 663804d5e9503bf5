//! What running a filter may change of its settings.
use vstd::prelude::*;
use crate::filters::params::FilterParams;
use crate::numbers::{lemma_single_exact, through_single};

verus! {

proof fn lemma_cells(p: FilterParams)
    ensures
        p matches FilterParams::Pixelize { block, .. } ==> (block < 0x100_0000 ==> through_single(block) == block),
        p matches FilterParams::HexPixelize { size, .. } ==> (size < 0x100_0000 ==> through_single(size) == size),
        p matches FilterParams::TriPixelize { size, .. } ==> (size < 0x100_0000 ==> through_single(size) == size),
        p matches FilterParams::HexDots { size, .. } ==> (size < 0x100_0000 ==> through_single(size) == size),
        p matches FilterParams::Crystallize { size, .. } ==> (size < 0x100_0000 ==> through_single(size) == size),
        p matches FilterParams::Pointillize { size, .. } ==> (size < 0x100_0000 ==> through_single(size) == size),
        p matches FilterParams::ColorHalftone { size, .. } ==> (size < 0x100_0000 ==> through_single(size) == size),
{
    assert forall|n: u32| n < 0x100_0000 implies #[trigger] through_single(n) == n by {
        lemma_single_exact(n);
    }
}

/// A blur is run no wider than it is set and no wider than 1024 pixels, and as
/// wide as the one or the other; nothing else about it changes.
pub proof fn law_blur_is_run_no_wider(p: FilterParams, advanced_open: bool)
    ensures
        (p matches FilterParams::Gaussian {
                radius,
            } ==> p.effective(advanced_open) matches FilterParams::Gaussian {
                radius: radius_run,
            }
            && radius_run <= radius && radius_run <= 1_024_000 && (radius_run == radius || radius_run == 1_024_000)),
        (p matches FilterParams::Motion {
                length,
                angle,
            } ==> p.effective(advanced_open) matches FilterParams::Motion {
                length: length_run,
                angle: angle_run,
            }
            && length_run <= length && length_run <= 1_024_000 && (length_run == length || length_run == 1_024_000)
            && angle_run == angle),
        (p matches FilterParams::Radial {
                amount,
                zoom_mode,
            } ==> p.effective(advanced_open) matches FilterParams::Radial {
                amount: amount_run,
                zoom_mode: zoom_mode_run,
            }
            && amount_run <= amount && amount_run <= 1_024_000 && (amount_run == amount || amount_run == 1_024_000)
            && zoom_mode_run == zoom_mode),
        (p matches FilterParams::Unsharp {
                amount,
                radius,
            } ==> p.effective(advanced_open) matches FilterParams::Unsharp {
                amount: amount_run,
                radius: radius_run,
            }
            && radius_run <= radius && radius_run <= 1_024_000 && (radius_run == radius || radius_run == 1_024_000)
            && amount_run == amount),
        (p matches FilterParams::Glow {
                radius,
                intensity,
                tint,
                color,
            } ==> p.effective(advanced_open) matches FilterParams::Glow {
                radius: radius_run,
                intensity: intensity_run,
                tint: tint_run,
                color: color_run,
            }
            && radius_run <= radius && radius_run <= 1_024_000 && (radius_run == radius || radius_run == 1_024_000)
            && intensity_run == intensity
            && tint_run == tint
            && color_run == color),
        (p matches FilterParams::NeonGlow {
                radius,
                intensity,
                threshold,
                color,
                core,
            } ==> p.effective(advanced_open) matches FilterParams::NeonGlow {
                radius: radius_run,
                intensity: intensity_run,
                threshold: threshold_run,
                color: color_run,
                core: core_run,
            }
            && radius_run <= radius && radius_run <= 1_024_000 && (radius_run == radius || radius_run == 1_024_000)
            && intensity_run == intensity
            && threshold_run == threshold
            && color_run == color
            && core_run == core),
{
}

/// A setting that must not be too small is run no smaller than it is set and no
/// smaller than its least value, and at the one or the other; nothing else about
/// the filter changes.
pub proof fn law_small_setting_is_raised(p: FilterParams, advanced_open: bool)
    ensures
        (p matches FilterParams::FilmGrain {
                amount,
                size,
                roughness,
                monochrome,
                shadow_bias,
            } ==> p.effective(advanced_open) matches FilterParams::FilmGrain {
                amount: amount_run,
                size: size_run,
                roughness: roughness_run,
                monochrome: monochrome_run,
                shadow_bias: shadow_bias_run,
            }
            && size_run >= size && size_run >= 250 && (size_run == size || size_run == 250)
            && amount_run == amount
            && roughness_run == roughness
            && monochrome_run == monochrome
            && shadow_bias_run == shadow_bias),
        (p matches FilterParams::Dither {
                method,
                levels,
                amount,
                serpentine,
                pattern_size,
                monochrome,
            } ==> p.effective(advanced_open) matches FilterParams::Dither {
                method: method_run,
                levels: levels_run,
                amount: amount_run,
                serpentine: serpentine_run,
                pattern_size: pattern_size_run,
                monochrome: monochrome_run,
            }
            && pattern_size_run >= pattern_size && pattern_size_run >= 250 && (pattern_size_run == pattern_size || pattern_size_run == 250)
            && method_run == method
            && levels_run == levels
            && amount_run == amount
            && serpentine_run == serpentine
            && monochrome_run == monochrome),
        (p matches FilterParams::Outline {
                thickness,
                threshold,
                softness,
                color,
                opacity,
                mode,
                use_luma,
            } ==> p.effective(advanced_open) matches FilterParams::Outline {
                thickness: thickness_run,
                threshold: threshold_run,
                softness: softness_run,
                color: color_run,
                opacity: opacity_run,
                mode: mode_run,
                use_luma: use_luma_run,
            }
            && thickness_run >= thickness && thickness_run >= 500 && (thickness_run == thickness || thickness_run == 500)
            && threshold_run == threshold
            && softness_run == softness
            && color_run == color
            && opacity_run == opacity
            && mode_run == mode
            && use_luma_run == use_luma),
        (p matches FilterParams::OilPaint {
                radius,
                levels,
                strength,
            } ==> p.effective(advanced_open) matches FilterParams::OilPaint {
                radius: radius_run,
                levels: levels_run,
                strength: strength_run,
            }
            && radius_run >= radius && radius_run >= 1000 && (radius_run == radius || radius_run == 1000)
            && levels_run == levels
            && strength_run == strength),
        (p matches FilterParams::Watercolor {
                blur,
                bleed,
                edge,
                saturation,
                strength,
            } ==> p.effective(advanced_open) matches FilterParams::Watercolor {
                blur: blur_run,
                bleed: bleed_run,
                edge: edge_run,
                saturation: saturation_run,
                strength: strength_run,
            }
            && blur_run >= blur && blur_run >= 500 && (blur_run == blur || blur_run == 500)
            && bleed_run == bleed
            && edge_run == edge
            && saturation_run == saturation
            && strength_run == strength),
        (p matches FilterParams::Pencil {
                detail,
                darkness,
                grain,
                strength,
            } ==> p.effective(advanced_open) matches FilterParams::Pencil {
                detail: detail_run,
                darkness: darkness_run,
                grain: grain_run,
                strength: strength_run,
            }
            && detail_run >= detail && detail_run >= 500 && (detail_run == detail || detail_run == 500)
            && darkness_run == darkness
            && grain_run == grain
            && strength_run == strength),
        (p matches FilterParams::Pastel {
                softness,
                chalk,
                lighten,
                strength,
            } ==> p.effective(advanced_open) matches FilterParams::Pastel {
                softness: softness_run,
                chalk: chalk_run,
                lighten: lighten_run,
                strength: strength_run,
            }
            && softness_run >= softness && softness_run >= 0 && (softness_run == softness || softness_run == 0)
            && chalk_run == chalk
            && lighten_run == lighten
            && strength_run == strength),
        (p matches FilterParams::PaperTexture {
                amount,
                scale,
                roughness,
                warm,
            } ==> p.effective(advanced_open) matches FilterParams::PaperTexture {
                amount: amount_run,
                scale: scale_run,
                roughness: roughness_run,
                warm: warm_run,
            }
            && scale_run >= scale && scale_run >= 500 && (scale_run == scale || scale_run == 500)
            && amount_run == amount
            && roughness_run == roughness
            && warm_run == warm),
        (p matches FilterParams::LightRays {
                amount,
                length,
                center_x,
                center_y,
                decay,
                tint,
                color,
            } ==> p.effective(advanced_open) matches FilterParams::LightRays {
                amount: amount_run,
                length: length_run,
                center_x: center_x_run,
                center_y: center_y_run,
                decay: decay_run,
                tint: tint_run,
                color: color_run,
            }
            && length_run >= length && length_run >= 4000 && (length_run == length || length_run == 4000)
            && amount_run == amount
            && center_x_run == center_x
            && center_y_run == center_y
            && decay_run == decay
            && tint_run == tint
            && color_run == color),
        (p matches FilterParams::LensFlare {
                amount,
                center_x,
                center_y,
                size,
                streak,
                color,
            } ==> p.effective(advanced_open) matches FilterParams::LensFlare {
                amount: amount_run,
                center_x: center_x_run,
                center_y: center_y_run,
                size: size_run,
                streak: streak_run,
                color: color_run,
            }
            && size_run >= size && size_run >= 4000 && (size_run == size || size_run == 4000)
            && amount_run == amount
            && center_x_run == center_x
            && center_y_run == center_y
            && streak_run == streak
            && color_run == color),
        (p matches FilterParams::DropShadow {
                angle,
                distance,
                blur,
                opacity,
                color,
            } ==> p.effective(advanced_open) matches FilterParams::DropShadow {
                angle: angle_run,
                distance: distance_run,
                blur: blur_run,
                opacity: opacity_run,
                color: color_run,
            }
            && blur_run >= blur && blur_run >= 0 && (blur_run == blur || blur_run == 0)
            && angle_run == angle
            && distance_run == distance
            && opacity_run == opacity
            && color_run == color),
        (p matches FilterParams::BevelEmboss {
                depth,
                soft,
                angle,
                elevation,
                mode,
                strength,
            } ==> p.effective(advanced_open) matches FilterParams::BevelEmboss {
                depth: depth_run,
                soft: soft_run,
                angle: angle_run,
                elevation: elevation_run,
                mode: mode_run,
                strength: strength_run,
            }
            && soft_run >= soft && soft_run >= 0 && (soft_run == soft || soft_run == 0)
            && depth_run == depth
            && angle_run == angle
            && elevation_run == elevation
            && mode_run == mode
            && strength_run == strength),
        (p matches FilterParams::Scanlines {
                spacing,
                thickness,
                opacity,
                color,
                vertical,
                soft,
            } ==> p.effective(advanced_open) matches FilterParams::Scanlines {
                spacing: spacing_run,
                thickness: thickness_run,
                opacity: opacity_run,
                color: color_run,
                vertical: vertical_run,
                soft: soft_run,
            }
            && spacing_run >= spacing && spacing_run >= 1000 && (spacing_run == spacing || spacing_run == 1000)
            && thickness_run >= thickness && thickness_run >= 100 && (thickness_run == thickness || thickness_run == 100)
            && opacity_run == opacity
            && color_run == color
            && vertical_run == vertical
            && soft_run == soft),
        (p matches FilterParams::LiquidGlass {
                mode,
                radius,
                center_x,
                center_y,
                spacing,
                angle,
                refraction,
                specular,
                rim,
                softness,
                chroma,
                tint,
                tint_amount,
            } ==> p.effective(advanced_open) matches FilterParams::LiquidGlass {
                mode: mode_run,
                radius: radius_run,
                center_x: center_x_run,
                center_y: center_y_run,
                spacing: spacing_run,
                angle: angle_run,
                refraction: refraction_run,
                specular: specular_run,
                rim: rim_run,
                softness: softness_run,
                chroma: chroma_run,
                tint: tint_run,
                tint_amount: tint_amount_run,
            }
            && spacing_run >= spacing && spacing_run >= 2000 && (spacing_run == spacing || spacing_run == 2000)
            && mode_run == mode
            && radius_run == radius
            && center_x_run == center_x
            && center_y_run == center_y
            && angle_run == angle
            && refraction_run == refraction
            && specular_run == specular
            && rim_run == rim
            && softness_run == softness
            && chroma_run == chroma
            && tint_run == tint
            && tint_amount_run == tint_amount),
{
}

/// Cells are run no smaller than they are set and no smaller than their least
/// size, and at the one or the other; nothing else about the filter changes.
/// This is said of sizes that single precision holds exactly.
pub proof fn law_small_cells_are_raised(p: FilterParams, advanced_open: bool)
    requires
        p matches FilterParams::Pixelize { block, .. } ==> block < 0x100_0000,
        p matches FilterParams::HexPixelize { size, .. } ==> size < 0x100_0000,
        p matches FilterParams::TriPixelize { size, .. } ==> size < 0x100_0000,
        p matches FilterParams::HexDots { size, .. } ==> size < 0x100_0000,
        p matches FilterParams::Crystallize { size, .. } ==> size < 0x100_0000,
        p matches FilterParams::Pointillize { size, .. } ==> size < 0x100_0000,
        p matches FilterParams::ColorHalftone { size, .. } ==> size < 0x100_0000,
    ensures
        (p matches FilterParams::Pixelize {
                method,
                block,
                soft_amount,
            } ==> p.effective(advanced_open) matches FilterParams::Pixelize {
                method: method_run,
                block: block_run,
                soft_amount: soft_amount_run,
            }
            && block_run >= block && block_run >= 1 && (block_run == block || block_run == 1)
            && method_run == method
            && soft_amount_run == soft_amount),
        (p matches FilterParams::HexPixelize {
                size,
            } ==> p.effective(advanced_open) matches FilterParams::HexPixelize {
                size: size_run,
            }
            && size_run >= size && size_run >= 2 && (size_run == size || size_run == 2)),
        (p matches FilterParams::TriPixelize {
                size,
            } ==> p.effective(advanced_open) matches FilterParams::TriPixelize {
                size: size_run,
            }
            && size_run >= size && size_run >= 2 && (size_run == size || size_run == 2)),
        (p matches FilterParams::HexDots {
                size,
                fill_pct,
                soft_edge,
            } ==> p.effective(advanced_open) matches FilterParams::HexDots {
                size: size_run,
                fill_pct: fill_pct_run,
                soft_edge: soft_edge_run,
            }
            && size_run >= size && size_run >= 2 && (size_run == size || size_run == 2)
            && fill_pct_run == fill_pct
            && soft_edge_run == soft_edge),
        (p matches FilterParams::Crystallize {
                size,
            } ==> p.effective(advanced_open) matches FilterParams::Crystallize {
                size: size_run,
            }
            && size_run >= size && size_run >= 2 && (size_run == size || size_run == 2)),
        (p matches FilterParams::Pointillize {
                size,
                density,
                bg,
            } ==> p.effective(advanced_open) matches FilterParams::Pointillize {
                size: size_run,
                density: density_run,
                bg: bg_run,
            }
            && size_run >= size && size_run >= 2 && (size_run == size || size_run == 2)
            && density_run == density
            && bg_run == bg),
        (p matches FilterParams::ColorHalftone {
                size,
                angle,
                mode,
                paper,
                bg,
                strength,
                softness,
                contrast,
                angle_c,
                angle_m,
                angle_y,
                angle_k,
            } ==> p.effective(advanced_open) matches FilterParams::ColorHalftone {
                size: size_run,
                angle: angle_run,
                mode: mode_run,
                paper: paper_run,
                bg: bg_run,
                strength: strength_run,
                softness: softness_run,
                contrast: contrast_run,
                angle_c: angle_c_run,
                angle_m: angle_m_run,
                angle_y: angle_y_run,
                angle_k: angle_k_run,
            }
            && size_run >= size && size_run >= 2 && (size_run == size || size_run == 2)
            && angle_run == angle
            && mode_run == mode
            && paper_run == paper
            && bg_run == bg
            && strength_run == strength
            && softness_run == softness
            && contrast_run == contrast
            && angle_c_run == angle_c
            && angle_m_run == angle_m
            && angle_y_run == angle_y
            && angle_k_run == angle_k),
{
    lemma_cells(p);
}

/// The settings of a colour fringe that are folded away do not count: the run is
/// the same whatever they are, and the others are run as they are set. Unfolded,
/// all are.
pub proof fn law_folded_settings_do_not_count(p: FilterParams, q: FilterParams)
    requires
        p is ChromaticAberration,
        q is ChromaticAberration,
        p->ChromaticAberration_mode == q->ChromaticAberration_mode,
        p->ChromaticAberration_amount == q->ChromaticAberration_amount,
        p->ChromaticAberration_angle == q->ChromaticAberration_angle,
    ensures
        p.effective(false) == q.effective(false),
        p.effective(false) is ChromaticAberration,
        p.effective(false)->ChromaticAberration_mode == p->ChromaticAberration_mode,
        p.effective(false)->ChromaticAberration_amount == p->ChromaticAberration_amount,
        p.effective(false)->ChromaticAberration_angle == p->ChromaticAberration_angle,
        p.effective(false)->center_atten == 55_000,
        p.effective(false)->red_scale == 1000,
        p.effective(false)->blue_scale == 1000,
        p.effective(true) == p,
{
}

/// A filter whose settings are all in their working ranges is run with exactly
/// those settings, those that are folded away aside.
pub proof fn law_working_settings_are_run(p: FilterParams, advanced_open: bool)
    requires
        p matches FilterParams::Gaussian { radius, .. } ==> radius <= 1_024_000,
        p matches FilterParams::Motion { length, .. } ==> length <= 1_024_000,
        p matches FilterParams::Radial { amount, .. } ==> amount <= 1_024_000,
        p matches FilterParams::Unsharp { radius, .. } ==> radius <= 1_024_000,
        p matches FilterParams::Glow { radius, .. } ==> radius <= 1_024_000,
        p matches FilterParams::NeonGlow { radius, .. } ==> radius <= 1_024_000,
        p matches FilterParams::FilmGrain { size, .. } ==> size >= 250,
        p matches FilterParams::Dither { pattern_size, .. } ==> pattern_size >= 250,
        p matches FilterParams::Outline { thickness, .. } ==> thickness >= 500,
        p matches FilterParams::OilPaint { radius, .. } ==> radius >= 1000,
        p matches FilterParams::Watercolor { blur, .. } ==> blur >= 500,
        p matches FilterParams::Pencil { detail, .. } ==> detail >= 500,
        p matches FilterParams::Pastel { softness, .. } ==> softness >= 0,
        p matches FilterParams::PaperTexture { scale, .. } ==> scale >= 500,
        p matches FilterParams::LightRays { length, .. } ==> length >= 4000,
        p matches FilterParams::LensFlare { size, .. } ==> size >= 4000,
        p matches FilterParams::DropShadow { blur, .. } ==> blur >= 0,
        p matches FilterParams::BevelEmboss { soft, .. } ==> soft >= 0,
        p matches FilterParams::Scanlines { spacing, .. } ==> spacing >= 1000,
        p matches FilterParams::Scanlines { thickness, .. } ==> thickness >= 100,
        p matches FilterParams::LiquidGlass { spacing, .. } ==> spacing >= 2000,
        p matches FilterParams::Pixelize { block, .. } ==> 1 <= block < 0x100_0000,
        p matches FilterParams::HexPixelize { size, .. } ==> 2 <= size < 0x100_0000,
        p matches FilterParams::TriPixelize { size, .. } ==> 2 <= size < 0x100_0000,
        p matches FilterParams::HexDots { size, .. } ==> 2 <= size < 0x100_0000,
        p matches FilterParams::Crystallize { size, .. } ==> 2 <= size < 0x100_0000,
        p matches FilterParams::Pointillize { size, .. } ==> 2 <= size < 0x100_0000,
        p matches FilterParams::ColorHalftone { size, .. } ==> 2 <= size < 0x100_0000,
        p is ChromaticAberration ==> advanced_open,
    ensures
        p.effective(advanced_open) == p,
{
    lemma_cells(p);
}

/// What the sliders of a filter can be set to is run as it is set. The distance
/// of the ribs of glass counts even where no slider shows it.
pub proof fn law_sliders_are_run(p: FilterParams)
    requires
        p.fits(),
        p is LiquidGlass ==> p->LiquidGlass_spacing >= 2000,
    ensures
        p.effective(true) == p,
        !(p is ChromaticAberration) ==> p.effective(false) == p,
{
    lemma_cells(p);
}

/// Running what a filter is run with changes nothing more, and a filter stays of
/// its kind.
pub proof fn law_run_twice(p: FilterParams, advanced_open: bool)
    requires
        p matches FilterParams::Pixelize { block, .. } ==> block < 0x100_0000,
        p matches FilterParams::HexPixelize { size, .. } ==> size < 0x100_0000,
        p matches FilterParams::TriPixelize { size, .. } ==> size < 0x100_0000,
        p matches FilterParams::HexDots { size, .. } ==> size < 0x100_0000,
        p matches FilterParams::Crystallize { size, .. } ==> size < 0x100_0000,
        p matches FilterParams::Pointillize { size, .. } ==> size < 0x100_0000,
        p matches FilterParams::ColorHalftone { size, .. } ==> size < 0x100_0000,
    ensures
        p.effective(advanced_open).effective(advanced_open) == p.effective(advanced_open),
        p.effective(advanced_open).spec_kind() == p.spec_kind(),
{
    lemma_cells(p);
    lemma_cells(p.effective(advanced_open));
}

} // verus!
