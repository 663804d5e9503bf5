//! The names of the filters, the groups that they are offered in, and which
//! settings belong to which.
use vstd::prelude::*;
use crate::filters::kind::StudioFilterKind;
use crate::filters::params::FilterParams;

verus! {

/// The name of each filter.
pub proof fn law_names_of_filters()
    ensures
        StudioFilterKind::Gaussian.spec_label()@ == "Gaussian Blur"@,
        StudioFilterKind::Motion.spec_label()@ == "Motion Blur"@,
        StudioFilterKind::Radial.spec_label()@ == "Radial Blur"@,
        StudioFilterKind::Unsharp.spec_label()@ == "Unsharp Mask"@,
        StudioFilterKind::BrightnessContrast.spec_label()@ == "Brightness/Contrast"@,
        StudioFilterKind::Levels.spec_label()@ == "Levels"@,
        StudioFilterKind::Curves.spec_label()@ == "Curves"@,
        StudioFilterKind::HueSaturation.spec_label()@ == "Hue/Saturation"@,
        StudioFilterKind::ColorBalance.spec_label()@ == "Color Balance"@,
        StudioFilterKind::Invert.spec_label()@ == "Invert"@,
        StudioFilterKind::Pixelize.spec_label()@ == "Pixelization"@,
        StudioFilterKind::HexPixelize.spec_label()@ == "Hex Pixelization"@,
        StudioFilterKind::TriPixelize.spec_label()@ == "Triangle Pixelization"@,
        StudioFilterKind::HexDots.spec_label()@ == "Hex Dots"@,
        StudioFilterKind::Posterize.spec_label()@ == "Posterize"@,
        StudioFilterKind::Crystallize.spec_label()@ == "Crystallize"@,
        StudioFilterKind::Pointillize.spec_label()@ == "Pointillize"@,
        StudioFilterKind::ColorHalftone.spec_label()@ == "Color Halftone"@,
        StudioFilterKind::Fisheye.spec_label()@ == "Fisheye"@,
        StudioFilterKind::SphericalLens.spec_label()@ == "Spherical Lens"@,
        StudioFilterKind::Ripple.spec_label()@ == "Ripple"@,
        StudioFilterKind::Twist.spec_label()@ == "Twist"@,
        StudioFilterKind::ChromaticAberration.spec_label()@ == "Chromatic Aberration"@,
        StudioFilterKind::Noise.spec_label()@ == "Noise"@,
        StudioFilterKind::Glitch.spec_label()@ == "Glitch"@,
        StudioFilterKind::Vignette.spec_label()@ == "Vignette"@,
        StudioFilterKind::Glow.spec_label()@ == "Glow"@,
        StudioFilterKind::Sepia.spec_label()@ == "Sepia"@,
        StudioFilterKind::FilmGrain.spec_label()@ == "Film Grain"@,
        StudioFilterKind::Dither.spec_label()@ == "Dithering"@,
        StudioFilterKind::ReplaceColor.spec_label()@ == "Replace Color"@,
        StudioFilterKind::Outline.spec_label()@ == "Outline"@,
        StudioFilterKind::OilPaint.spec_label()@ == "Oil Paint"@,
        StudioFilterKind::Watercolor.spec_label()@ == "Watercolor"@,
        StudioFilterKind::Pencil.spec_label()@ == "Pencil"@,
        StudioFilterKind::Pastel.spec_label()@ == "Pastel"@,
        StudioFilterKind::PaperTexture.spec_label()@ == "Paper Texture"@,
        StudioFilterKind::NeonGlow.spec_label()@ == "Neon Glow"@,
        StudioFilterKind::LightRays.spec_label()@ == "Light Rays"@,
        StudioFilterKind::LensFlare.spec_label()@ == "Lens Flare"@,
        StudioFilterKind::DropShadow.spec_label()@ == "Drop Shadow"@,
        StudioFilterKind::BevelEmboss.spec_label()@ == "Bevel / Emboss"@,
        StudioFilterKind::Scanlines.spec_label()@ == "Scanlines"@,
        StudioFilterKind::LiquidGlass.spec_label()@ == "Liquid Glass"@,
        StudioFilterKind::Gradient.spec_label()@ == "Gradient"@,
        StudioFilterKind::ImageOverlay.spec_label()@ == "Overlay"@,
{
}

/// The group that each filter is offered in.
pub proof fn law_groups_of_filters(kind: StudioFilterKind)
    ensures
        kind.spec_category()@ == "Blur"@ <==> kind is Gaussian || kind is Motion || kind is Radial || kind is Unsharp,
        kind.spec_category()@ == "Correction"@ <==> kind is BrightnessContrast || kind is Levels || kind is Curves || kind is HueSaturation || kind is ColorBalance || kind is Invert || kind is ReplaceColor,
        kind.spec_category()@ == "Pixelate"@ <==> kind is Pixelize || kind is HexPixelize || kind is TriPixelize || kind is HexDots || kind is Posterize || kind is Crystallize || kind is Pointillize || kind is ColorHalftone,
        kind.spec_category()@ == "Distort"@ <==> kind is Fisheye || kind is SphericalLens || kind is Ripple || kind is Twist || kind is LiquidGlass,
        kind.spec_category()@ == "Artistic"@ <==> kind is Outline || kind is OilPaint || kind is Watercolor || kind is Pencil || kind is Pastel,
        kind.spec_category()@ == "Effects"@ <==> kind is ChromaticAberration || kind is Noise || kind is Glitch || kind is Vignette || kind is Glow || kind is Sepia || kind is FilmGrain || kind is Dither || kind is PaperTexture || kind is NeonGlow || kind is LightRays || kind is LensFlare || kind is DropShadow || kind is BevelEmboss || kind is Scanlines || kind is Gradient || kind is ImageOverlay,
{
    reveal_strlit("Blur");
    reveal_strlit("Correction");
    reveal_strlit("Pixelate");
    reveal_strlit("Distort");
    reveal_strlit("Artistic");
    reveal_strlit("Effects");
    assert("Blur"@.len() == 4 && "Correction"@.len() == 10);
    assert("Blur"@.len() == 4 && "Pixelate"@.len() == 8);
    assert("Blur"@.len() == 4 && "Distort"@.len() == 7);
    assert("Blur"@.len() == 4 && "Artistic"@.len() == 8);
    assert("Blur"@.len() == 4 && "Effects"@.len() == 7);
    assert("Correction"@.len() == 10 && "Pixelate"@.len() == 8);
    assert("Correction"@.len() == 10 && "Distort"@.len() == 7);
    assert("Correction"@.len() == 10 && "Artistic"@.len() == 8);
    assert("Correction"@.len() == 10 && "Effects"@.len() == 7);
    assert("Pixelate"@.len() == 8 && "Distort"@.len() == 7);
    assert("Pixelate"@[0] == 'P' && "Artistic"@[0] == 'A');
    assert("Pixelate"@.len() == 8 && "Effects"@.len() == 7);
    assert("Distort"@.len() == 7 && "Artistic"@.len() == 8);
    assert("Distort"@[0] == 'D' && "Effects"@[0] == 'E');
    assert("Artistic"@.len() == 8 && "Effects"@.len() == 7);
}

/// Settings belong to the filter of their name.
pub proof fn law_kind_of_settings(p: FilterParams)
    ensures
        p is Gaussian <==> p.spec_kind() is Gaussian,
        p is Motion <==> p.spec_kind() is Motion,
        p is Radial <==> p.spec_kind() is Radial,
        p is Unsharp <==> p.spec_kind() is Unsharp,
        p is BrightnessContrast <==> p.spec_kind() is BrightnessContrast,
        p is Levels <==> p.spec_kind() is Levels,
        p is Curves <==> p.spec_kind() is Curves,
        p is HueSaturation <==> p.spec_kind() is HueSaturation,
        p is ColorBalance <==> p.spec_kind() is ColorBalance,
        p is Invert <==> p.spec_kind() is Invert,
        p is Pixelize <==> p.spec_kind() is Pixelize,
        p is HexPixelize <==> p.spec_kind() is HexPixelize,
        p is TriPixelize <==> p.spec_kind() is TriPixelize,
        p is HexDots <==> p.spec_kind() is HexDots,
        p is Posterize <==> p.spec_kind() is Posterize,
        p is Crystallize <==> p.spec_kind() is Crystallize,
        p is Pointillize <==> p.spec_kind() is Pointillize,
        p is ColorHalftone <==> p.spec_kind() is ColorHalftone,
        p is Fisheye <==> p.spec_kind() is Fisheye,
        p is SphericalLens <==> p.spec_kind() is SphericalLens,
        p is Ripple <==> p.spec_kind() is Ripple,
        p is Twist <==> p.spec_kind() is Twist,
        p is ChromaticAberration <==> p.spec_kind() is ChromaticAberration,
        p is Noise <==> p.spec_kind() is Noise,
        p is Glitch <==> p.spec_kind() is Glitch,
        p is Vignette <==> p.spec_kind() is Vignette,
        p is Glow <==> p.spec_kind() is Glow,
        p is Sepia <==> p.spec_kind() is Sepia,
        p is FilmGrain <==> p.spec_kind() is FilmGrain,
        p is Dither <==> p.spec_kind() is Dither,
        p is ReplaceColor <==> p.spec_kind() is ReplaceColor,
        p is Outline <==> p.spec_kind() is Outline,
        p is OilPaint <==> p.spec_kind() is OilPaint,
        p is Watercolor <==> p.spec_kind() is Watercolor,
        p is Pencil <==> p.spec_kind() is Pencil,
        p is Pastel <==> p.spec_kind() is Pastel,
        p is PaperTexture <==> p.spec_kind() is PaperTexture,
        p is NeonGlow <==> p.spec_kind() is NeonGlow,
        p is LightRays <==> p.spec_kind() is LightRays,
        p is LensFlare <==> p.spec_kind() is LensFlare,
        p is DropShadow <==> p.spec_kind() is DropShadow,
        p is BevelEmboss <==> p.spec_kind() is BevelEmboss,
        p is Scanlines <==> p.spec_kind() is Scanlines,
        p is LiquidGlass <==> p.spec_kind() is LiquidGlass,
        p is Gradient <==> p.spec_kind() is Gradient,
        p is ImageOverlay <==> p.spec_kind() is ImageOverlay,
{
}

/// A filter that is added begins with settings of its own.
pub proof fn law_default_is_of_its_kind(p: FilterParams, kind: StudioFilterKind)
    requires
        p.is_default(kind),
    ensures
        p.spec_kind() == kind,
{
}

} // verus!
