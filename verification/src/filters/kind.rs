//! The filters of the studio, their names and their groups.
use vstd::prelude::*;

verus! {

/// What the studio's preview shows.
#[derive(Clone, Copy, Debug, PartialEq, Eq, Hash, Structural)]
pub enum StudioVisibility {
    AllLayers,
    ThisLayer,
}

/// A filter of the studio.
#[derive(Clone, Copy, Debug, PartialEq, Eq, Hash, Structural)]
pub enum StudioFilterKind {
    Gaussian,
    Motion,
    Radial,
    Unsharp,
    BrightnessContrast,
    Levels,
    Curves,
    HueSaturation,
    ColorBalance,
    Invert,
    Pixelize,
    HexPixelize,
    TriPixelize,
    HexDots,
    Posterize,
    Crystallize,
    Pointillize,
    ColorHalftone,
    Fisheye,
    SphericalLens,
    Ripple,
    Twist,
    ChromaticAberration,
    Noise,
    Glitch,
    Vignette,
    Glow,
    Sepia,
    FilmGrain,
    Dither,
    ReplaceColor,
    Outline,
    OilPaint,
    Watercolor,
    Pencil,
    Pastel,
    PaperTexture,
    NeonGlow,
    LightRays,
    LensFlare,
    DropShadow,
    BevelEmboss,
    Scanlines,
    LiquidGlass,
    Gradient,
    ImageOverlay,
}

impl StudioFilterKind {
    pub open spec fn spec_label(self) -> &'static str {
        match self {
            StudioFilterKind::Gaussian => "Gaussian Blur",
            StudioFilterKind::Motion => "Motion Blur",
            StudioFilterKind::Radial => "Radial Blur",
            StudioFilterKind::Unsharp => "Unsharp Mask",
            StudioFilterKind::BrightnessContrast => "Brightness/Contrast",
            StudioFilterKind::Levels => "Levels",
            StudioFilterKind::Curves => "Curves",
            StudioFilterKind::HueSaturation => "Hue/Saturation",
            StudioFilterKind::ColorBalance => "Color Balance",
            StudioFilterKind::Invert => "Invert",
            StudioFilterKind::Pixelize => "Pixelization",
            StudioFilterKind::HexPixelize => "Hex Pixelization",
            StudioFilterKind::TriPixelize => "Triangle Pixelization",
            StudioFilterKind::HexDots => "Hex Dots",
            StudioFilterKind::Posterize => "Posterize",
            StudioFilterKind::Crystallize => "Crystallize",
            StudioFilterKind::Pointillize => "Pointillize",
            StudioFilterKind::ColorHalftone => "Color Halftone",
            StudioFilterKind::Fisheye => "Fisheye",
            StudioFilterKind::SphericalLens => "Spherical Lens",
            StudioFilterKind::Ripple => "Ripple",
            StudioFilterKind::Twist => "Twist",
            StudioFilterKind::ChromaticAberration => "Chromatic Aberration",
            StudioFilterKind::Noise => "Noise",
            StudioFilterKind::Glitch => "Glitch",
            StudioFilterKind::Vignette => "Vignette",
            StudioFilterKind::Glow => "Glow",
            StudioFilterKind::Sepia => "Sepia",
            StudioFilterKind::FilmGrain => "Film Grain",
            StudioFilterKind::Dither => "Dithering",
            StudioFilterKind::ReplaceColor => "Replace Color",
            StudioFilterKind::Outline => "Outline",
            StudioFilterKind::OilPaint => "Oil Paint",
            StudioFilterKind::Watercolor => "Watercolor",
            StudioFilterKind::Pencil => "Pencil",
            StudioFilterKind::Pastel => "Pastel",
            StudioFilterKind::PaperTexture => "Paper Texture",
            StudioFilterKind::NeonGlow => "Neon Glow",
            StudioFilterKind::LightRays => "Light Rays",
            StudioFilterKind::LensFlare => "Lens Flare",
            StudioFilterKind::DropShadow => "Drop Shadow",
            StudioFilterKind::BevelEmboss => "Bevel / Emboss",
            StudioFilterKind::Scanlines => "Scanlines",
            StudioFilterKind::LiquidGlass => "Liquid Glass",
            StudioFilterKind::Gradient => "Gradient",
            StudioFilterKind::ImageOverlay => "Overlay",
        }
    }

    /// The name shown for the filter.
    pub fn label(self) -> (r: &'static str)
        ensures
            r == self.spec_label(),
    {
        match self {
            StudioFilterKind::Gaussian => "Gaussian Blur",
            StudioFilterKind::Motion => "Motion Blur",
            StudioFilterKind::Radial => "Radial Blur",
            StudioFilterKind::Unsharp => "Unsharp Mask",
            StudioFilterKind::BrightnessContrast => "Brightness/Contrast",
            StudioFilterKind::Levels => "Levels",
            StudioFilterKind::Curves => "Curves",
            StudioFilterKind::HueSaturation => "Hue/Saturation",
            StudioFilterKind::ColorBalance => "Color Balance",
            StudioFilterKind::Invert => "Invert",
            StudioFilterKind::Pixelize => "Pixelization",
            StudioFilterKind::HexPixelize => "Hex Pixelization",
            StudioFilterKind::TriPixelize => "Triangle Pixelization",
            StudioFilterKind::HexDots => "Hex Dots",
            StudioFilterKind::Posterize => "Posterize",
            StudioFilterKind::Crystallize => "Crystallize",
            StudioFilterKind::Pointillize => "Pointillize",
            StudioFilterKind::ColorHalftone => "Color Halftone",
            StudioFilterKind::Fisheye => "Fisheye",
            StudioFilterKind::SphericalLens => "Spherical Lens",
            StudioFilterKind::Ripple => "Ripple",
            StudioFilterKind::Twist => "Twist",
            StudioFilterKind::ChromaticAberration => "Chromatic Aberration",
            StudioFilterKind::Noise => "Noise",
            StudioFilterKind::Glitch => "Glitch",
            StudioFilterKind::Vignette => "Vignette",
            StudioFilterKind::Glow => "Glow",
            StudioFilterKind::Sepia => "Sepia",
            StudioFilterKind::FilmGrain => "Film Grain",
            StudioFilterKind::Dither => "Dithering",
            StudioFilterKind::ReplaceColor => "Replace Color",
            StudioFilterKind::Outline => "Outline",
            StudioFilterKind::OilPaint => "Oil Paint",
            StudioFilterKind::Watercolor => "Watercolor",
            StudioFilterKind::Pencil => "Pencil",
            StudioFilterKind::Pastel => "Pastel",
            StudioFilterKind::PaperTexture => "Paper Texture",
            StudioFilterKind::NeonGlow => "Neon Glow",
            StudioFilterKind::LightRays => "Light Rays",
            StudioFilterKind::LensFlare => "Lens Flare",
            StudioFilterKind::DropShadow => "Drop Shadow",
            StudioFilterKind::BevelEmboss => "Bevel / Emboss",
            StudioFilterKind::Scanlines => "Scanlines",
            StudioFilterKind::LiquidGlass => "Liquid Glass",
            StudioFilterKind::Gradient => "Gradient",
            StudioFilterKind::ImageOverlay => "Overlay",
        }
    }

    pub open spec fn spec_category(self) -> &'static str {
        match self {
            StudioFilterKind::Gaussian
            | StudioFilterKind::Motion
            | StudioFilterKind::Radial
            | StudioFilterKind::Unsharp => "Blur",
            StudioFilterKind::BrightnessContrast
            | StudioFilterKind::Levels
            | StudioFilterKind::Curves
            | StudioFilterKind::HueSaturation
            | StudioFilterKind::ColorBalance
            | StudioFilterKind::Invert
            | StudioFilterKind::ReplaceColor => "Correction",
            StudioFilterKind::Pixelize
            | StudioFilterKind::HexPixelize
            | StudioFilterKind::TriPixelize
            | StudioFilterKind::HexDots
            | StudioFilterKind::Posterize
            | StudioFilterKind::Crystallize
            | StudioFilterKind::Pointillize
            | StudioFilterKind::ColorHalftone => "Pixelate",
            StudioFilterKind::Fisheye
            | StudioFilterKind::SphericalLens
            | StudioFilterKind::Ripple
            | StudioFilterKind::Twist
            | StudioFilterKind::LiquidGlass => "Distort",
            StudioFilterKind::Outline
            | StudioFilterKind::OilPaint
            | StudioFilterKind::Watercolor
            | StudioFilterKind::Pencil
            | StudioFilterKind::Pastel => "Artistic",
            StudioFilterKind::ChromaticAberration
            | StudioFilterKind::Noise
            | StudioFilterKind::Glitch
            | StudioFilterKind::Vignette
            | StudioFilterKind::Glow
            | StudioFilterKind::Sepia
            | StudioFilterKind::FilmGrain
            | StudioFilterKind::Dither
            | StudioFilterKind::PaperTexture
            | StudioFilterKind::NeonGlow
            | StudioFilterKind::LightRays
            | StudioFilterKind::LensFlare
            | StudioFilterKind::DropShadow
            | StudioFilterKind::BevelEmboss
            | StudioFilterKind::Scanlines
            | StudioFilterKind::Gradient
            | StudioFilterKind::ImageOverlay => "Effects",
        }
    }

    /// The group that the filter is listed in.
    pub fn category(self) -> (r: &'static str)
        ensures
            r == self.spec_category(),
    {
        match self {
            StudioFilterKind::Gaussian
            | StudioFilterKind::Motion
            | StudioFilterKind::Radial
            | StudioFilterKind::Unsharp => "Blur",
            StudioFilterKind::BrightnessContrast
            | StudioFilterKind::Levels
            | StudioFilterKind::Curves
            | StudioFilterKind::HueSaturation
            | StudioFilterKind::ColorBalance
            | StudioFilterKind::Invert
            | StudioFilterKind::ReplaceColor => "Correction",
            StudioFilterKind::Pixelize
            | StudioFilterKind::HexPixelize
            | StudioFilterKind::TriPixelize
            | StudioFilterKind::HexDots
            | StudioFilterKind::Posterize
            | StudioFilterKind::Crystallize
            | StudioFilterKind::Pointillize
            | StudioFilterKind::ColorHalftone => "Pixelate",
            StudioFilterKind::Fisheye
            | StudioFilterKind::SphericalLens
            | StudioFilterKind::Ripple
            | StudioFilterKind::Twist
            | StudioFilterKind::LiquidGlass => "Distort",
            StudioFilterKind::Outline
            | StudioFilterKind::OilPaint
            | StudioFilterKind::Watercolor
            | StudioFilterKind::Pencil
            | StudioFilterKind::Pastel => "Artistic",
            StudioFilterKind::ChromaticAberration
            | StudioFilterKind::Noise
            | StudioFilterKind::Glitch
            | StudioFilterKind::Vignette
            | StudioFilterKind::Glow
            | StudioFilterKind::Sepia
            | StudioFilterKind::FilmGrain
            | StudioFilterKind::Dither
            | StudioFilterKind::PaperTexture
            | StudioFilterKind::NeonGlow
            | StudioFilterKind::LightRays
            | StudioFilterKind::LensFlare
            | StudioFilterKind::DropShadow
            | StudioFilterKind::BevelEmboss
            | StudioFilterKind::Scanlines
            | StudioFilterKind::Gradient
            | StudioFilterKind::ImageOverlay => "Effects",
        }
    }

    /// The place of the filter in the declaration.
    pub open spec fn ord(self) -> int {
        match self {
            StudioFilterKind::Gaussian => 0,
            StudioFilterKind::Motion => 1,
            StudioFilterKind::Radial => 2,
            StudioFilterKind::Unsharp => 3,
            StudioFilterKind::BrightnessContrast => 4,
            StudioFilterKind::Levels => 5,
            StudioFilterKind::Curves => 6,
            StudioFilterKind::HueSaturation => 7,
            StudioFilterKind::ColorBalance => 8,
            StudioFilterKind::Invert => 9,
            StudioFilterKind::Pixelize => 10,
            StudioFilterKind::HexPixelize => 11,
            StudioFilterKind::TriPixelize => 12,
            StudioFilterKind::HexDots => 13,
            StudioFilterKind::Posterize => 14,
            StudioFilterKind::Crystallize => 15,
            StudioFilterKind::Pointillize => 16,
            StudioFilterKind::ColorHalftone => 17,
            StudioFilterKind::Fisheye => 18,
            StudioFilterKind::SphericalLens => 19,
            StudioFilterKind::Ripple => 20,
            StudioFilterKind::Twist => 21,
            StudioFilterKind::ChromaticAberration => 22,
            StudioFilterKind::Noise => 23,
            StudioFilterKind::Glitch => 24,
            StudioFilterKind::Vignette => 25,
            StudioFilterKind::Glow => 26,
            StudioFilterKind::Sepia => 27,
            StudioFilterKind::FilmGrain => 28,
            StudioFilterKind::Dither => 29,
            StudioFilterKind::ReplaceColor => 30,
            StudioFilterKind::Outline => 31,
            StudioFilterKind::OilPaint => 32,
            StudioFilterKind::Watercolor => 33,
            StudioFilterKind::Pencil => 34,
            StudioFilterKind::Pastel => 35,
            StudioFilterKind::PaperTexture => 36,
            StudioFilterKind::NeonGlow => 37,
            StudioFilterKind::LightRays => 38,
            StudioFilterKind::LensFlare => 39,
            StudioFilterKind::DropShadow => 40,
            StudioFilterKind::BevelEmboss => 41,
            StudioFilterKind::Scanlines => 42,
            StudioFilterKind::LiquidGlass => 43,
            StudioFilterKind::Gradient => 44,
            StudioFilterKind::ImageOverlay => 45,
        }
    }

    pub fn ordinal(self) -> (r: i128)
        ensures
            r == self.ord(),
    {
        match self {
            StudioFilterKind::Gaussian => 0,
            StudioFilterKind::Motion => 1,
            StudioFilterKind::Radial => 2,
            StudioFilterKind::Unsharp => 3,
            StudioFilterKind::BrightnessContrast => 4,
            StudioFilterKind::Levels => 5,
            StudioFilterKind::Curves => 6,
            StudioFilterKind::HueSaturation => 7,
            StudioFilterKind::ColorBalance => 8,
            StudioFilterKind::Invert => 9,
            StudioFilterKind::Pixelize => 10,
            StudioFilterKind::HexPixelize => 11,
            StudioFilterKind::TriPixelize => 12,
            StudioFilterKind::HexDots => 13,
            StudioFilterKind::Posterize => 14,
            StudioFilterKind::Crystallize => 15,
            StudioFilterKind::Pointillize => 16,
            StudioFilterKind::ColorHalftone => 17,
            StudioFilterKind::Fisheye => 18,
            StudioFilterKind::SphericalLens => 19,
            StudioFilterKind::Ripple => 20,
            StudioFilterKind::Twist => 21,
            StudioFilterKind::ChromaticAberration => 22,
            StudioFilterKind::Noise => 23,
            StudioFilterKind::Glitch => 24,
            StudioFilterKind::Vignette => 25,
            StudioFilterKind::Glow => 26,
            StudioFilterKind::Sepia => 27,
            StudioFilterKind::FilmGrain => 28,
            StudioFilterKind::Dither => 29,
            StudioFilterKind::ReplaceColor => 30,
            StudioFilterKind::Outline => 31,
            StudioFilterKind::OilPaint => 32,
            StudioFilterKind::Watercolor => 33,
            StudioFilterKind::Pencil => 34,
            StudioFilterKind::Pastel => 35,
            StudioFilterKind::PaperTexture => 36,
            StudioFilterKind::NeonGlow => 37,
            StudioFilterKind::LightRays => 38,
            StudioFilterKind::LensFlare => 39,
            StudioFilterKind::DropShadow => 40,
            StudioFilterKind::BevelEmboss => 41,
            StudioFilterKind::Scanlines => 42,
            StudioFilterKind::LiquidGlass => 43,
            StudioFilterKind::Gradient => 44,
            StudioFilterKind::ImageOverlay => 45,
        }
    }
}

/// The groups, in the order they are listed.
pub open spec fn category_list() -> Seq<&'static str> {
    seq!["Blur", "Correction", "Pixelate", "Distort", "Artistic", "Effects"]
}

pub fn categories() -> (r: Vec<&'static str>)
    ensures
        r@ == category_list(),
{
    let mut out: Vec<&'static str> = Vec::new();
    out.push("Blur");
    out.push("Correction");
    out.push("Pixelate");
    out.push("Distort");
    out.push("Artistic");
    out.push("Effects");
    out
}

/// The filters, in the order they are listed.
pub open spec fn kind_list() -> Seq<StudioFilterKind> {
    seq![
        StudioFilterKind::Gaussian,
        StudioFilterKind::Motion,
        StudioFilterKind::Radial,
        StudioFilterKind::Unsharp,
        StudioFilterKind::BrightnessContrast,
        StudioFilterKind::Levels,
        StudioFilterKind::Curves,
        StudioFilterKind::HueSaturation,
        StudioFilterKind::ColorBalance,
        StudioFilterKind::Invert,
        StudioFilterKind::ReplaceColor,
        StudioFilterKind::Pixelize,
        StudioFilterKind::HexPixelize,
        StudioFilterKind::TriPixelize,
        StudioFilterKind::HexDots,
        StudioFilterKind::Posterize,
        StudioFilterKind::Crystallize,
        StudioFilterKind::Pointillize,
        StudioFilterKind::ColorHalftone,
        StudioFilterKind::Fisheye,
        StudioFilterKind::SphericalLens,
        StudioFilterKind::Ripple,
        StudioFilterKind::Twist,
        StudioFilterKind::LiquidGlass,
        StudioFilterKind::Outline,
        StudioFilterKind::OilPaint,
        StudioFilterKind::Watercolor,
        StudioFilterKind::Pencil,
        StudioFilterKind::Pastel,
        StudioFilterKind::ChromaticAberration,
        StudioFilterKind::Noise,
        StudioFilterKind::Glitch,
        StudioFilterKind::Vignette,
        StudioFilterKind::Glow,
        StudioFilterKind::NeonGlow,
        StudioFilterKind::LightRays,
        StudioFilterKind::LensFlare,
        StudioFilterKind::DropShadow,
        StudioFilterKind::BevelEmboss,
        StudioFilterKind::Sepia,
        StudioFilterKind::FilmGrain,
        StudioFilterKind::PaperTexture,
        StudioFilterKind::Scanlines,
        StudioFilterKind::Dither,
        StudioFilterKind::Gradient,
        StudioFilterKind::ImageOverlay,
    ]
}

pub fn all_kinds() -> (r: Vec<StudioFilterKind>)
    ensures
        r@ == kind_list(),
{
    let list = vec![
        StudioFilterKind::Gaussian,
        StudioFilterKind::Motion,
        StudioFilterKind::Radial,
        StudioFilterKind::Unsharp,
        StudioFilterKind::BrightnessContrast,
        StudioFilterKind::Levels,
        StudioFilterKind::Curves,
        StudioFilterKind::HueSaturation,
        StudioFilterKind::ColorBalance,
        StudioFilterKind::Invert,
        StudioFilterKind::ReplaceColor,
        StudioFilterKind::Pixelize,
        StudioFilterKind::HexPixelize,
        StudioFilterKind::TriPixelize,
        StudioFilterKind::HexDots,
        StudioFilterKind::Posterize,
        StudioFilterKind::Crystallize,
        StudioFilterKind::Pointillize,
        StudioFilterKind::ColorHalftone,
        StudioFilterKind::Fisheye,
        StudioFilterKind::SphericalLens,
        StudioFilterKind::Ripple,
        StudioFilterKind::Twist,
        StudioFilterKind::LiquidGlass,
        StudioFilterKind::Outline,
        StudioFilterKind::OilPaint,
        StudioFilterKind::Watercolor,
        StudioFilterKind::Pencil,
        StudioFilterKind::Pastel,
        StudioFilterKind::ChromaticAberration,
        StudioFilterKind::Noise,
        StudioFilterKind::Glitch,
        StudioFilterKind::Vignette,
        StudioFilterKind::Glow,
        StudioFilterKind::NeonGlow,
        StudioFilterKind::LightRays,
        StudioFilterKind::LensFlare,
        StudioFilterKind::DropShadow,
        StudioFilterKind::BevelEmboss,
        StudioFilterKind::Sepia,
        StudioFilterKind::FilmGrain,
        StudioFilterKind::PaperTexture,
        StudioFilterKind::Scanlines,
        StudioFilterKind::Dither,
        StudioFilterKind::Gradient,
        StudioFilterKind::ImageOverlay,
    ];
    assert(list@ =~= kind_list());
    list
}

/// The place of a filter in the list.
pub open spec fn list_place(kind: StudioFilterKind) -> int {
    match kind {
        StudioFilterKind::Gaussian => 0,
        StudioFilterKind::Motion => 1,
        StudioFilterKind::Radial => 2,
        StudioFilterKind::Unsharp => 3,
        StudioFilterKind::BrightnessContrast => 4,
        StudioFilterKind::Levels => 5,
        StudioFilterKind::Curves => 6,
        StudioFilterKind::HueSaturation => 7,
        StudioFilterKind::ColorBalance => 8,
        StudioFilterKind::Invert => 9,
        StudioFilterKind::ReplaceColor => 10,
        StudioFilterKind::Pixelize => 11,
        StudioFilterKind::HexPixelize => 12,
        StudioFilterKind::TriPixelize => 13,
        StudioFilterKind::HexDots => 14,
        StudioFilterKind::Posterize => 15,
        StudioFilterKind::Crystallize => 16,
        StudioFilterKind::Pointillize => 17,
        StudioFilterKind::ColorHalftone => 18,
        StudioFilterKind::Fisheye => 19,
        StudioFilterKind::SphericalLens => 20,
        StudioFilterKind::Ripple => 21,
        StudioFilterKind::Twist => 22,
        StudioFilterKind::LiquidGlass => 23,
        StudioFilterKind::Outline => 24,
        StudioFilterKind::OilPaint => 25,
        StudioFilterKind::Watercolor => 26,
        StudioFilterKind::Pencil => 27,
        StudioFilterKind::Pastel => 28,
        StudioFilterKind::ChromaticAberration => 29,
        StudioFilterKind::Noise => 30,
        StudioFilterKind::Glitch => 31,
        StudioFilterKind::Vignette => 32,
        StudioFilterKind::Glow => 33,
        StudioFilterKind::NeonGlow => 34,
        StudioFilterKind::LightRays => 35,
        StudioFilterKind::LensFlare => 36,
        StudioFilterKind::DropShadow => 37,
        StudioFilterKind::BevelEmboss => 38,
        StudioFilterKind::Sepia => 39,
        StudioFilterKind::FilmGrain => 40,
        StudioFilterKind::PaperTexture => 41,
        StudioFilterKind::Scanlines => 42,
        StudioFilterKind::Dither => 43,
        StudioFilterKind::Gradient => 44,
        StudioFilterKind::ImageOverlay => 45,
    }
}

/// Every filter is listed in exactly one place.
pub proof fn law_kinds_listed_once(kind: StudioFilterKind)
    ensures
        0 <= list_place(kind) < kind_list().len(),
        kind_list()[list_place(kind)] == kind,
        forall|i: int| 0 <= i < kind_list().len() && kind_list()[i] == kind ==> i == list_place(kind),
{
    assert forall|i: int| 0 <= i < kind_list().len() implies list_place(
        #[trigger] kind_list()[i],
    ) == i by {}
}

/// Every filter is in a group that is listed.
pub proof fn law_category_listed(kind: StudioFilterKind)
    ensures
        category_list().contains(kind.spec_category()),
{
    let list = category_list();
    assert(list[0] == "Blur");
    assert(list[1] == "Correction");
    assert(list[2] == "Pixelate");
    assert(list[3] == "Distort");
    assert(list[4] == "Artistic");
    assert(list[5] == "Effects");
}

} // verus!
