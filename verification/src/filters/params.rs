//! The parameters of each filter. Real-valued ones are whole thousandths.
use vstd::prelude::*;
use crate::filters::choice::{
    BevelMode, BlendMode, ChromaMode, DitherMethod, FisheyeModel, GlitchMethod, GradientShape,
    HalftoneMode, HalftonePaper, LevelsChannel, LiquidGlassMode, NoiseMethod, OutlineMode,
    PixelizeMethod, ReplaceAffect, Rgb, RippleMode, ToneChannel, TransferCurve, VignetteShape,
    identity_levels, rgb,
};
use crate::filters::kind::StudioFilterKind;

verus! {

/// A filter with its parameters.
#[allow(inconsistent_fields)]
pub enum FilterParams {
    Gaussian { radius: i32 },
    Motion { length: i32, angle: i32 },
    Radial { amount: i32, zoom_mode: bool },
    Unsharp { amount: i32, radius: i32 },
    BrightnessContrast { brightness: i32, contrast: i32 },
    Levels {
        black: i32,
        mid: i32,
        white: i32,
        red: LevelsChannel,
        green: LevelsChannel,
        blue: LevelsChannel,
        edit: ToneChannel,
    },
    Curves {
        rgb: TransferCurve,
        red: TransferCurve,
        green: TransferCurve,
        blue: TransferCurve,
        edit: ToneChannel,
    },
    HueSaturation { hue: i32, saturation: i32, lightness: i32, colorize: bool },
    ColorBalance { cyan_red: i32, magenta_green: i32, yellow_blue: i32 },
    Invert,
    Pixelize { method: PixelizeMethod, block: u32, soft_amount: i32 },
    HexPixelize { size: u32 },
    TriPixelize { size: u32 },
    HexDots { size: u32, fill_pct: i32, soft_edge: bool },
    Posterize { levels: u32 },
    Crystallize { size: u32 },
    Pointillize { size: u32, density: i32, bg: Rgb },
    ColorHalftone {
        size: u32,
        angle: i32,
        mode: HalftoneMode,
        paper: HalftonePaper,
        bg: Rgb,
        strength: i32,
        softness: i32,
        contrast: i32,
        angle_c: i32,
        angle_m: i32,
        angle_y: i32,
        angle_k: i32,
    },
    Fisheye { model: FisheyeModel, amount: i32, radius: i32, center_x: i32, center_y: i32 },
    SphericalLens { amount: i32, radius: i32, center_x: i32, center_y: i32 },
    Ripple {
        mode: RippleMode,
        amount: i32,
        wavelength: i32,
        angle: i32,
        center_x: i32,
        center_y: i32,
    },
    Twist { amount: i32, radius: i32, center_x: i32, center_y: i32 },
    ChromaticAberration {
        mode: ChromaMode,
        amount: i32,
        angle: i32,
        center_atten: i32,
        red_scale: i32,
        blue_scale: i32,
    },
    Noise { method: NoiseMethod, amount: i32, monochrome: bool },
    Glitch { method: GlitchMethod, amount: i32, slice_height: i32, max_shift: i32 },
    Vignette { shape: VignetteShape, amount: i32, softness: i32, roundness: i32, color: Rgb },
    Glow { radius: i32, intensity: i32, tint: bool, color: Rgb },
    Sepia { amount: i32, warmth: i32 },
    FilmGrain { amount: i32, size: i32, roughness: i32, monochrome: bool, shadow_bias: i32 },
    Dither {
        method: DitherMethod,
        levels: u32,
        amount: i32,
        serpentine: bool,
        pattern_size: i32,
        monochrome: bool,
    },
    ReplaceColor {
        from: Rgb,
        to: Rgb,
        tolerance: i32,
        softness: i32,
        affect: ReplaceAffect,
        amount: i32,
    },
    Outline {
        thickness: i32,
        threshold: i32,
        softness: i32,
        color: Rgb,
        opacity: i32,
        mode: OutlineMode,
        use_luma: bool,
    },
    OilPaint { radius: i32, levels: u32, strength: i32 },
    Watercolor { blur: i32, bleed: i32, edge: i32, saturation: i32, strength: i32 },
    Pencil { detail: i32, darkness: i32, grain: i32, strength: i32 },
    Pastel { softness: i32, chalk: i32, lighten: i32, strength: i32 },
    PaperTexture { amount: i32, scale: i32, roughness: i32, warm: i32 },
    NeonGlow { radius: i32, intensity: i32, threshold: i32, color: Rgb, core: i32 },
    LightRays {
        amount: i32,
        length: i32,
        center_x: i32,
        center_y: i32,
        decay: i32,
        tint: bool,
        color: Rgb,
    },
    LensFlare { amount: i32, center_x: i32, center_y: i32, size: i32, streak: i32, color: Rgb },
    DropShadow { angle: i32, distance: i32, blur: i32, opacity: i32, color: Rgb },
    BevelEmboss {
        depth: i32,
        soft: i32,
        angle: i32,
        elevation: i32,
        mode: BevelMode,
        strength: i32,
    },
    Scanlines {
        spacing: i32,
        thickness: i32,
        opacity: i32,
        color: Rgb,
        vertical: bool,
        soft: bool,
    },
    LiquidGlass {
        mode: LiquidGlassMode,
        radius: i32,
        center_x: i32,
        center_y: i32,
        spacing: i32,
        angle: i32,
        refraction: i32,
        specular: i32,
        rim: i32,
        softness: i32,
        chroma: i32,
        tint: Rgb,
        tint_amount: i32,
    },
    Gradient {
        shape: GradientShape,
        angle: i32,
        spread: i32,
        center_x: i32,
        center_y: i32,
        color_a: Rgb,
        color_b: Rgb,
        opacity_a: i32,
        opacity_b: i32,
        amount: i32,
        blend: BlendMode,
        reverse: bool,
    },
    ImageOverlay {
        path: Option<String>,
        rgba: Option<Vec<u8>>,
        tex_w: u32,
        tex_h: u32,
        blend: BlendMode,
        opacity: i32,
        scale: i32,
        rotation: i32,
        offset_x: i32,
        offset_y: i32,
        tile: bool,
    },
}

impl FilterParams {
    /// The filter that the parameters are for.
    pub open spec fn spec_kind(self) -> StudioFilterKind {
        match self {
            FilterParams::Gaussian { .. } => StudioFilterKind::Gaussian,
            FilterParams::Motion { .. } => StudioFilterKind::Motion,
            FilterParams::Radial { .. } => StudioFilterKind::Radial,
            FilterParams::Unsharp { .. } => StudioFilterKind::Unsharp,
            FilterParams::BrightnessContrast { .. } => StudioFilterKind::BrightnessContrast,
            FilterParams::Levels { .. } => StudioFilterKind::Levels,
            FilterParams::Curves { .. } => StudioFilterKind::Curves,
            FilterParams::HueSaturation { .. } => StudioFilterKind::HueSaturation,
            FilterParams::ColorBalance { .. } => StudioFilterKind::ColorBalance,
            FilterParams::Invert => StudioFilterKind::Invert,
            FilterParams::Pixelize { .. } => StudioFilterKind::Pixelize,
            FilterParams::HexPixelize { .. } => StudioFilterKind::HexPixelize,
            FilterParams::TriPixelize { .. } => StudioFilterKind::TriPixelize,
            FilterParams::HexDots { .. } => StudioFilterKind::HexDots,
            FilterParams::Posterize { .. } => StudioFilterKind::Posterize,
            FilterParams::Crystallize { .. } => StudioFilterKind::Crystallize,
            FilterParams::Pointillize { .. } => StudioFilterKind::Pointillize,
            FilterParams::ColorHalftone { .. } => StudioFilterKind::ColorHalftone,
            FilterParams::Fisheye { .. } => StudioFilterKind::Fisheye,
            FilterParams::SphericalLens { .. } => StudioFilterKind::SphericalLens,
            FilterParams::Ripple { .. } => StudioFilterKind::Ripple,
            FilterParams::Twist { .. } => StudioFilterKind::Twist,
            FilterParams::ChromaticAberration { .. } => StudioFilterKind::ChromaticAberration,
            FilterParams::Noise { .. } => StudioFilterKind::Noise,
            FilterParams::Glitch { .. } => StudioFilterKind::Glitch,
            FilterParams::Vignette { .. } => StudioFilterKind::Vignette,
            FilterParams::Glow { .. } => StudioFilterKind::Glow,
            FilterParams::Sepia { .. } => StudioFilterKind::Sepia,
            FilterParams::FilmGrain { .. } => StudioFilterKind::FilmGrain,
            FilterParams::Dither { .. } => StudioFilterKind::Dither,
            FilterParams::ReplaceColor { .. } => StudioFilterKind::ReplaceColor,
            FilterParams::Outline { .. } => StudioFilterKind::Outline,
            FilterParams::OilPaint { .. } => StudioFilterKind::OilPaint,
            FilterParams::Watercolor { .. } => StudioFilterKind::Watercolor,
            FilterParams::Pencil { .. } => StudioFilterKind::Pencil,
            FilterParams::Pastel { .. } => StudioFilterKind::Pastel,
            FilterParams::PaperTexture { .. } => StudioFilterKind::PaperTexture,
            FilterParams::NeonGlow { .. } => StudioFilterKind::NeonGlow,
            FilterParams::LightRays { .. } => StudioFilterKind::LightRays,
            FilterParams::LensFlare { .. } => StudioFilterKind::LensFlare,
            FilterParams::DropShadow { .. } => StudioFilterKind::DropShadow,
            FilterParams::BevelEmboss { .. } => StudioFilterKind::BevelEmboss,
            FilterParams::Scanlines { .. } => StudioFilterKind::Scanlines,
            FilterParams::LiquidGlass { .. } => StudioFilterKind::LiquidGlass,
            FilterParams::Gradient { .. } => StudioFilterKind::Gradient,
            FilterParams::ImageOverlay { .. } => StudioFilterKind::ImageOverlay,
        }
    }

    pub fn kind(&self) -> (r: StudioFilterKind)
        ensures
            r == self.spec_kind(),
    {
        match self {
            FilterParams::Gaussian { .. } => StudioFilterKind::Gaussian,
            FilterParams::Motion { .. } => StudioFilterKind::Motion,
            FilterParams::Radial { .. } => StudioFilterKind::Radial,
            FilterParams::Unsharp { .. } => StudioFilterKind::Unsharp,
            FilterParams::BrightnessContrast { .. } => StudioFilterKind::BrightnessContrast,
            FilterParams::Levels { .. } => StudioFilterKind::Levels,
            FilterParams::Curves { .. } => StudioFilterKind::Curves,
            FilterParams::HueSaturation { .. } => StudioFilterKind::HueSaturation,
            FilterParams::ColorBalance { .. } => StudioFilterKind::ColorBalance,
            FilterParams::Invert => StudioFilterKind::Invert,
            FilterParams::Pixelize { .. } => StudioFilterKind::Pixelize,
            FilterParams::HexPixelize { .. } => StudioFilterKind::HexPixelize,
            FilterParams::TriPixelize { .. } => StudioFilterKind::TriPixelize,
            FilterParams::HexDots { .. } => StudioFilterKind::HexDots,
            FilterParams::Posterize { .. } => StudioFilterKind::Posterize,
            FilterParams::Crystallize { .. } => StudioFilterKind::Crystallize,
            FilterParams::Pointillize { .. } => StudioFilterKind::Pointillize,
            FilterParams::ColorHalftone { .. } => StudioFilterKind::ColorHalftone,
            FilterParams::Fisheye { .. } => StudioFilterKind::Fisheye,
            FilterParams::SphericalLens { .. } => StudioFilterKind::SphericalLens,
            FilterParams::Ripple { .. } => StudioFilterKind::Ripple,
            FilterParams::Twist { .. } => StudioFilterKind::Twist,
            FilterParams::ChromaticAberration { .. } => StudioFilterKind::ChromaticAberration,
            FilterParams::Noise { .. } => StudioFilterKind::Noise,
            FilterParams::Glitch { .. } => StudioFilterKind::Glitch,
            FilterParams::Vignette { .. } => StudioFilterKind::Vignette,
            FilterParams::Glow { .. } => StudioFilterKind::Glow,
            FilterParams::Sepia { .. } => StudioFilterKind::Sepia,
            FilterParams::FilmGrain { .. } => StudioFilterKind::FilmGrain,
            FilterParams::Dither { .. } => StudioFilterKind::Dither,
            FilterParams::ReplaceColor { .. } => StudioFilterKind::ReplaceColor,
            FilterParams::Outline { .. } => StudioFilterKind::Outline,
            FilterParams::OilPaint { .. } => StudioFilterKind::OilPaint,
            FilterParams::Watercolor { .. } => StudioFilterKind::Watercolor,
            FilterParams::Pencil { .. } => StudioFilterKind::Pencil,
            FilterParams::Pastel { .. } => StudioFilterKind::Pastel,
            FilterParams::PaperTexture { .. } => StudioFilterKind::PaperTexture,
            FilterParams::NeonGlow { .. } => StudioFilterKind::NeonGlow,
            FilterParams::LightRays { .. } => StudioFilterKind::LightRays,
            FilterParams::LensFlare { .. } => StudioFilterKind::LensFlare,
            FilterParams::DropShadow { .. } => StudioFilterKind::DropShadow,
            FilterParams::BevelEmboss { .. } => StudioFilterKind::BevelEmboss,
            FilterParams::Scanlines { .. } => StudioFilterKind::Scanlines,
            FilterParams::LiquidGlass { .. } => StudioFilterKind::LiquidGlass,
            FilterParams::Gradient { .. } => StudioFilterKind::Gradient,
            FilterParams::ImageOverlay { .. } => StudioFilterKind::ImageOverlay,
        }
    }

    /// What a new filter starts with. A curves filter, whose curves are lists,
    /// is described by `is_default` instead.
    pub open spec fn plain_default(kind: StudioFilterKind) -> Option<FilterParams> {
        match kind {
            StudioFilterKind::Gaussian => Some(FilterParams::Gaussian { radius: 4000 }),
            StudioFilterKind::Motion => Some(FilterParams::Motion { length: 12_000, angle: 0 }),
            StudioFilterKind::Radial => Some(FilterParams::Radial { amount: 12_000, zoom_mode: false }),
            StudioFilterKind::Unsharp => Some(FilterParams::Unsharp { amount: 50_000, radius: 1000 }),
            StudioFilterKind::BrightnessContrast => Some(FilterParams::BrightnessContrast { brightness: 0, contrast: 0 }),
            StudioFilterKind::Levels => Some(FilterParams::Levels {
                black: 0,
                mid: 500,
                white: 255_000,
                red: identity_levels(),
                green: identity_levels(),
                blue: identity_levels(),
                edit: ToneChannel::Rgb,
            }),
            StudioFilterKind::HueSaturation => Some(FilterParams::HueSaturation {
                hue: 0,
                saturation: 0,
                lightness: 0,
                colorize: false,
            }),
            StudioFilterKind::ColorBalance => Some(FilterParams::ColorBalance { cyan_red: 0, magenta_green: 0, yellow_blue: 0 }),
            StudioFilterKind::Invert => Some(FilterParams::Invert),
            StudioFilterKind::Pixelize => Some(FilterParams::Pixelize {
                method: PixelizeMethod::Mosaic,
                block: 8,
                soft_amount: 100_000,
            }),
            StudioFilterKind::HexPixelize => Some(FilterParams::HexPixelize { size: 12 }),
            StudioFilterKind::TriPixelize => Some(FilterParams::TriPixelize { size: 12 }),
            StudioFilterKind::HexDots => Some(FilterParams::HexDots { size: 12, fill_pct: 76_000, soft_edge: false }),
            StudioFilterKind::Posterize => Some(FilterParams::Posterize { levels: 8 }),
            StudioFilterKind::Crystallize => Some(FilterParams::Crystallize { size: 16 }),
            StudioFilterKind::Pointillize => Some(FilterParams::Pointillize { size: 10, density: 85_000, bg: rgb(255, 255, 255) }),
            StudioFilterKind::ColorHalftone => Some(FilterParams::ColorHalftone {
                size: 8,
                angle: 0,
                mode: HalftoneMode::Cmy,
                paper: HalftonePaper::Replace,
                bg: rgb(255, 255, 255),
                strength: 100_000,
                softness: 35_000,
                contrast: 100_000,
                angle_c: 15_000,
                angle_m: 75_000,
                angle_y: 0,
                angle_k: 45_000,
            }),
            StudioFilterKind::Fisheye => Some(FilterParams::Fisheye {
                model: FisheyeModel::Equidistant,
                amount: 450,
                radius: 100_000,
                center_x: 50_000,
                center_y: 50_000,
            }),
            StudioFilterKind::SphericalLens => Some(FilterParams::SphericalLens {
                amount: 350,
                radius: 100_000,
                center_x: 50_000,
                center_y: 50_000,
            }),
            StudioFilterKind::Ripple => Some(FilterParams::Ripple {
                mode: RippleMode::Circular,
                amount: 8000,
                wavelength: 32_000,
                angle: 0,
                center_x: 50_000,
                center_y: 50_000,
            }),
            StudioFilterKind::Twist => Some(FilterParams::Twist {
                amount: 1000,
                radius: 100_000,
                center_x: 50_000,
                center_y: 50_000,
            }),
            StudioFilterKind::ChromaticAberration => Some(FilterParams::ChromaticAberration {
                mode: ChromaMode::Radial,
                amount: 6000,
                angle: 0,
                center_atten: 55_000,
                red_scale: 1000,
                blue_scale: 1000,
            }),
            StudioFilterKind::Noise => Some(FilterParams::Noise {
                method: NoiseMethod::Soft,
                amount: 20_000,
                monochrome: true,
            }),
            StudioFilterKind::Glitch => Some(FilterParams::Glitch {
                method: GlitchMethod::SliceShift,
                amount: 35_000,
                slice_height: 12_000,
                max_shift: 24_000,
            }),
            StudioFilterKind::Vignette => Some(FilterParams::Vignette {
                shape: VignetteShape::Circle,
                amount: 55_000,
                softness: 55_000,
                roundness: 50_000,
                color: rgb(0, 0, 0),
            }),
            StudioFilterKind::Glow => Some(FilterParams::Glow {
                radius: 12_000,
                intensity: 60_000,
                tint: false,
                color: rgb(255, 220, 160),
            }),
            StudioFilterKind::Sepia => Some(FilterParams::Sepia { amount: 80_000, warmth: 50_000 }),
            StudioFilterKind::FilmGrain => Some(FilterParams::FilmGrain {
                amount: 35_000,
                size: 1000,
                roughness: 40_000,
                monochrome: true,
                shadow_bias: 20_000,
            }),
            StudioFilterKind::Dither => Some(FilterParams::Dither {
                method: DitherMethod::Bayer8,
                levels: 8,
                amount: 100_000,
                serpentine: true,
                pattern_size: 1000,
                monochrome: false,
            }),
            StudioFilterKind::ReplaceColor => Some(FilterParams::ReplaceColor {
                from: rgb(255, 0, 0),
                to: rgb(0, 128, 255),
                tolerance: 25_000,
                softness: 15_000,
                affect: ReplaceAffect::HueSat,
                amount: 100_000,
            }),
            StudioFilterKind::Outline => Some(FilterParams::Outline {
                thickness: 2000,
                threshold: 35_000,
                softness: 40_000,
                color: rgb(0, 0, 0),
                opacity: 100_000,
                mode: OutlineMode::Outer,
                use_luma: false,
            }),
            StudioFilterKind::OilPaint => Some(FilterParams::OilPaint { radius: 4000, levels: 16, strength: 100_000 }),
            StudioFilterKind::Watercolor => Some(FilterParams::Watercolor {
                blur: 3500,
                bleed: 55_000,
                edge: 45_000,
                saturation: 25_000,
                strength: 85_000,
            }),
            StudioFilterKind::Pencil => Some(FilterParams::Pencil {
                detail: 2500,
                darkness: 70_000,
                grain: 35_000,
                strength: 100_000,
            }),
            StudioFilterKind::Pastel => Some(FilterParams::Pastel {
                softness: 2500,
                chalk: 45_000,
                lighten: 25_000,
                strength: 80_000,
            }),
            StudioFilterKind::PaperTexture => Some(FilterParams::PaperTexture {
                amount: 40_000,
                scale: 3000,
                roughness: 55_000,
                warm: 30_000,
            }),
            StudioFilterKind::NeonGlow => Some(FilterParams::NeonGlow {
                radius: 10_000,
                intensity: 90_000,
                threshold: 35_000,
                color: rgb(80, 220, 255),
                core: 40_000,
            }),
            StudioFilterKind::LightRays => Some(FilterParams::LightRays {
                amount: 55_000,
                length: 48_000,
                center_x: 50_000,
                center_y: 35_000,
                decay: 45_000,
                tint: false,
                color: rgb(255, 230, 180),
            }),
            StudioFilterKind::LensFlare => Some(FilterParams::LensFlare {
                amount: 55_000,
                center_x: 70_000,
                center_y: 28_000,
                size: 36_000,
                streak: 45_000,
                color: rgb(255, 240, 210),
            }),
            StudioFilterKind::DropShadow => Some(FilterParams::DropShadow {
                angle: 135_000,
                distance: 8000,
                blur: 6000,
                opacity: 55_000,
                color: rgb(0, 0, 0),
            }),
            StudioFilterKind::BevelEmboss => Some(FilterParams::BevelEmboss {
                depth: 3000,
                soft: 1000,
                angle: 135_000,
                elevation: 40_000,
                mode: BevelMode::Bevel,
                strength: 70_000,
            }),
            StudioFilterKind::Scanlines => Some(FilterParams::Scanlines {
                spacing: 3000,
                thickness: 1200,
                opacity: 35_000,
                color: rgb(0, 0, 0),
                vertical: false,
                soft: true,
            }),
            StudioFilterKind::LiquidGlass => Some(FilterParams::LiquidGlass {
                mode: LiquidGlassMode::Droplet,
                radius: 35_000,
                center_x: 50_000,
                center_y: 50_000,
                spacing: 14_000,
                angle: 0,
                refraction: 55_000,
                specular: 70_000,
                rim: 45_000,
                softness: 25_000,
                chroma: 15_000,
                tint: rgb(180, 220, 255),
                tint_amount: 12_000,
            }),
            StudioFilterKind::Gradient => Some(FilterParams::Gradient {
                shape: GradientShape::Linear,
                angle: 90_000,
                spread: 100_000,
                center_x: 50_000,
                center_y: 50_000,
                color_a: rgb(255, 120, 60),
                color_b: rgb(80, 40, 160),
                opacity_a: 85_000,
                opacity_b: 85_000,
                amount: 55_000,
                blend: BlendMode::SoftLight,
                reverse: false,
            }),
            StudioFilterKind::ImageOverlay => Some(FilterParams::ImageOverlay {
                path: None,
                rgba: None,
                tex_w: 0,
                tex_h: 0,
                blend: BlendMode::Overlay,
                opacity: 55_000,
                scale: 100_000,
                rotation: 0,
                offset_x: 0,
                offset_y: 0,
                tile: true,
            }),
            StudioFilterKind::Curves => None,
        }
    }

    /// Whether the parameters are those that a new filter starts with.
    pub open spec fn is_default(self, kind: StudioFilterKind) -> bool {
        match kind {
            StudioFilterKind::Curves => {
                &&& self matches FilterParams::Curves { rgb, red, green, blue, edit }
                &&& rgb.points@ == TransferCurve::identity_points()
                &&& red.points@ == TransferCurve::identity_points()
                &&& green.points@ == TransferCurve::identity_points()
                &&& blue.points@ == TransferCurve::identity_points()
                &&& edit == ToneChannel::Rgb
            },
            _ => FilterParams::plain_default(kind) == Some(self),
        }
    }

    /// The parameters that a new filter starts with.
    pub fn defaults(kind: StudioFilterKind) -> (r: FilterParams)
        ensures
            r.is_default(kind),
            r.spec_kind() == kind,
    {
        match kind {
            StudioFilterKind::Gaussian => FilterParams::Gaussian { radius: 4000 },
            StudioFilterKind::Motion => FilterParams::Motion { length: 12_000, angle: 0 },
            StudioFilterKind::Radial => FilterParams::Radial { amount: 12_000, zoom_mode: false },
            StudioFilterKind::Unsharp => FilterParams::Unsharp { amount: 50_000, radius: 1000 },
            StudioFilterKind::BrightnessContrast => FilterParams::BrightnessContrast { brightness: 0, contrast: 0 },
            StudioFilterKind::Levels => FilterParams::Levels {
                black: 0,
                mid: 500,
                white: 255_000,
                red: identity_levels(),
                green: identity_levels(),
                blue: identity_levels(),
                edit: ToneChannel::Rgb,
            },
            StudioFilterKind::Curves => FilterParams::Curves {
                rgb: TransferCurve::identity(),
                red: TransferCurve::identity(),
                green: TransferCurve::identity(),
                blue: TransferCurve::identity(),
                edit: ToneChannel::Rgb,
            },
            StudioFilterKind::HueSaturation => FilterParams::HueSaturation {
                hue: 0,
                saturation: 0,
                lightness: 0,
                colorize: false,
            },
            StudioFilterKind::ColorBalance => FilterParams::ColorBalance { cyan_red: 0, magenta_green: 0, yellow_blue: 0 },
            StudioFilterKind::Invert => FilterParams::Invert,
            StudioFilterKind::Pixelize => FilterParams::Pixelize {
                method: PixelizeMethod::Mosaic,
                block: 8,
                soft_amount: 100_000,
            },
            StudioFilterKind::HexPixelize => FilterParams::HexPixelize { size: 12 },
            StudioFilterKind::TriPixelize => FilterParams::TriPixelize { size: 12 },
            StudioFilterKind::HexDots => FilterParams::HexDots { size: 12, fill_pct: 76_000, soft_edge: false },
            StudioFilterKind::Posterize => FilterParams::Posterize { levels: 8 },
            StudioFilterKind::Crystallize => FilterParams::Crystallize { size: 16 },
            StudioFilterKind::Pointillize => FilterParams::Pointillize { size: 10, density: 85_000, bg: rgb(255, 255, 255) },
            StudioFilterKind::ColorHalftone => FilterParams::ColorHalftone {
                size: 8,
                angle: 0,
                mode: HalftoneMode::Cmy,
                paper: HalftonePaper::Replace,
                bg: rgb(255, 255, 255),
                strength: 100_000,
                softness: 35_000,
                contrast: 100_000,
                angle_c: 15_000,
                angle_m: 75_000,
                angle_y: 0,
                angle_k: 45_000,
            },
            StudioFilterKind::Fisheye => FilterParams::Fisheye {
                model: FisheyeModel::Equidistant,
                amount: 450,
                radius: 100_000,
                center_x: 50_000,
                center_y: 50_000,
            },
            StudioFilterKind::SphericalLens => FilterParams::SphericalLens {
                amount: 350,
                radius: 100_000,
                center_x: 50_000,
                center_y: 50_000,
            },
            StudioFilterKind::Ripple => FilterParams::Ripple {
                mode: RippleMode::Circular,
                amount: 8000,
                wavelength: 32_000,
                angle: 0,
                center_x: 50_000,
                center_y: 50_000,
            },
            StudioFilterKind::Twist => FilterParams::Twist {
                amount: 1000,
                radius: 100_000,
                center_x: 50_000,
                center_y: 50_000,
            },
            StudioFilterKind::ChromaticAberration => FilterParams::ChromaticAberration {
                mode: ChromaMode::Radial,
                amount: 6000,
                angle: 0,
                center_atten: 55_000,
                red_scale: 1000,
                blue_scale: 1000,
            },
            StudioFilterKind::Noise => FilterParams::Noise {
                method: NoiseMethod::Soft,
                amount: 20_000,
                monochrome: true,
            },
            StudioFilterKind::Glitch => FilterParams::Glitch {
                method: GlitchMethod::SliceShift,
                amount: 35_000,
                slice_height: 12_000,
                max_shift: 24_000,
            },
            StudioFilterKind::Vignette => FilterParams::Vignette {
                shape: VignetteShape::Circle,
                amount: 55_000,
                softness: 55_000,
                roundness: 50_000,
                color: rgb(0, 0, 0),
            },
            StudioFilterKind::Glow => FilterParams::Glow {
                radius: 12_000,
                intensity: 60_000,
                tint: false,
                color: rgb(255, 220, 160),
            },
            StudioFilterKind::Sepia => FilterParams::Sepia { amount: 80_000, warmth: 50_000 },
            StudioFilterKind::FilmGrain => FilterParams::FilmGrain {
                amount: 35_000,
                size: 1000,
                roughness: 40_000,
                monochrome: true,
                shadow_bias: 20_000,
            },
            StudioFilterKind::Dither => FilterParams::Dither {
                method: DitherMethod::Bayer8,
                levels: 8,
                amount: 100_000,
                serpentine: true,
                pattern_size: 1000,
                monochrome: false,
            },
            StudioFilterKind::ReplaceColor => FilterParams::ReplaceColor {
                from: rgb(255, 0, 0),
                to: rgb(0, 128, 255),
                tolerance: 25_000,
                softness: 15_000,
                affect: ReplaceAffect::HueSat,
                amount: 100_000,
            },
            StudioFilterKind::Outline => FilterParams::Outline {
                thickness: 2000,
                threshold: 35_000,
                softness: 40_000,
                color: rgb(0, 0, 0),
                opacity: 100_000,
                mode: OutlineMode::Outer,
                use_luma: false,
            },
            StudioFilterKind::OilPaint => FilterParams::OilPaint { radius: 4000, levels: 16, strength: 100_000 },
            StudioFilterKind::Watercolor => FilterParams::Watercolor {
                blur: 3500,
                bleed: 55_000,
                edge: 45_000,
                saturation: 25_000,
                strength: 85_000,
            },
            StudioFilterKind::Pencil => FilterParams::Pencil {
                detail: 2500,
                darkness: 70_000,
                grain: 35_000,
                strength: 100_000,
            },
            StudioFilterKind::Pastel => FilterParams::Pastel {
                softness: 2500,
                chalk: 45_000,
                lighten: 25_000,
                strength: 80_000,
            },
            StudioFilterKind::PaperTexture => FilterParams::PaperTexture {
                amount: 40_000,
                scale: 3000,
                roughness: 55_000,
                warm: 30_000,
            },
            StudioFilterKind::NeonGlow => FilterParams::NeonGlow {
                radius: 10_000,
                intensity: 90_000,
                threshold: 35_000,
                color: rgb(80, 220, 255),
                core: 40_000,
            },
            StudioFilterKind::LightRays => FilterParams::LightRays {
                amount: 55_000,
                length: 48_000,
                center_x: 50_000,
                center_y: 35_000,
                decay: 45_000,
                tint: false,
                color: rgb(255, 230, 180),
            },
            StudioFilterKind::LensFlare => FilterParams::LensFlare {
                amount: 55_000,
                center_x: 70_000,
                center_y: 28_000,
                size: 36_000,
                streak: 45_000,
                color: rgb(255, 240, 210),
            },
            StudioFilterKind::DropShadow => FilterParams::DropShadow {
                angle: 135_000,
                distance: 8000,
                blur: 6000,
                opacity: 55_000,
                color: rgb(0, 0, 0),
            },
            StudioFilterKind::BevelEmboss => FilterParams::BevelEmboss {
                depth: 3000,
                soft: 1000,
                angle: 135_000,
                elevation: 40_000,
                mode: BevelMode::Bevel,
                strength: 70_000,
            },
            StudioFilterKind::Scanlines => FilterParams::Scanlines {
                spacing: 3000,
                thickness: 1200,
                opacity: 35_000,
                color: rgb(0, 0, 0),
                vertical: false,
                soft: true,
            },
            StudioFilterKind::LiquidGlass => FilterParams::LiquidGlass {
                mode: LiquidGlassMode::Droplet,
                radius: 35_000,
                center_x: 50_000,
                center_y: 50_000,
                spacing: 14_000,
                angle: 0,
                refraction: 55_000,
                specular: 70_000,
                rim: 45_000,
                softness: 25_000,
                chroma: 15_000,
                tint: rgb(180, 220, 255),
                tint_amount: 12_000,
            },
            StudioFilterKind::Gradient => FilterParams::Gradient {
                shape: GradientShape::Linear,
                angle: 90_000,
                spread: 100_000,
                center_x: 50_000,
                center_y: 50_000,
                color_a: rgb(255, 120, 60),
                color_b: rgb(80, 40, 160),
                opacity_a: 85_000,
                opacity_b: 85_000,
                amount: 55_000,
                blend: BlendMode::SoftLight,
                reverse: false,
            },
            StudioFilterKind::ImageOverlay => FilterParams::ImageOverlay {
                path: None,
                rgba: None,
                tex_w: 0,
                tex_h: 0,
                blend: BlendMode::Overlay,
                opacity: 55_000,
                scale: 100_000,
                rotation: 0,
                offset_x: 0,
                offset_y: 0,
                tile: true,
            },
        }
    }

    /// Whether two parameter sets have the same values.
    pub open spec fn same(self, other: FilterParams) -> bool {
        match (self, other) {
            (
                FilterParams::Curves { rgb, red, green, blue, edit },
                FilterParams::Curves { rgb: rgb2, red: red2, green: green2, blue: blue2, edit: edit2 },
            ) => {
                &&& rgb.points@ == rgb2.points@
                &&& red.points@ == red2.points@
                &&& green.points@ == green2.points@
                &&& blue.points@ == blue2.points@
                &&& edit == edit2
            },
            (
                FilterParams::ImageOverlay {
                    path,
                    rgba,
                    tex_w,
                    tex_h,
                    blend,
                    opacity,
                    scale,
                    rotation,
                    offset_x,
                    offset_y,
                    tile,
                },
                FilterParams::ImageOverlay {
                    path: path2,
                    rgba: rgba2,
                    tex_w: tex_w2,
                    tex_h: tex_h2,
                    blend: blend2,
                    opacity: opacity2,
                    scale: scale2,
                    rotation: rotation2,
                    offset_x: offset_x2,
                    offset_y: offset_y2,
                    tile: tile2,
                },
            ) => {
                &&& opt_text(path) == opt_text(path2)
                &&& opt_bytes(rgba) == opt_bytes(rgba2)
                &&& (tex_w, tex_h, blend, opacity, scale) == (tex_w2, tex_h2, blend2, opacity2, scale2)
                &&& (rotation, offset_x, offset_y, tile) == (rotation2, offset_x2, offset_y2, tile2)
            },
            _ => self == other,
        }
    }

    /// Parameters with the same values.
    pub fn copy(&self) -> (r: FilterParams)
        ensures
            self.same(r),
            r.spec_kind() == self.spec_kind(),
    {
        match self {
            FilterParams::Gaussian { radius } => FilterParams::Gaussian { radius: *radius },
            FilterParams::Motion { length, angle } => FilterParams::Motion {
                length: *length,
                angle: *angle,
            },
            FilterParams::Radial { amount, zoom_mode } => FilterParams::Radial {
                amount: *amount,
                zoom_mode: *zoom_mode,
            },
            FilterParams::Unsharp { amount, radius } => FilterParams::Unsharp {
                amount: *amount,
                radius: *radius,
            },
            FilterParams::BrightnessContrast { brightness, contrast } => FilterParams::BrightnessContrast {
                brightness: *brightness,
                contrast: *contrast,
            },
            FilterParams::Levels { black, mid, white, red, green, blue, edit } => FilterParams::Levels {
                black: *black,
                mid: *mid,
                white: *white,
                red: *red,
                green: *green,
                blue: *blue,
                edit: *edit,
            },
            FilterParams::Curves { rgb, red, green, blue, edit } => FilterParams::Curves {
                rgb: rgb.copy(),
                red: red.copy(),
                green: green.copy(),
                blue: blue.copy(),
                edit: *edit,
            },
            FilterParams::HueSaturation { hue, saturation, lightness, colorize } => FilterParams::HueSaturation {
                hue: *hue,
                saturation: *saturation,
                lightness: *lightness,
                colorize: *colorize,
            },
            FilterParams::ColorBalance { cyan_red, magenta_green, yellow_blue } => FilterParams::ColorBalance {
                cyan_red: *cyan_red,
                magenta_green: *magenta_green,
                yellow_blue: *yellow_blue,
            },
            FilterParams::Invert => FilterParams::Invert,
            FilterParams::Pixelize { method, block, soft_amount } => FilterParams::Pixelize {
                method: *method,
                block: *block,
                soft_amount: *soft_amount,
            },
            FilterParams::HexPixelize { size } => FilterParams::HexPixelize { size: *size },
            FilterParams::TriPixelize { size } => FilterParams::TriPixelize { size: *size },
            FilterParams::HexDots { size, fill_pct, soft_edge } => FilterParams::HexDots {
                size: *size,
                fill_pct: *fill_pct,
                soft_edge: *soft_edge,
            },
            FilterParams::Posterize { levels } => FilterParams::Posterize { levels: *levels },
            FilterParams::Crystallize { size } => FilterParams::Crystallize { size: *size },
            FilterParams::Pointillize { size, density, bg } => FilterParams::Pointillize {
                size: *size,
                density: *density,
                bg: *bg,
            },
            FilterParams::ColorHalftone {
                size,
                angle,
                mode,
                paper,
                bg,
                strength,
                softness,
                contrast,
                angle_c,
                angle_m,
                angle_y,
                angle_k,
            } => FilterParams::ColorHalftone {
                size: *size,
                angle: *angle,
                mode: *mode,
                paper: *paper,
                bg: *bg,
                strength: *strength,
                softness: *softness,
                contrast: *contrast,
                angle_c: *angle_c,
                angle_m: *angle_m,
                angle_y: *angle_y,
                angle_k: *angle_k,
            },
            FilterParams::Fisheye { model, amount, radius, center_x, center_y } => FilterParams::Fisheye {
                model: *model,
                amount: *amount,
                radius: *radius,
                center_x: *center_x,
                center_y: *center_y,
            },
            FilterParams::SphericalLens { amount, radius, center_x, center_y } => FilterParams::SphericalLens {
                amount: *amount,
                radius: *radius,
                center_x: *center_x,
                center_y: *center_y,
            },
            FilterParams::Ripple { mode, amount, wavelength, angle, center_x, center_y } => FilterParams::Ripple {
                mode: *mode,
                amount: *amount,
                wavelength: *wavelength,
                angle: *angle,
                center_x: *center_x,
                center_y: *center_y,
            },
            FilterParams::Twist { amount, radius, center_x, center_y } => FilterParams::Twist {
                amount: *amount,
                radius: *radius,
                center_x: *center_x,
                center_y: *center_y,
            },
            FilterParams::ChromaticAberration {
                mode,
                amount,
                angle,
                center_atten,
                red_scale,
                blue_scale,
            } => FilterParams::ChromaticAberration {
                mode: *mode,
                amount: *amount,
                angle: *angle,
                center_atten: *center_atten,
                red_scale: *red_scale,
                blue_scale: *blue_scale,
            },
            FilterParams::Noise { method, amount, monochrome } => FilterParams::Noise {
                method: *method,
                amount: *amount,
                monochrome: *monochrome,
            },
            FilterParams::Glitch { method, amount, slice_height, max_shift } => FilterParams::Glitch {
                method: *method,
                amount: *amount,
                slice_height: *slice_height,
                max_shift: *max_shift,
            },
            FilterParams::Vignette { shape, amount, softness, roundness, color } => FilterParams::Vignette {
                shape: *shape,
                amount: *amount,
                softness: *softness,
                roundness: *roundness,
                color: *color,
            },
            FilterParams::Glow { radius, intensity, tint, color } => FilterParams::Glow {
                radius: *radius,
                intensity: *intensity,
                tint: *tint,
                color: *color,
            },
            FilterParams::Sepia { amount, warmth } => FilterParams::Sepia {
                amount: *amount,
                warmth: *warmth,
            },
            FilterParams::FilmGrain { amount, size, roughness, monochrome, shadow_bias } => FilterParams::FilmGrain {
                amount: *amount,
                size: *size,
                roughness: *roughness,
                monochrome: *monochrome,
                shadow_bias: *shadow_bias,
            },
            FilterParams::Dither {
                method,
                levels,
                amount,
                serpentine,
                pattern_size,
                monochrome,
            } => FilterParams::Dither {
                method: *method,
                levels: *levels,
                amount: *amount,
                serpentine: *serpentine,
                pattern_size: *pattern_size,
                monochrome: *monochrome,
            },
            FilterParams::ReplaceColor { from, to, tolerance, softness, affect, amount } => FilterParams::ReplaceColor {
                from: *from,
                to: *to,
                tolerance: *tolerance,
                softness: *softness,
                affect: *affect,
                amount: *amount,
            },
            FilterParams::Outline {
                thickness,
                threshold,
                softness,
                color,
                opacity,
                mode,
                use_luma,
            } => FilterParams::Outline {
                thickness: *thickness,
                threshold: *threshold,
                softness: *softness,
                color: *color,
                opacity: *opacity,
                mode: *mode,
                use_luma: *use_luma,
            },
            FilterParams::OilPaint { radius, levels, strength } => FilterParams::OilPaint {
                radius: *radius,
                levels: *levels,
                strength: *strength,
            },
            FilterParams::Watercolor { blur, bleed, edge, saturation, strength } => FilterParams::Watercolor {
                blur: *blur,
                bleed: *bleed,
                edge: *edge,
                saturation: *saturation,
                strength: *strength,
            },
            FilterParams::Pencil { detail, darkness, grain, strength } => FilterParams::Pencil {
                detail: *detail,
                darkness: *darkness,
                grain: *grain,
                strength: *strength,
            },
            FilterParams::Pastel { softness, chalk, lighten, strength } => FilterParams::Pastel {
                softness: *softness,
                chalk: *chalk,
                lighten: *lighten,
                strength: *strength,
            },
            FilterParams::PaperTexture { amount, scale, roughness, warm } => FilterParams::PaperTexture {
                amount: *amount,
                scale: *scale,
                roughness: *roughness,
                warm: *warm,
            },
            FilterParams::NeonGlow { radius, intensity, threshold, color, core } => FilterParams::NeonGlow {
                radius: *radius,
                intensity: *intensity,
                threshold: *threshold,
                color: *color,
                core: *core,
            },
            FilterParams::LightRays {
                amount,
                length,
                center_x,
                center_y,
                decay,
                tint,
                color,
            } => FilterParams::LightRays {
                amount: *amount,
                length: *length,
                center_x: *center_x,
                center_y: *center_y,
                decay: *decay,
                tint: *tint,
                color: *color,
            },
            FilterParams::LensFlare { amount, center_x, center_y, size, streak, color } => FilterParams::LensFlare {
                amount: *amount,
                center_x: *center_x,
                center_y: *center_y,
                size: *size,
                streak: *streak,
                color: *color,
            },
            FilterParams::DropShadow { angle, distance, blur, opacity, color } => FilterParams::DropShadow {
                angle: *angle,
                distance: *distance,
                blur: *blur,
                opacity: *opacity,
                color: *color,
            },
            FilterParams::BevelEmboss { depth, soft, angle, elevation, mode, strength } => FilterParams::BevelEmboss {
                depth: *depth,
                soft: *soft,
                angle: *angle,
                elevation: *elevation,
                mode: *mode,
                strength: *strength,
            },
            FilterParams::Scanlines { spacing, thickness, opacity, color, vertical, soft } => FilterParams::Scanlines {
                spacing: *spacing,
                thickness: *thickness,
                opacity: *opacity,
                color: *color,
                vertical: *vertical,
                soft: *soft,
            },
            FilterParams::LiquidGlass {
                mode,
                radius,
                center_x,
                center_y,
                spacing,
                angle,
                refraction,
                specular,
                rim,
                softness,
                chroma,
                tint,
                tint_amount,
            } => FilterParams::LiquidGlass {
                mode: *mode,
                radius: *radius,
                center_x: *center_x,
                center_y: *center_y,
                spacing: *spacing,
                angle: *angle,
                refraction: *refraction,
                specular: *specular,
                rim: *rim,
                softness: *softness,
                chroma: *chroma,
                tint: *tint,
                tint_amount: *tint_amount,
            },
            FilterParams::Gradient {
                shape,
                angle,
                spread,
                center_x,
                center_y,
                color_a,
                color_b,
                opacity_a,
                opacity_b,
                amount,
                blend,
                reverse,
            } => FilterParams::Gradient {
                shape: *shape,
                angle: *angle,
                spread: *spread,
                center_x: *center_x,
                center_y: *center_y,
                color_a: *color_a,
                color_b: *color_b,
                opacity_a: *opacity_a,
                opacity_b: *opacity_b,
                amount: *amount,
                blend: *blend,
                reverse: *reverse,
            },
            FilterParams::ImageOverlay {
                path,
                rgba,
                tex_w,
                tex_h,
                blend,
                opacity,
                scale,
                rotation,
                offset_x,
                offset_y,
                tile,
            } => FilterParams::ImageOverlay {
                path: copy_text(path),
                rgba: copy_bytes(rgba),
                tex_w: *tex_w,
                tex_h: *tex_h,
                blend: *blend,
                opacity: *opacity,
                scale: *scale,
                rotation: *rotation,
                offset_x: *offset_x,
                offset_y: *offset_y,
                tile: *tile,
            },
        }
    }
}

pub open spec fn opt_text(s: Option<String>) -> Option<Seq<char>> {
    match s {
        Some(t) => Some(t@),
        None => None,
    }
}

pub open spec fn opt_bytes(s: Option<Vec<u8>>) -> Option<Seq<u8>> {
    match s {
        Some(t) => Some(t@),
        None => None,
    }
}

fn copy_text(s: &Option<String>) -> (r: Option<String>)
    ensures
        opt_text(r) == opt_text(*s),
{
    match s {
        Some(t) => Some(t.clone()),
        None => None,
    }
}

fn copy_bytes(s: &Option<Vec<u8>>) -> (r: Option<Vec<u8>>)
    ensures
        opt_bytes(r) == opt_bytes(*s),
{
    match s {
        Some(t) => {
            let c = t.clone();
            assert(c@ =~= t@);
            Some(c)
        },
        None => None,
    }
}

} // verus!
