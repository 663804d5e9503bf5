//! The choices that filters offer, and the small values in their parameters.
use vstd::prelude::*;

verus! {

/// A colour.
#[derive(Clone, Copy, Debug, PartialEq, Eq, Hash, Structural)]
pub struct Rgb {
    pub r: u8,
    pub g: u8,
    pub b: u8,
}

/// The colour with the given parts.
#[verifier::allow_in_spec]
pub fn rgb(r: u8, g: u8, b: u8) -> Rgb
    returns
        (Rgb { r, g, b }),
{
    Rgb { r, g, b }
}

/// The channel that a tone editor shows.
#[derive(Clone, Copy, Debug, PartialEq, Eq, Hash, Structural)]
pub enum ToneChannel {
    Rgb,
    Red,
    Green,
    Blue,
}

/// The black point, the midtone and the white point of a channel.
#[derive(Clone, Copy, Debug, PartialEq, Eq, Hash, Structural)]
pub struct LevelsChannel {
    pub black: i32,
    pub mid: i32,
    pub white: i32,
}

/// The levels that change nothing.
#[verifier::allow_in_spec]
pub fn identity_levels() -> LevelsChannel
    returns
        (LevelsChannel { black: 0, mid: 500, white: 255_000 }),
{
    LevelsChannel { black: 0, mid: 500, white: 255_000 }
}

/// A tone curve by its points, each an input and an output.
pub struct TransferCurve {
    pub points: Vec<(i32, i32)>,
}

impl TransferCurve {
    /// The points of the curve that changes nothing.
    pub open spec fn identity_points() -> Seq<(i32, i32)> {
        seq![(0i32, 0i32), (1000i32, 1000i32)]
    }

    pub fn identity() -> (r: TransferCurve)
        ensures
            r.points@ == TransferCurve::identity_points(),
    {
        let mut points: Vec<(i32, i32)> = Vec::new();
        points.push((0i32, 0i32));
        points.push((1000i32, 1000i32));
        assert(points@ =~= TransferCurve::identity_points());
        TransferCurve { points }
    }

    /// A curve with the same points.
    pub fn copy(&self) -> (r: TransferCurve)
        ensures
            r.points@ == self.points@,
    {
        let mut points: Vec<(i32, i32)> = Vec::new();
        let mut i: usize = 0;
        while i < self.points.len()
            invariant
                i <= self.points.len(),
                points@ == self.points@.take(i as int),
            decreases self.points.len() - i,
        {
            points.push(self.points[i]);
            i += 1;
            assert(points@ =~= self.points@.take(i as int));
        }
        assert(self.points@.take(i as int) =~= self.points@);
        TransferCurve { points }
    }
}

/// How a filter's result is laid over the image. Modes that no filter starts
/// with go by their number.
#[derive(Clone, Copy, Debug, PartialEq, Eq, Hash, Structural)]
pub enum BlendMode {
    Normal,
    Screen,
    Overlay,
    SoftLight,
    Color,
    Other(u8),
}

impl BlendMode {
    pub open spec fn ord(self) -> int {
        match self {
            BlendMode::Normal => 0,
            BlendMode::Screen => 1,
            BlendMode::Overlay => 2,
            BlendMode::SoftLight => 3,
            BlendMode::Color => 4,
            BlendMode::Other(n) => 5 + n,
        }
    }

    pub fn ordinal(self) -> (r: i128)
        ensures
            r == self.ord(),
    {
        match self {
            BlendMode::Normal => 0,
            BlendMode::Screen => 1,
            BlendMode::Overlay => 2,
            BlendMode::SoftLight => 3,
            BlendMode::Color => 4,
            BlendMode::Other(n) => 5 + n as i128,
        }
    }
}

/// How blocks are filled.
#[derive(Clone, Copy, Debug, PartialEq, Eq, Hash, Structural)]
pub enum PixelizeMethod {
    Mosaic,
    Soft,
}

impl PixelizeMethod {
    pub open spec fn ord(self) -> int {
        match self {
            PixelizeMethod::Mosaic => 0,
            PixelizeMethod::Soft => 1,
        }
    }

    pub fn ordinal(self) -> (r: i128)
        ensures
            r == self.ord(),
    {
        match self {
            PixelizeMethod::Mosaic => 0,
            PixelizeMethod::Soft => 1,
        }
    }
}

/// The inks of a halftone.
#[derive(Clone, Copy, Debug, PartialEq, Eq, Hash, Structural)]
pub enum HalftoneMode {
    Cmy,
    Cmyk,
    Rgb,
    Mono,
}

impl HalftoneMode {
    pub open spec fn ord(self) -> int {
        match self {
            HalftoneMode::Cmy => 0,
            HalftoneMode::Cmyk => 1,
            HalftoneMode::Rgb => 2,
            HalftoneMode::Mono => 3,
        }
    }

    pub fn ordinal(self) -> (r: i128)
        ensures
            r == self.ord(),
    {
        match self {
            HalftoneMode::Cmy => 0,
            HalftoneMode::Cmyk => 1,
            HalftoneMode::Rgb => 2,
            HalftoneMode::Mono => 3,
        }
    }
}

/// What halftone dots are printed on.
#[derive(Clone, Copy, Debug, PartialEq, Eq, Hash, Structural)]
pub enum HalftonePaper {
    Replace,
    Overlay,
    Multiply,
}

impl HalftonePaper {
    pub open spec fn ord(self) -> int {
        match self {
            HalftonePaper::Replace => 0,
            HalftonePaper::Overlay => 1,
            HalftonePaper::Multiply => 2,
        }
    }

    pub fn ordinal(self) -> (r: i128)
        ensures
            r == self.ord(),
    {
        match self {
            HalftonePaper::Replace => 0,
            HalftonePaper::Overlay => 1,
            HalftonePaper::Multiply => 2,
        }
    }
}

/// A lens mapping.
#[derive(Clone, Copy, Debug, PartialEq, Eq, Hash, Structural)]
pub enum FisheyeModel {
    Barrel,
    Equidistant,
    Equisolid,
    Stereographic,
    Orthographic,
}

impl FisheyeModel {
    pub open spec fn ord(self) -> int {
        match self {
            FisheyeModel::Barrel => 0,
            FisheyeModel::Equidistant => 1,
            FisheyeModel::Equisolid => 2,
            FisheyeModel::Stereographic => 3,
            FisheyeModel::Orthographic => 4,
        }
    }

    pub fn ordinal(self) -> (r: i128)
        ensures
            r == self.ord(),
    {
        match self {
            FisheyeModel::Barrel => 0,
            FisheyeModel::Equidistant => 1,
            FisheyeModel::Equisolid => 2,
            FisheyeModel::Stereographic => 3,
            FisheyeModel::Orthographic => 4,
        }
    }
}

/// The direction of a ripple.
#[derive(Clone, Copy, Debug, PartialEq, Eq, Hash, Structural)]
pub enum RippleMode {
    Circular,
    Linear,
}

impl RippleMode {
    pub open spec fn ord(self) -> int {
        match self {
            RippleMode::Circular => 0,
            RippleMode::Linear => 1,
        }
    }

    pub fn ordinal(self) -> (r: i128)
        ensures
            r == self.ord(),
    {
        match self {
            RippleMode::Circular => 0,
            RippleMode::Linear => 1,
        }
    }
}

/// The direction of a colour fringe.
#[derive(Clone, Copy, Debug, PartialEq, Eq, Hash, Structural)]
pub enum ChromaMode {
    Radial,
    Linear,
    Tangential,
}

impl ChromaMode {
    pub open spec fn ord(self) -> int {
        match self {
            ChromaMode::Radial => 0,
            ChromaMode::Linear => 1,
            ChromaMode::Tangential => 2,
        }
    }

    pub fn ordinal(self) -> (r: i128)
        ensures
            r == self.ord(),
    {
        match self {
            ChromaMode::Radial => 0,
            ChromaMode::Linear => 1,
            ChromaMode::Tangential => 2,
        }
    }
}

/// A kind of noise.
#[derive(Clone, Copy, Debug, PartialEq, Eq, Hash, Structural)]
pub enum NoiseMethod {
    Soft,
    Uniform,
    SaltPepper,
}

impl NoiseMethod {
    pub open spec fn ord(self) -> int {
        match self {
            NoiseMethod::Soft => 0,
            NoiseMethod::Uniform => 1,
            NoiseMethod::SaltPepper => 2,
        }
    }

    pub fn ordinal(self) -> (r: i128)
        ensures
            r == self.ord(),
    {
        match self {
            NoiseMethod::Soft => 0,
            NoiseMethod::Uniform => 1,
            NoiseMethod::SaltPepper => 2,
        }
    }
}

/// A kind of glitch.
#[derive(Clone, Copy, Debug, PartialEq, Eq, Hash, Structural)]
pub enum GlitchMethod {
    SliceShift,
    ChannelTear,
    BlockDisplace,
}

impl GlitchMethod {
    pub open spec fn ord(self) -> int {
        match self {
            GlitchMethod::SliceShift => 0,
            GlitchMethod::ChannelTear => 1,
            GlitchMethod::BlockDisplace => 2,
        }
    }

    pub fn ordinal(self) -> (r: i128)
        ensures
            r == self.ord(),
    {
        match self {
            GlitchMethod::SliceShift => 0,
            GlitchMethod::ChannelTear => 1,
            GlitchMethod::BlockDisplace => 2,
        }
    }
}

/// The outline of a vignette.
#[derive(Clone, Copy, Debug, PartialEq, Eq, Hash, Structural)]
pub enum VignetteShape {
    Circle,
    Ellipse,
}

impl VignetteShape {
    pub open spec fn ord(self) -> int {
        match self {
            VignetteShape::Circle => 0,
            VignetteShape::Ellipse => 1,
        }
    }

    pub fn ordinal(self) -> (r: i128)
        ensures
            r == self.ord(),
    {
        match self {
            VignetteShape::Circle => 0,
            VignetteShape::Ellipse => 1,
        }
    }
}

/// A dithering pattern.
#[derive(Clone, Copy, Debug, PartialEq, Eq, Hash, Structural)]
pub enum DitherMethod {
    Bayer2,
    Bayer4,
    Bayer8,
    FloydSteinberg,
}

impl DitherMethod {
    pub open spec fn ord(self) -> int {
        match self {
            DitherMethod::Bayer2 => 0,
            DitherMethod::Bayer4 => 1,
            DitherMethod::Bayer8 => 2,
            DitherMethod::FloydSteinberg => 3,
        }
    }

    pub fn ordinal(self) -> (r: i128)
        ensures
            r == self.ord(),
    {
        match self {
            DitherMethod::Bayer2 => 0,
            DitherMethod::Bayer4 => 1,
            DitherMethod::Bayer8 => 2,
            DitherMethod::FloydSteinberg => 3,
        }
    }
}

/// What of a colour is replaced.
#[derive(Clone, Copy, Debug, PartialEq, Eq, Hash, Structural)]
pub enum ReplaceAffect {
    HueSat,
    HueOnly,
    FullRgb,
}

impl ReplaceAffect {
    pub open spec fn ord(self) -> int {
        match self {
            ReplaceAffect::HueSat => 0,
            ReplaceAffect::HueOnly => 1,
            ReplaceAffect::FullRgb => 2,
        }
    }

    pub fn ordinal(self) -> (r: i128)
        ensures
            r == self.ord(),
    {
        match self {
            ReplaceAffect::HueSat => 0,
            ReplaceAffect::HueOnly => 1,
            ReplaceAffect::FullRgb => 2,
        }
    }
}

/// Where an outline lies.
#[derive(Clone, Copy, Debug, PartialEq, Eq, Hash, Structural)]
pub enum OutlineMode {
    Outer,
    Inner,
    Center,
}

impl OutlineMode {
    pub open spec fn ord(self) -> int {
        match self {
            OutlineMode::Outer => 0,
            OutlineMode::Inner => 1,
            OutlineMode::Center => 2,
        }
    }

    pub fn ordinal(self) -> (r: i128)
        ensures
            r == self.ord(),
    {
        match self {
            OutlineMode::Outer => 0,
            OutlineMode::Inner => 1,
            OutlineMode::Center => 2,
        }
    }
}

/// A kind of relief.
#[derive(Clone, Copy, Debug, PartialEq, Eq, Hash, Structural)]
pub enum BevelMode {
    Bevel,
    Emboss,
}

impl BevelMode {
    pub open spec fn ord(self) -> int {
        match self {
            BevelMode::Bevel => 0,
            BevelMode::Emboss => 1,
        }
    }

    pub fn ordinal(self) -> (r: i128)
        ensures
            r == self.ord(),
    {
        match self {
            BevelMode::Bevel => 0,
            BevelMode::Emboss => 1,
        }
    }
}

/// The shape of a glass body.
#[derive(Clone, Copy, Debug, PartialEq, Eq, Hash, Structural)]
pub enum LiquidGlassMode {
    Droplet,
    Selection,
    Ribbed,
}

impl LiquidGlassMode {
    pub open spec fn ord(self) -> int {
        match self {
            LiquidGlassMode::Droplet => 0,
            LiquidGlassMode::Selection => 1,
            LiquidGlassMode::Ribbed => 2,
        }
    }

    pub fn ordinal(self) -> (r: i128)
        ensures
            r == self.ord(),
    {
        match self {
            LiquidGlassMode::Droplet => 0,
            LiquidGlassMode::Selection => 1,
            LiquidGlassMode::Ribbed => 2,
        }
    }
}

/// The shape of a gradient.
#[derive(Clone, Copy, Debug, PartialEq, Eq, Hash, Structural)]
pub enum GradientShape {
    Linear,
    Radial,
    Angle,
}

impl GradientShape {
    pub open spec fn ord(self) -> int {
        match self {
            GradientShape::Linear => 0,
            GradientShape::Radial => 1,
            GradientShape::Angle => 2,
        }
    }

    pub fn ordinal(self) -> (r: i128)
        ensures
            r == self.ord(),
    {
        match self {
            GradientShape::Linear => 0,
            GradientShape::Radial => 1,
            GradientShape::Angle => 2,
        }
    }
}

} // verus!
