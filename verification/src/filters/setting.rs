//! Setting the controls of a filter: what each writes, and what its choices are
//! called.
use vstd::prelude::*;
use crate::filters::choice::{
    BevelMode, BlendMode, ChromaMode, DitherMethod, FisheyeModel, GlitchMethod, GradientShape,
    HalftoneMode, HalftonePaper, LevelsChannel, LiquidGlassMode, NoiseMethod, OutlineMode,
    PixelizeMethod, ReplaceAffect, Rgb, RippleMode, ToneChannel, VignetteShape,
};
use crate::filters::control::Control;
use crate::filters::params::FilterParams;
use crate::filters::tone::{colorize_toggled, levels_of, set_levels, toggle_colorize, with_levels};
use crate::text::same_text;

verus! {

/// A value for a control. A choice is told by its number.
#[derive(Clone, Copy)]
pub enum ControlValue {
    Slider(i32),
    Count(u32),
    Choice(i128),
    Colour(Rgb),
    Switch(bool),
}

impl Control {
    pub open spec fn label_text(self) -> Seq<char> {
        match self {
            Control::Slider { label, .. } => label@,
            Control::Count { label, .. } => label@,
            Control::Choice { label, .. } => label@,
            Control::Colour { label, .. } => label@,
            Control::Switch { label, .. } => label@,
        }
    }

    /// What the control is called.
    pub fn label(&self) -> (r: &'static str)
        ensures
            r@ == self.label_text(),
    {
        match self {
            Control::Slider { label, .. } => label,
            Control::Count { label, .. } => label,
            Control::Choice { label, .. } => label,
            Control::Colour { label, .. } => label,
            Control::Switch { label, .. } => label,
        }
    }
}

/// A slider's value after the control `label` was set, where it goes by `name`.
pub open spec fn slid(label: Seq<char>, name: Seq<char>, v: ControlValue, old: i32) -> i32 {
    match v {
        ControlValue::Slider(x) => if label == name {
            x
        } else {
            old
        },
        _ => old,
    }
}

fn put_slid(label: &str, name: &str, v: ControlValue, old: i32) -> (r: i32)
    ensures
        r == slid(label@, name@, v, old),
{
    match v {
        ControlValue::Slider(x) => if same_text(label, name) {
            x
        } else {
            old
        },
        _ => old,
    }
}

/// A count after the control `label` was set, where it goes by `name`.
pub open spec fn counted(label: Seq<char>, name: Seq<char>, v: ControlValue, old: u32) -> u32 {
    match v {
        ControlValue::Count(x) => if label == name {
            x
        } else {
            old
        },
        _ => old,
    }
}

fn put_counted(label: &str, name: &str, v: ControlValue, old: u32) -> (r: u32)
    ensures
        r == counted(label@, name@, v, old),
{
    match v {
        ControlValue::Count(x) => if same_text(label, name) {
            x
        } else {
            old
        },
        _ => old,
    }
}

/// A colour after the control `label` was set, where it goes by `name`.
pub open spec fn coloured(label: Seq<char>, name: Seq<char>, v: ControlValue, old: Rgb) -> Rgb {
    match v {
        ControlValue::Colour(x) => if label == name {
            x
        } else {
            old
        },
        _ => old,
    }
}

fn put_coloured(label: &str, name: &str, v: ControlValue, old: Rgb) -> (r: Rgb)
    ensures
        r == coloured(label@, name@, v, old),
{
    match v {
        ControlValue::Colour(x) => if same_text(label, name) {
            x
        } else {
            old
        },
        _ => old,
    }
}

/// A switch after the control `label` was set, where it goes by `name`.
pub open spec fn switched(label: Seq<char>, name: Seq<char>, v: ControlValue, old: bool) -> bool {
    match v {
        ControlValue::Switch(x) => if label == name {
            x
        } else {
            old
        },
        _ => old,
    }
}

fn put_switched(label: &str, name: &str, v: ControlValue, old: bool) -> (r: bool)
    ensures
        r == switched(label@, name@, v, old),
{
    match v {
        ControlValue::Switch(x) => if same_text(label, name) {
            x
        } else {
            old
        },
        _ => old,
    }
}

/// The number of the choice that the control `label` was set to, where it goes by
/// `name`.
pub open spec fn picked(label: Seq<char>, name: Seq<char>, v: ControlValue) -> Option<i128> {
    match v {
        ControlValue::Choice(n) => if label == name {
            Some(n)
        } else {
            None
        },
        _ => None,
    }
}

fn pick(label: &str, name: &str, v: ControlValue) -> (r: Option<i128>)
    ensures
        r == picked(label@, name@, v),
{
    match v {
        ControlValue::Choice(n) => if same_text(label, name) {
            Some(n)
        } else {
            None
        },
        _ => None,
    }
}

pub open spec fn pixelize_method_chosen(n: Option<i128>, old: PixelizeMethod) -> PixelizeMethod {
    match n {
        Some(n) => if n == 0 {
            PixelizeMethod::Mosaic
        } else if n == 1 {
            PixelizeMethod::Soft
        } else {
            old
        },
        None => old,
    }
}

fn choose_pixelize_method(n: Option<i128>, old: PixelizeMethod) -> (r: PixelizeMethod)
    ensures
        r == pixelize_method_chosen(n, old),
{
    match n {
        Some(n) => if n == 0 {
            PixelizeMethod::Mosaic
        } else if n == 1 {
            PixelizeMethod::Soft
        } else {
            old
        },
        None => old,
    }
}

pub open spec fn halftone_mode_chosen(n: Option<i128>, old: HalftoneMode) -> HalftoneMode {
    match n {
        Some(n) => if n == 0 {
            HalftoneMode::Cmy
        } else if n == 1 {
            HalftoneMode::Cmyk
        } else if n == 2 {
            HalftoneMode::Rgb
        } else if n == 3 {
            HalftoneMode::Mono
        } else {
            old
        },
        None => old,
    }
}

fn choose_halftone_mode(n: Option<i128>, old: HalftoneMode) -> (r: HalftoneMode)
    ensures
        r == halftone_mode_chosen(n, old),
{
    match n {
        Some(n) => if n == 0 {
            HalftoneMode::Cmy
        } else if n == 1 {
            HalftoneMode::Cmyk
        } else if n == 2 {
            HalftoneMode::Rgb
        } else if n == 3 {
            HalftoneMode::Mono
        } else {
            old
        },
        None => old,
    }
}

pub open spec fn halftone_paper_chosen(n: Option<i128>, old: HalftonePaper) -> HalftonePaper {
    match n {
        Some(n) => if n == 0 {
            HalftonePaper::Replace
        } else if n == 1 {
            HalftonePaper::Overlay
        } else if n == 2 {
            HalftonePaper::Multiply
        } else {
            old
        },
        None => old,
    }
}

fn choose_halftone_paper(n: Option<i128>, old: HalftonePaper) -> (r: HalftonePaper)
    ensures
        r == halftone_paper_chosen(n, old),
{
    match n {
        Some(n) => if n == 0 {
            HalftonePaper::Replace
        } else if n == 1 {
            HalftonePaper::Overlay
        } else if n == 2 {
            HalftonePaper::Multiply
        } else {
            old
        },
        None => old,
    }
}

pub open spec fn fisheye_model_chosen(n: Option<i128>, old: FisheyeModel) -> FisheyeModel {
    match n {
        Some(n) => if n == 0 {
            FisheyeModel::Barrel
        } else if n == 1 {
            FisheyeModel::Equidistant
        } else if n == 2 {
            FisheyeModel::Equisolid
        } else if n == 3 {
            FisheyeModel::Stereographic
        } else if n == 4 {
            FisheyeModel::Orthographic
        } else {
            old
        },
        None => old,
    }
}

fn choose_fisheye_model(n: Option<i128>, old: FisheyeModel) -> (r: FisheyeModel)
    ensures
        r == fisheye_model_chosen(n, old),
{
    match n {
        Some(n) => if n == 0 {
            FisheyeModel::Barrel
        } else if n == 1 {
            FisheyeModel::Equidistant
        } else if n == 2 {
            FisheyeModel::Equisolid
        } else if n == 3 {
            FisheyeModel::Stereographic
        } else if n == 4 {
            FisheyeModel::Orthographic
        } else {
            old
        },
        None => old,
    }
}

pub open spec fn ripple_mode_chosen(n: Option<i128>, old: RippleMode) -> RippleMode {
    match n {
        Some(n) => if n == 0 {
            RippleMode::Circular
        } else if n == 1 {
            RippleMode::Linear
        } else {
            old
        },
        None => old,
    }
}

fn choose_ripple_mode(n: Option<i128>, old: RippleMode) -> (r: RippleMode)
    ensures
        r == ripple_mode_chosen(n, old),
{
    match n {
        Some(n) => if n == 0 {
            RippleMode::Circular
        } else if n == 1 {
            RippleMode::Linear
        } else {
            old
        },
        None => old,
    }
}

pub open spec fn chroma_mode_chosen(n: Option<i128>, old: ChromaMode) -> ChromaMode {
    match n {
        Some(n) => if n == 0 {
            ChromaMode::Radial
        } else if n == 1 {
            ChromaMode::Linear
        } else if n == 2 {
            ChromaMode::Tangential
        } else {
            old
        },
        None => old,
    }
}

fn choose_chroma_mode(n: Option<i128>, old: ChromaMode) -> (r: ChromaMode)
    ensures
        r == chroma_mode_chosen(n, old),
{
    match n {
        Some(n) => if n == 0 {
            ChromaMode::Radial
        } else if n == 1 {
            ChromaMode::Linear
        } else if n == 2 {
            ChromaMode::Tangential
        } else {
            old
        },
        None => old,
    }
}

pub open spec fn noise_method_chosen(n: Option<i128>, old: NoiseMethod) -> NoiseMethod {
    match n {
        Some(n) => if n == 0 {
            NoiseMethod::Soft
        } else if n == 1 {
            NoiseMethod::Uniform
        } else if n == 2 {
            NoiseMethod::SaltPepper
        } else {
            old
        },
        None => old,
    }
}

fn choose_noise_method(n: Option<i128>, old: NoiseMethod) -> (r: NoiseMethod)
    ensures
        r == noise_method_chosen(n, old),
{
    match n {
        Some(n) => if n == 0 {
            NoiseMethod::Soft
        } else if n == 1 {
            NoiseMethod::Uniform
        } else if n == 2 {
            NoiseMethod::SaltPepper
        } else {
            old
        },
        None => old,
    }
}

pub open spec fn glitch_method_chosen(n: Option<i128>, old: GlitchMethod) -> GlitchMethod {
    match n {
        Some(n) => if n == 0 {
            GlitchMethod::SliceShift
        } else if n == 1 {
            GlitchMethod::ChannelTear
        } else if n == 2 {
            GlitchMethod::BlockDisplace
        } else {
            old
        },
        None => old,
    }
}

fn choose_glitch_method(n: Option<i128>, old: GlitchMethod) -> (r: GlitchMethod)
    ensures
        r == glitch_method_chosen(n, old),
{
    match n {
        Some(n) => if n == 0 {
            GlitchMethod::SliceShift
        } else if n == 1 {
            GlitchMethod::ChannelTear
        } else if n == 2 {
            GlitchMethod::BlockDisplace
        } else {
            old
        },
        None => old,
    }
}

pub open spec fn vignette_shape_chosen(n: Option<i128>, old: VignetteShape) -> VignetteShape {
    match n {
        Some(n) => if n == 0 {
            VignetteShape::Circle
        } else if n == 1 {
            VignetteShape::Ellipse
        } else {
            old
        },
        None => old,
    }
}

fn choose_vignette_shape(n: Option<i128>, old: VignetteShape) -> (r: VignetteShape)
    ensures
        r == vignette_shape_chosen(n, old),
{
    match n {
        Some(n) => if n == 0 {
            VignetteShape::Circle
        } else if n == 1 {
            VignetteShape::Ellipse
        } else {
            old
        },
        None => old,
    }
}

pub open spec fn dither_method_chosen(n: Option<i128>, old: DitherMethod) -> DitherMethod {
    match n {
        Some(n) => if n == 0 {
            DitherMethod::Bayer2
        } else if n == 1 {
            DitherMethod::Bayer4
        } else if n == 2 {
            DitherMethod::Bayer8
        } else if n == 3 {
            DitherMethod::FloydSteinberg
        } else {
            old
        },
        None => old,
    }
}

fn choose_dither_method(n: Option<i128>, old: DitherMethod) -> (r: DitherMethod)
    ensures
        r == dither_method_chosen(n, old),
{
    match n {
        Some(n) => if n == 0 {
            DitherMethod::Bayer2
        } else if n == 1 {
            DitherMethod::Bayer4
        } else if n == 2 {
            DitherMethod::Bayer8
        } else if n == 3 {
            DitherMethod::FloydSteinberg
        } else {
            old
        },
        None => old,
    }
}

pub open spec fn replace_affect_chosen(n: Option<i128>, old: ReplaceAffect) -> ReplaceAffect {
    match n {
        Some(n) => if n == 0 {
            ReplaceAffect::HueSat
        } else if n == 1 {
            ReplaceAffect::HueOnly
        } else if n == 2 {
            ReplaceAffect::FullRgb
        } else {
            old
        },
        None => old,
    }
}

fn choose_replace_affect(n: Option<i128>, old: ReplaceAffect) -> (r: ReplaceAffect)
    ensures
        r == replace_affect_chosen(n, old),
{
    match n {
        Some(n) => if n == 0 {
            ReplaceAffect::HueSat
        } else if n == 1 {
            ReplaceAffect::HueOnly
        } else if n == 2 {
            ReplaceAffect::FullRgb
        } else {
            old
        },
        None => old,
    }
}

pub open spec fn outline_mode_chosen(n: Option<i128>, old: OutlineMode) -> OutlineMode {
    match n {
        Some(n) => if n == 0 {
            OutlineMode::Outer
        } else if n == 1 {
            OutlineMode::Inner
        } else if n == 2 {
            OutlineMode::Center
        } else {
            old
        },
        None => old,
    }
}

fn choose_outline_mode(n: Option<i128>, old: OutlineMode) -> (r: OutlineMode)
    ensures
        r == outline_mode_chosen(n, old),
{
    match n {
        Some(n) => if n == 0 {
            OutlineMode::Outer
        } else if n == 1 {
            OutlineMode::Inner
        } else if n == 2 {
            OutlineMode::Center
        } else {
            old
        },
        None => old,
    }
}

pub open spec fn bevel_mode_chosen(n: Option<i128>, old: BevelMode) -> BevelMode {
    match n {
        Some(n) => if n == 0 {
            BevelMode::Bevel
        } else if n == 1 {
            BevelMode::Emboss
        } else {
            old
        },
        None => old,
    }
}

fn choose_bevel_mode(n: Option<i128>, old: BevelMode) -> (r: BevelMode)
    ensures
        r == bevel_mode_chosen(n, old),
{
    match n {
        Some(n) => if n == 0 {
            BevelMode::Bevel
        } else if n == 1 {
            BevelMode::Emboss
        } else {
            old
        },
        None => old,
    }
}

pub open spec fn liquid_glass_mode_chosen(n: Option<i128>, old: LiquidGlassMode) -> LiquidGlassMode {
    match n {
        Some(n) => if n == 0 {
            LiquidGlassMode::Droplet
        } else if n == 1 {
            LiquidGlassMode::Selection
        } else if n == 2 {
            LiquidGlassMode::Ribbed
        } else {
            old
        },
        None => old,
    }
}

fn choose_liquid_glass_mode(n: Option<i128>, old: LiquidGlassMode) -> (r: LiquidGlassMode)
    ensures
        r == liquid_glass_mode_chosen(n, old),
{
    match n {
        Some(n) => if n == 0 {
            LiquidGlassMode::Droplet
        } else if n == 1 {
            LiquidGlassMode::Selection
        } else if n == 2 {
            LiquidGlassMode::Ribbed
        } else {
            old
        },
        None => old,
    }
}

pub open spec fn gradient_shape_chosen(n: Option<i128>, old: GradientShape) -> GradientShape {
    match n {
        Some(n) => if n == 0 {
            GradientShape::Linear
        } else if n == 1 {
            GradientShape::Radial
        } else if n == 2 {
            GradientShape::Angle
        } else {
            old
        },
        None => old,
    }
}

fn choose_gradient_shape(n: Option<i128>, old: GradientShape) -> (r: GradientShape)
    ensures
        r == gradient_shape_chosen(n, old),
{
    match n {
        Some(n) => if n == 0 {
            GradientShape::Linear
        } else if n == 1 {
            GradientShape::Radial
        } else if n == 2 {
            GradientShape::Angle
        } else {
            old
        },
        None => old,
    }
}

pub open spec fn blend_mode_chosen(n: Option<i128>, old: BlendMode) -> BlendMode {
    match n {
        Some(n) => if n == 0 {
            BlendMode::Normal
        } else if n == 1 {
            BlendMode::Screen
        } else if n == 2 {
            BlendMode::Overlay
        } else if n == 3 {
            BlendMode::SoftLight
        } else if n == 4 {
            BlendMode::Color
        } else if 5 <= n && n <= 260 {
            BlendMode::Other((n - 5) as u8)
        } else {
            old
        },
        None => old,
    }
}

fn choose_blend_mode(n: Option<i128>, old: BlendMode) -> (r: BlendMode)
    ensures
        r == blend_mode_chosen(n, old),
{
    match n {
        Some(n) => if n == 0 {
            BlendMode::Normal
        } else if n == 1 {
            BlendMode::Screen
        } else if n == 2 {
            BlendMode::Overlay
        } else if n == 3 {
            BlendMode::SoftLight
        } else if n == 4 {
            BlendMode::Color
        } else if 5 <= n && n <= 260 {
            BlendMode::Other((n - 5) as u8)
        } else {
            old
        },
        None => old,
    }
}

impl FilterParams {
    /// The filter after the control of that name was set. The levels are those
    /// of the channel that shows; colouring is switched as its button does it.
    pub open spec fn labelled(self, label: Seq<char>, v: ControlValue) -> FilterParams {
        match self {
            FilterParams::Levels { edit, .. } => {
                let c = levels_of(self, edit);
                with_levels(
                    self,
                    edit,
                    LevelsChannel {
                        black: slid(label, "Black"@, v, c.black),
                        mid: slid(label, "Gamma"@, v, c.mid),
                        white: slid(label, "White"@, v, c.white),
                    },
                )
            },
            FilterParams::HueSaturation { hue, saturation, lightness, colorize } => if switched(
                label,
                "Colorize"@,
                v,
                colorize,
            ) != colorize {
                colorize_toggled(self)
            } else {
                FilterParams::HueSaturation {
                    hue: slid(label, "Hue"@, v, hue),
                    saturation: slid(label, "Saturation"@, v, saturation),
                    lightness: slid(label, "Lightness"@, v, lightness),
                    colorize,
                }
            },
            FilterParams::Gaussian { radius } => FilterParams::Gaussian {
                radius: slid(label, "Radius"@, v, radius),
            },
            FilterParams::Motion { length, angle } => FilterParams::Motion {
                length: slid(label, "Length"@, v, length),
                angle: slid(label, "Angle"@, v, angle),
            },
            FilterParams::Radial { amount, zoom_mode } => FilterParams::Radial {
                amount: slid(label, "Amount"@, v, amount),
                zoom_mode: switched(label, "Zoom"@, v, zoom_mode),
            },
            FilterParams::Unsharp { amount, radius } => FilterParams::Unsharp {
                amount: slid(label, "Amount"@, v, amount),
                radius: slid(label, "Radius"@, v, radius),
            },
            FilterParams::BrightnessContrast {
                brightness,
                contrast,
            } => FilterParams::BrightnessContrast {
                brightness: slid(label, "Brightness"@, v, brightness),
                contrast: slid(label, "Contrast"@, v, contrast),
            },
            FilterParams::ColorBalance {
                cyan_red,
                magenta_green,
                yellow_blue,
            } => FilterParams::ColorBalance {
                cyan_red: slid(label, "Cyan — Red"@, v, cyan_red),
                magenta_green: slid(label, "Magenta — Green"@, v, magenta_green),
                yellow_blue: slid(label, "Yellow — Blue"@, v, yellow_blue),
            },
            FilterParams::Pixelize { method, block, soft_amount } => FilterParams::Pixelize {
                method: pixelize_method_chosen(picked(label, "Method"@, v), method),
                block: counted(label, "Block size"@, v, block),
                soft_amount: slid(label, "Soft amount"@, v, soft_amount),
            },
            FilterParams::HexPixelize { size } => FilterParams::HexPixelize {
                size: counted(label, "Cell size"@, v, size),
            },
            FilterParams::TriPixelize { size } => FilterParams::TriPixelize {
                size: counted(label, "Cell size"@, v, size),
            },
            FilterParams::HexDots { size, fill_pct, soft_edge } => FilterParams::HexDots {
                size: counted(label, "Cell size"@, v, size),
                fill_pct: slid(label, "Fill %"@, v, fill_pct),
                soft_edge: switched(label, "Soft edge"@, v, soft_edge),
            },
            FilterParams::Posterize { levels } => FilterParams::Posterize {
                levels: counted(label, "Levels"@, v, levels),
            },
            FilterParams::Crystallize { size } => FilterParams::Crystallize {
                size: counted(label, "Crystal size"@, v, size),
            },
            FilterParams::Pointillize { size, density, bg } => FilterParams::Pointillize {
                size: counted(label, "Dot size"@, v, size),
                density: slid(label, "Density"@, v, density),
                bg: coloured(label, "Background"@, v, bg),
            },
            FilterParams::ColorHalftone {
                size,
                angle,
                mode,
                paper,
                bg,
                strength,
                softness,
                contrast,
                angle_c,
                angle_m,
                angle_y,
                angle_k,
            } => FilterParams::ColorHalftone {
                size: counted(label, "Dot size"@, v, size),
                angle: slid(label, "Base angle"@, v, angle),
                mode: halftone_mode_chosen(picked(label, "Mode"@, v), mode),
                paper: halftone_paper_chosen(picked(label, "Paper"@, v), paper),
                bg: coloured(label, "Paper color"@, v, bg),
                strength: slid(label, "Strength"@, v, strength),
                softness: slid(label, "Softness"@, v, softness),
                contrast: slid(label, "Contrast"@, v, contrast),
                angle_c: slid(label, "C / R"@, v, angle_c),
                angle_m: slid(label, "M / G"@, v, angle_m),
                angle_y: slid(label, "Y / B"@, v, angle_y),
                angle_k: slid(label, "K / Mono"@, v, angle_k),
            },
            FilterParams::Fisheye {
                model,
                amount,
                radius,
                center_x,
                center_y,
            } => FilterParams::Fisheye {
                model: fisheye_model_chosen(picked(label, "Model"@, v), model),
                amount: slid(label, "Amount"@, v, amount),
                radius: slid(label, "Radius %"@, v, radius),
                center_x: slid(label, "Center X %"@, v, center_x),
                center_y: slid(label, "Center Y %"@, v, center_y),
            },
            FilterParams::SphericalLens {
                amount,
                radius,
                center_x,
                center_y,
            } => FilterParams::SphericalLens {
                amount: slid(label, "Amount"@, v, amount),
                radius: slid(label, "Radius %"@, v, radius),
                center_x: slid(label, "Center X %"@, v, center_x),
                center_y: slid(label, "Center Y %"@, v, center_y),
            },
            FilterParams::Ripple {
                mode,
                amount,
                wavelength,
                angle,
                center_x,
                center_y,
            } => FilterParams::Ripple {
                mode: ripple_mode_chosen(picked(label, "Mode"@, v), mode),
                amount: slid(label, "Amount"@, v, amount),
                wavelength: slid(label, "Wavelength"@, v, wavelength),
                angle: slid(label, "Angle"@, v, angle),
                center_x: slid(label, "Center X %"@, v, center_x),
                center_y: slid(label, "Center Y %"@, v, center_y),
            },
            FilterParams::Twist { amount, radius, center_x, center_y } => FilterParams::Twist {
                amount: slid(label, "Amount"@, v, amount),
                radius: slid(label, "Radius %"@, v, radius),
                center_x: slid(label, "Center X %"@, v, center_x),
                center_y: slid(label, "Center Y %"@, v, center_y),
            },
            FilterParams::ChromaticAberration {
                mode,
                amount,
                angle,
                center_atten,
                red_scale,
                blue_scale,
            } => FilterParams::ChromaticAberration {
                mode: chroma_mode_chosen(picked(label, "Mode"@, v), mode),
                amount: slid(label, "Amount"@, v, amount),
                angle: slid(label, "Angle"@, v, angle),
                center_atten: slid(label, "Edge only"@, v, center_atten),
                red_scale: slid(label, "Red shift"@, v, red_scale),
                blue_scale: slid(label, "Blue shift"@, v, blue_scale),
            },
            FilterParams::Noise { method, amount, monochrome } => FilterParams::Noise {
                method: noise_method_chosen(picked(label, "Method"@, v), method),
                amount: slid(label, "Amount"@, v, amount),
                monochrome: switched(label, "Monochrome"@, v, monochrome),
            },
            FilterParams::Glitch {
                method,
                amount,
                slice_height,
                max_shift,
            } => FilterParams::Glitch {
                method: glitch_method_chosen(picked(label, "Method"@, v), method),
                amount: slid(label, "Amount"@, v, amount),
                slice_height: slid(label, "Slice / block"@, v, slice_height),
                max_shift: slid(label, "Max shift"@, v, max_shift),
            },
            FilterParams::Vignette {
                shape,
                amount,
                softness,
                roundness,
                color,
            } => FilterParams::Vignette {
                shape: vignette_shape_chosen(picked(label, "Shape"@, v), shape),
                amount: slid(label, "Amount"@, v, amount),
                softness: slid(label, "Softness"@, v, softness),
                roundness: slid(label, "Roundness"@, v, roundness),
                color: coloured(label, "Color"@, v, color),
            },
            FilterParams::Glow { radius, intensity, tint, color } => FilterParams::Glow {
                radius: slid(label, "Radius"@, v, radius),
                intensity: slid(label, "Intensity"@, v, intensity),
                tint: switched(label, "Tint color"@, v, tint),
                color: coloured(label, "Color"@, v, color),
            },
            FilterParams::Sepia { amount, warmth } => FilterParams::Sepia {
                amount: slid(label, "Amount"@, v, amount),
                warmth: slid(label, "Warmth"@, v, warmth),
            },
            FilterParams::FilmGrain {
                amount,
                size,
                roughness,
                monochrome,
                shadow_bias,
            } => FilterParams::FilmGrain {
                amount: slid(label, "Amount"@, v, amount),
                size: slid(label, "Size"@, v, size),
                roughness: slid(label, "Roughness"@, v, roughness),
                monochrome: switched(label, "Monochrome"@, v, monochrome),
                shadow_bias: slid(label, "Shadow bias"@, v, shadow_bias),
            },
            FilterParams::Dither {
                method,
                levels,
                amount,
                serpentine,
                pattern_size,
                monochrome,
            } => FilterParams::Dither {
                method: dither_method_chosen(picked(label, "Method"@, v), method),
                levels: counted(label, "Levels"@, v, levels),
                amount: slid(label, "Amount"@, v, amount),
                serpentine: switched(label, "Serpentine scan"@, v, serpentine),
                pattern_size: slid(label, "Pattern size"@, v, pattern_size),
                monochrome: switched(label, "Monochrome (luma)"@, v, monochrome),
            },
            FilterParams::ReplaceColor {
                from,
                to,
                tolerance,
                softness,
                affect,
                amount,
            } => FilterParams::ReplaceColor {
                from: coloured(label, "From"@, v, from),
                to: coloured(label, "To"@, v, to),
                tolerance: slid(label, "Tolerance"@, v, tolerance),
                softness: slid(label, "Softness"@, v, softness),
                affect: replace_affect_chosen(picked(label, "Affect"@, v), affect),
                amount: slid(label, "Amount"@, v, amount),
            },
            FilterParams::Outline {
                thickness,
                threshold,
                softness,
                color,
                opacity,
                mode,
                use_luma,
            } => FilterParams::Outline {
                thickness: slid(label, "Thickness"@, v, thickness),
                threshold: slid(label, "Threshold"@, v, threshold),
                softness: slid(label, "Softness"@, v, softness),
                color: coloured(label, "Color"@, v, color),
                opacity: slid(label, "Opacity"@, v, opacity),
                mode: outline_mode_chosen(picked(label, "Mode"@, v), mode),
                use_luma: switched(label, "Use luminance edges"@, v, use_luma),
            },
            FilterParams::OilPaint { radius, levels, strength } => FilterParams::OilPaint {
                radius: slid(label, "Brush size"@, v, radius),
                levels: counted(label, "Levels"@, v, levels),
                strength: slid(label, "Strength"@, v, strength),
            },
            FilterParams::Watercolor {
                blur,
                bleed,
                edge,
                saturation,
                strength,
            } => FilterParams::Watercolor {
                blur: slid(label, "Blur"@, v, blur),
                bleed: slid(label, "Bleed"@, v, bleed),
                edge: slid(label, "Edge darken"@, v, edge),
                saturation: slid(label, "Saturation"@, v, saturation),
                strength: slid(label, "Strength"@, v, strength),
            },
            FilterParams::Pencil { detail, darkness, grain, strength } => FilterParams::Pencil {
                detail: slid(label, "Detail"@, v, detail),
                darkness: slid(label, "Darkness"@, v, darkness),
                grain: slid(label, "Grain"@, v, grain),
                strength: slid(label, "Strength"@, v, strength),
            },
            FilterParams::Pastel { softness, chalk, lighten, strength } => FilterParams::Pastel {
                softness: slid(label, "Softness"@, v, softness),
                chalk: slid(label, "Chalk"@, v, chalk),
                lighten: slid(label, "Lighten"@, v, lighten),
                strength: slid(label, "Strength"@, v, strength),
            },
            FilterParams::PaperTexture {
                amount,
                scale,
                roughness,
                warm,
            } => FilterParams::PaperTexture {
                amount: slid(label, "Amount"@, v, amount),
                scale: slid(label, "Scale"@, v, scale),
                roughness: slid(label, "Roughness"@, v, roughness),
                warm: slid(label, "Warmth"@, v, warm),
            },
            FilterParams::NeonGlow {
                radius,
                intensity,
                threshold,
                color,
                core,
            } => FilterParams::NeonGlow {
                radius: slid(label, "Radius"@, v, radius),
                intensity: slid(label, "Intensity"@, v, intensity),
                threshold: slid(label, "Threshold"@, v, threshold),
                color: coloured(label, "Color"@, v, color),
                core: slid(label, "Core"@, v, core),
            },
            FilterParams::LightRays {
                amount,
                length,
                center_x,
                center_y,
                decay,
                tint,
                color,
            } => FilterParams::LightRays {
                amount: slid(label, "Amount"@, v, amount),
                length: slid(label, "Length"@, v, length),
                center_x: slid(label, "Center X %"@, v, center_x),
                center_y: slid(label, "Center Y %"@, v, center_y),
                decay: slid(label, "Decay"@, v, decay),
                tint: switched(label, "Tint color"@, v, tint),
                color: coloured(label, "Color"@, v, color),
            },
            FilterParams::LensFlare {
                amount,
                center_x,
                center_y,
                size,
                streak,
                color,
            } => FilterParams::LensFlare {
                amount: slid(label, "Amount"@, v, amount),
                center_x: slid(label, "Center X %"@, v, center_x),
                center_y: slid(label, "Center Y %"@, v, center_y),
                size: slid(label, "Size"@, v, size),
                streak: slid(label, "Streak"@, v, streak),
                color: coloured(label, "Color"@, v, color),
            },
            FilterParams::DropShadow {
                angle,
                distance,
                blur,
                opacity,
                color,
            } => FilterParams::DropShadow {
                angle: slid(label, "Angle"@, v, angle),
                distance: slid(label, "Distance"@, v, distance),
                blur: slid(label, "Blur"@, v, blur),
                opacity: slid(label, "Opacity"@, v, opacity),
                color: coloured(label, "Color"@, v, color),
            },
            FilterParams::BevelEmboss {
                depth,
                soft,
                angle,
                elevation,
                mode,
                strength,
            } => FilterParams::BevelEmboss {
                depth: slid(label, "Depth"@, v, depth),
                soft: slid(label, "Softness"@, v, soft),
                angle: slid(label, "Angle"@, v, angle),
                elevation: slid(label, "Elevation"@, v, elevation),
                mode: bevel_mode_chosen(picked(label, "Mode"@, v), mode),
                strength: slid(label, "Strength"@, v, strength),
            },
            FilterParams::Scanlines {
                spacing,
                thickness,
                opacity,
                color,
                vertical,
                soft,
            } => FilterParams::Scanlines {
                spacing: slid(label, "Spacing"@, v, spacing),
                thickness: slid(label, "Thickness"@, v, thickness),
                opacity: slid(label, "Opacity"@, v, opacity),
                color: coloured(label, "Color"@, v, color),
                vertical: switched(label, "Vertical"@, v, vertical),
                soft: switched(label, "Soft edge"@, v, soft),
            },
            FilterParams::LiquidGlass {
                mode,
                radius,
                center_x,
                center_y,
                spacing,
                angle,
                refraction,
                specular,
                rim,
                softness,
                chroma,
                tint,
                tint_amount,
            } => FilterParams::LiquidGlass {
                mode: liquid_glass_mode_chosen(picked(label, "Mode"@, v), mode),
                radius: slid(
                    label,
                    "Roundness"@,
                    v,
                    slid(label, "Thickness"@, v, slid(label, "Radius %"@, v, radius)),
                ),
                center_x: slid(label, "Center X %"@, v, center_x),
                center_y: slid(label, "Center Y %"@, v, center_y),
                spacing: slid(label, "Spacing"@, v, spacing),
                angle: slid(label, "Angle"@, v, angle),
                refraction: slid(label, "Refraction"@, v, refraction),
                specular: slid(label, "Specular"@, v, specular),
                rim: slid(label, "Rim"@, v, rim),
                softness: slid(label, "Softness"@, v, softness),
                chroma: slid(label, "Chroma"@, v, chroma),
                tint: coloured(label, "Tint"@, v, tint),
                tint_amount: slid(label, "Tint amount"@, v, tint_amount),
            },
            FilterParams::Gradient {
                shape,
                angle,
                spread,
                center_x,
                center_y,
                color_a,
                color_b,
                opacity_a,
                opacity_b,
                amount,
                blend,
                reverse,
            } => FilterParams::Gradient {
                shape: gradient_shape_chosen(picked(label, "Shape"@, v), shape),
                angle: slid(label, "Angle"@, v, angle),
                spread: slid(label, "Spread %"@, v, spread),
                center_x: slid(label, "Center X %"@, v, center_x),
                center_y: slid(label, "Center Y %"@, v, center_y),
                color_a: coloured(label, "Color A"@, v, color_a),
                color_b: coloured(label, "Color B"@, v, color_b),
                opacity_a: slid(label, "Opacity A"@, v, opacity_a),
                opacity_b: slid(label, "Opacity B"@, v, opacity_b),
                amount: slid(label, "Amount"@, v, amount),
                blend: blend_mode_chosen(picked(label, "Blend"@, v), blend),
                reverse: switched(label, "Reverse"@, v, reverse),
            },
            FilterParams::ImageOverlay {
                path,
                rgba,
                tex_w,
                tex_h,
                blend,
                opacity,
                scale,
                rotation,
                offset_x,
                offset_y,
                tile,
            } => FilterParams::ImageOverlay {
                path,
                rgba,
                tex_w,
                tex_h,
                blend: blend_mode_chosen(picked(label, "Blend"@, v), blend),
                opacity: slid(label, "Opacity"@, v, opacity),
                scale: slid(label, "Scale %"@, v, scale),
                rotation: slid(label, "Rotation"@, v, rotation),
                offset_x: slid(label, "Offset X %"@, v, offset_x),
                offset_y: slid(label, "Offset Y %"@, v, offset_y),
                tile: switched(label, "Tile"@, v, tile),
            },
            FilterParams::Curves { .. } => self,
            FilterParams::Invert => self,
        }
    }

    fn set_labelled(self, label: &str, v: ControlValue) -> (r: FilterParams)
        ensures
            r == self.labelled(label@, v),
    {
        match self {
            FilterParams::Levels { black, mid, white, red, green, blue, edit } => {
                let c = match edit {
                    ToneChannel::Rgb => LevelsChannel { black, mid, white },
                    ToneChannel::Red => red,
                    ToneChannel::Green => green,
                    ToneChannel::Blue => blue,
                };
                let next = LevelsChannel {
                    black: put_slid(label, "Black", v, c.black),
                    mid: put_slid(label, "Gamma", v, c.mid),
                    white: put_slid(label, "White", v, c.white),
                };
                set_levels(
                    FilterParams::Levels { black, mid, white, red, green, blue, edit },
                    edit,
                    next,
                )
            },
            FilterParams::HueSaturation { hue, saturation, lightness, colorize } => {
                if put_switched(label, "Colorize", v, colorize) != colorize {
                    return toggle_colorize(
                        FilterParams::HueSaturation { hue, saturation, lightness, colorize },
                    );
                }
                FilterParams::HueSaturation {
                    hue: put_slid(label, "Hue", v, hue),
                    saturation: put_slid(label, "Saturation", v, saturation),
                    lightness: put_slid(label, "Lightness", v, lightness),
                    colorize,
                }
            },
            FilterParams::Gaussian { radius } => FilterParams::Gaussian {
                radius: put_slid(label, "Radius", v, radius),
            },
            FilterParams::Motion { length, angle } => FilterParams::Motion {
                length: put_slid(label, "Length", v, length),
                angle: put_slid(label, "Angle", v, angle),
            },
            FilterParams::Radial { amount, zoom_mode } => FilterParams::Radial {
                amount: put_slid(label, "Amount", v, amount),
                zoom_mode: put_switched(label, "Zoom", v, zoom_mode),
            },
            FilterParams::Unsharp { amount, radius } => FilterParams::Unsharp {
                amount: put_slid(label, "Amount", v, amount),
                radius: put_slid(label, "Radius", v, radius),
            },
            FilterParams::BrightnessContrast {
                brightness,
                contrast,
            } => FilterParams::BrightnessContrast {
                brightness: put_slid(label, "Brightness", v, brightness),
                contrast: put_slid(label, "Contrast", v, contrast),
            },
            FilterParams::ColorBalance {
                cyan_red,
                magenta_green,
                yellow_blue,
            } => FilterParams::ColorBalance {
                cyan_red: put_slid(label, "Cyan — Red", v, cyan_red),
                magenta_green: put_slid(label, "Magenta — Green", v, magenta_green),
                yellow_blue: put_slid(label, "Yellow — Blue", v, yellow_blue),
            },
            FilterParams::Pixelize { method, block, soft_amount } => FilterParams::Pixelize {
                method: choose_pixelize_method(pick(label, "Method", v), method),
                block: put_counted(label, "Block size", v, block),
                soft_amount: put_slid(label, "Soft amount", v, soft_amount),
            },
            FilterParams::HexPixelize { size } => FilterParams::HexPixelize {
                size: put_counted(label, "Cell size", v, size),
            },
            FilterParams::TriPixelize { size } => FilterParams::TriPixelize {
                size: put_counted(label, "Cell size", v, size),
            },
            FilterParams::HexDots { size, fill_pct, soft_edge } => FilterParams::HexDots {
                size: put_counted(label, "Cell size", v, size),
                fill_pct: put_slid(label, "Fill %", v, fill_pct),
                soft_edge: put_switched(label, "Soft edge", v, soft_edge),
            },
            FilterParams::Posterize { levels } => FilterParams::Posterize {
                levels: put_counted(label, "Levels", v, levels),
            },
            FilterParams::Crystallize { size } => FilterParams::Crystallize {
                size: put_counted(label, "Crystal size", v, size),
            },
            FilterParams::Pointillize { size, density, bg } => FilterParams::Pointillize {
                size: put_counted(label, "Dot size", v, size),
                density: put_slid(label, "Density", v, density),
                bg: put_coloured(label, "Background", v, bg),
            },
            FilterParams::ColorHalftone {
                size,
                angle,
                mode,
                paper,
                bg,
                strength,
                softness,
                contrast,
                angle_c,
                angle_m,
                angle_y,
                angle_k,
            } => FilterParams::ColorHalftone {
                size: put_counted(label, "Dot size", v, size),
                angle: put_slid(label, "Base angle", v, angle),
                mode: choose_halftone_mode(pick(label, "Mode", v), mode),
                paper: choose_halftone_paper(pick(label, "Paper", v), paper),
                bg: put_coloured(label, "Paper color", v, bg),
                strength: put_slid(label, "Strength", v, strength),
                softness: put_slid(label, "Softness", v, softness),
                contrast: put_slid(label, "Contrast", v, contrast),
                angle_c: put_slid(label, "C / R", v, angle_c),
                angle_m: put_slid(label, "M / G", v, angle_m),
                angle_y: put_slid(label, "Y / B", v, angle_y),
                angle_k: put_slid(label, "K / Mono", v, angle_k),
            },
            FilterParams::Fisheye {
                model,
                amount,
                radius,
                center_x,
                center_y,
            } => FilterParams::Fisheye {
                model: choose_fisheye_model(pick(label, "Model", v), model),
                amount: put_slid(label, "Amount", v, amount),
                radius: put_slid(label, "Radius %", v, radius),
                center_x: put_slid(label, "Center X %", v, center_x),
                center_y: put_slid(label, "Center Y %", v, center_y),
            },
            FilterParams::SphericalLens {
                amount,
                radius,
                center_x,
                center_y,
            } => FilterParams::SphericalLens {
                amount: put_slid(label, "Amount", v, amount),
                radius: put_slid(label, "Radius %", v, radius),
                center_x: put_slid(label, "Center X %", v, center_x),
                center_y: put_slid(label, "Center Y %", v, center_y),
            },
            FilterParams::Ripple {
                mode,
                amount,
                wavelength,
                angle,
                center_x,
                center_y,
            } => FilterParams::Ripple {
                mode: choose_ripple_mode(pick(label, "Mode", v), mode),
                amount: put_slid(label, "Amount", v, amount),
                wavelength: put_slid(label, "Wavelength", v, wavelength),
                angle: put_slid(label, "Angle", v, angle),
                center_x: put_slid(label, "Center X %", v, center_x),
                center_y: put_slid(label, "Center Y %", v, center_y),
            },
            FilterParams::Twist { amount, radius, center_x, center_y } => FilterParams::Twist {
                amount: put_slid(label, "Amount", v, amount),
                radius: put_slid(label, "Radius %", v, radius),
                center_x: put_slid(label, "Center X %", v, center_x),
                center_y: put_slid(label, "Center Y %", v, center_y),
            },
            FilterParams::ChromaticAberration {
                mode,
                amount,
                angle,
                center_atten,
                red_scale,
                blue_scale,
            } => FilterParams::ChromaticAberration {
                mode: choose_chroma_mode(pick(label, "Mode", v), mode),
                amount: put_slid(label, "Amount", v, amount),
                angle: put_slid(label, "Angle", v, angle),
                center_atten: put_slid(label, "Edge only", v, center_atten),
                red_scale: put_slid(label, "Red shift", v, red_scale),
                blue_scale: put_slid(label, "Blue shift", v, blue_scale),
            },
            FilterParams::Noise { method, amount, monochrome } => FilterParams::Noise {
                method: choose_noise_method(pick(label, "Method", v), method),
                amount: put_slid(label, "Amount", v, amount),
                monochrome: put_switched(label, "Monochrome", v, monochrome),
            },
            FilterParams::Glitch {
                method,
                amount,
                slice_height,
                max_shift,
            } => FilterParams::Glitch {
                method: choose_glitch_method(pick(label, "Method", v), method),
                amount: put_slid(label, "Amount", v, amount),
                slice_height: put_slid(label, "Slice / block", v, slice_height),
                max_shift: put_slid(label, "Max shift", v, max_shift),
            },
            FilterParams::Vignette {
                shape,
                amount,
                softness,
                roundness,
                color,
            } => FilterParams::Vignette {
                shape: choose_vignette_shape(pick(label, "Shape", v), shape),
                amount: put_slid(label, "Amount", v, amount),
                softness: put_slid(label, "Softness", v, softness),
                roundness: put_slid(label, "Roundness", v, roundness),
                color: put_coloured(label, "Color", v, color),
            },
            FilterParams::Glow { radius, intensity, tint, color } => FilterParams::Glow {
                radius: put_slid(label, "Radius", v, radius),
                intensity: put_slid(label, "Intensity", v, intensity),
                tint: put_switched(label, "Tint color", v, tint),
                color: put_coloured(label, "Color", v, color),
            },
            FilterParams::Sepia { amount, warmth } => FilterParams::Sepia {
                amount: put_slid(label, "Amount", v, amount),
                warmth: put_slid(label, "Warmth", v, warmth),
            },
            FilterParams::FilmGrain {
                amount,
                size,
                roughness,
                monochrome,
                shadow_bias,
            } => FilterParams::FilmGrain {
                amount: put_slid(label, "Amount", v, amount),
                size: put_slid(label, "Size", v, size),
                roughness: put_slid(label, "Roughness", v, roughness),
                monochrome: put_switched(label, "Monochrome", v, monochrome),
                shadow_bias: put_slid(label, "Shadow bias", v, shadow_bias),
            },
            FilterParams::Dither {
                method,
                levels,
                amount,
                serpentine,
                pattern_size,
                monochrome,
            } => FilterParams::Dither {
                method: choose_dither_method(pick(label, "Method", v), method),
                levels: put_counted(label, "Levels", v, levels),
                amount: put_slid(label, "Amount", v, amount),
                serpentine: put_switched(label, "Serpentine scan", v, serpentine),
                pattern_size: put_slid(label, "Pattern size", v, pattern_size),
                monochrome: put_switched(label, "Monochrome (luma)", v, monochrome),
            },
            FilterParams::ReplaceColor {
                from,
                to,
                tolerance,
                softness,
                affect,
                amount,
            } => FilterParams::ReplaceColor {
                from: put_coloured(label, "From", v, from),
                to: put_coloured(label, "To", v, to),
                tolerance: put_slid(label, "Tolerance", v, tolerance),
                softness: put_slid(label, "Softness", v, softness),
                affect: choose_replace_affect(pick(label, "Affect", v), affect),
                amount: put_slid(label, "Amount", v, amount),
            },
            FilterParams::Outline {
                thickness,
                threshold,
                softness,
                color,
                opacity,
                mode,
                use_luma,
            } => FilterParams::Outline {
                thickness: put_slid(label, "Thickness", v, thickness),
                threshold: put_slid(label, "Threshold", v, threshold),
                softness: put_slid(label, "Softness", v, softness),
                color: put_coloured(label, "Color", v, color),
                opacity: put_slid(label, "Opacity", v, opacity),
                mode: choose_outline_mode(pick(label, "Mode", v), mode),
                use_luma: put_switched(label, "Use luminance edges", v, use_luma),
            },
            FilterParams::OilPaint { radius, levels, strength } => FilterParams::OilPaint {
                radius: put_slid(label, "Brush size", v, radius),
                levels: put_counted(label, "Levels", v, levels),
                strength: put_slid(label, "Strength", v, strength),
            },
            FilterParams::Watercolor {
                blur,
                bleed,
                edge,
                saturation,
                strength,
            } => FilterParams::Watercolor {
                blur: put_slid(label, "Blur", v, blur),
                bleed: put_slid(label, "Bleed", v, bleed),
                edge: put_slid(label, "Edge darken", v, edge),
                saturation: put_slid(label, "Saturation", v, saturation),
                strength: put_slid(label, "Strength", v, strength),
            },
            FilterParams::Pencil { detail, darkness, grain, strength } => FilterParams::Pencil {
                detail: put_slid(label, "Detail", v, detail),
                darkness: put_slid(label, "Darkness", v, darkness),
                grain: put_slid(label, "Grain", v, grain),
                strength: put_slid(label, "Strength", v, strength),
            },
            FilterParams::Pastel { softness, chalk, lighten, strength } => FilterParams::Pastel {
                softness: put_slid(label, "Softness", v, softness),
                chalk: put_slid(label, "Chalk", v, chalk),
                lighten: put_slid(label, "Lighten", v, lighten),
                strength: put_slid(label, "Strength", v, strength),
            },
            FilterParams::PaperTexture {
                amount,
                scale,
                roughness,
                warm,
            } => FilterParams::PaperTexture {
                amount: put_slid(label, "Amount", v, amount),
                scale: put_slid(label, "Scale", v, scale),
                roughness: put_slid(label, "Roughness", v, roughness),
                warm: put_slid(label, "Warmth", v, warm),
            },
            FilterParams::NeonGlow {
                radius,
                intensity,
                threshold,
                color,
                core,
            } => FilterParams::NeonGlow {
                radius: put_slid(label, "Radius", v, radius),
                intensity: put_slid(label, "Intensity", v, intensity),
                threshold: put_slid(label, "Threshold", v, threshold),
                color: put_coloured(label, "Color", v, color),
                core: put_slid(label, "Core", v, core),
            },
            FilterParams::LightRays {
                amount,
                length,
                center_x,
                center_y,
                decay,
                tint,
                color,
            } => FilterParams::LightRays {
                amount: put_slid(label, "Amount", v, amount),
                length: put_slid(label, "Length", v, length),
                center_x: put_slid(label, "Center X %", v, center_x),
                center_y: put_slid(label, "Center Y %", v, center_y),
                decay: put_slid(label, "Decay", v, decay),
                tint: put_switched(label, "Tint color", v, tint),
                color: put_coloured(label, "Color", v, color),
            },
            FilterParams::LensFlare {
                amount,
                center_x,
                center_y,
                size,
                streak,
                color,
            } => FilterParams::LensFlare {
                amount: put_slid(label, "Amount", v, amount),
                center_x: put_slid(label, "Center X %", v, center_x),
                center_y: put_slid(label, "Center Y %", v, center_y),
                size: put_slid(label, "Size", v, size),
                streak: put_slid(label, "Streak", v, streak),
                color: put_coloured(label, "Color", v, color),
            },
            FilterParams::DropShadow {
                angle,
                distance,
                blur,
                opacity,
                color,
            } => FilterParams::DropShadow {
                angle: put_slid(label, "Angle", v, angle),
                distance: put_slid(label, "Distance", v, distance),
                blur: put_slid(label, "Blur", v, blur),
                opacity: put_slid(label, "Opacity", v, opacity),
                color: put_coloured(label, "Color", v, color),
            },
            FilterParams::BevelEmboss {
                depth,
                soft,
                angle,
                elevation,
                mode,
                strength,
            } => FilterParams::BevelEmboss {
                depth: put_slid(label, "Depth", v, depth),
                soft: put_slid(label, "Softness", v, soft),
                angle: put_slid(label, "Angle", v, angle),
                elevation: put_slid(label, "Elevation", v, elevation),
                mode: choose_bevel_mode(pick(label, "Mode", v), mode),
                strength: put_slid(label, "Strength", v, strength),
            },
            FilterParams::Scanlines {
                spacing,
                thickness,
                opacity,
                color,
                vertical,
                soft,
            } => FilterParams::Scanlines {
                spacing: put_slid(label, "Spacing", v, spacing),
                thickness: put_slid(label, "Thickness", v, thickness),
                opacity: put_slid(label, "Opacity", v, opacity),
                color: put_coloured(label, "Color", v, color),
                vertical: put_switched(label, "Vertical", v, vertical),
                soft: put_switched(label, "Soft edge", v, soft),
            },
            FilterParams::LiquidGlass {
                mode,
                radius,
                center_x,
                center_y,
                spacing,
                angle,
                refraction,
                specular,
                rim,
                softness,
                chroma,
                tint,
                tint_amount,
            } => FilterParams::LiquidGlass {
                mode: choose_liquid_glass_mode(pick(label, "Mode", v), mode),
                radius: put_slid(
                    label,
                    "Roundness",
                    v,
                    put_slid(label, "Thickness", v, put_slid(label, "Radius %", v, radius)),
                ),
                center_x: put_slid(label, "Center X %", v, center_x),
                center_y: put_slid(label, "Center Y %", v, center_y),
                spacing: put_slid(label, "Spacing", v, spacing),
                angle: put_slid(label, "Angle", v, angle),
                refraction: put_slid(label, "Refraction", v, refraction),
                specular: put_slid(label, "Specular", v, specular),
                rim: put_slid(label, "Rim", v, rim),
                softness: put_slid(label, "Softness", v, softness),
                chroma: put_slid(label, "Chroma", v, chroma),
                tint: put_coloured(label, "Tint", v, tint),
                tint_amount: put_slid(label, "Tint amount", v, tint_amount),
            },
            FilterParams::Gradient {
                shape,
                angle,
                spread,
                center_x,
                center_y,
                color_a,
                color_b,
                opacity_a,
                opacity_b,
                amount,
                blend,
                reverse,
            } => FilterParams::Gradient {
                shape: choose_gradient_shape(pick(label, "Shape", v), shape),
                angle: put_slid(label, "Angle", v, angle),
                spread: put_slid(label, "Spread %", v, spread),
                center_x: put_slid(label, "Center X %", v, center_x),
                center_y: put_slid(label, "Center Y %", v, center_y),
                color_a: put_coloured(label, "Color A", v, color_a),
                color_b: put_coloured(label, "Color B", v, color_b),
                opacity_a: put_slid(label, "Opacity A", v, opacity_a),
                opacity_b: put_slid(label, "Opacity B", v, opacity_b),
                amount: put_slid(label, "Amount", v, amount),
                blend: choose_blend_mode(pick(label, "Blend", v), blend),
                reverse: put_switched(label, "Reverse", v, reverse),
            },
            FilterParams::ImageOverlay {
                path,
                rgba,
                tex_w,
                tex_h,
                blend,
                opacity,
                scale,
                rotation,
                offset_x,
                offset_y,
                tile,
            } => FilterParams::ImageOverlay {
                path,
                rgba,
                tex_w,
                tex_h,
                blend: choose_blend_mode(pick(label, "Blend", v), blend),
                opacity: put_slid(label, "Opacity", v, opacity),
                scale: put_slid(label, "Scale %", v, scale),
                rotation: put_slid(label, "Rotation", v, rotation),
                offset_x: put_slid(label, "Offset X %", v, offset_x),
                offset_y: put_slid(label, "Offset Y %", v, offset_y),
                tile: put_switched(label, "Tile", v, tile),
            },
            FilterParams::Curves { rgb, red, green, blue, edit } => FilterParams::Curves {
                rgb,
                red,
                green,
                blue,
                edit,
            },
            FilterParams::Invert => FilterParams::Invert,
        }
    }

    /// Sets the control at a place of the list of controls. A value of another
    /// kind than the control's, or a choice that there is not, changes nothing.
    pub fn set_control(self, advanced_open: bool, i: usize, v: ControlValue) -> (r: FilterParams)
        requires
            i < self.spec_controls(advanced_open).len(),
        ensures
            r == self.labelled(self.spec_controls(advanced_open)[i as int].label_text(), v),
    {
        let list = self.controls(advanced_open);
        let label = list[i].label();
        self.set_labelled(label, v)
    }

    /// The names of the choices of the control of that name, by their numbers.
    /// Blend modes go by the names that the painting core has for them.
    pub open spec fn spec_options(self, label: Seq<char>) -> Seq<&'static str> {
        match self {
            FilterParams::Pixelize { .. } => if label == "Method"@ {
                seq!["Mosaic", "Soft"]
            } else {
                Seq::empty()
            },
            FilterParams::ColorHalftone { .. } => if label == "Mode"@ {
                seq!["CMY", "CMYK", "RGB", "Mono"]
            } else if label == "Paper"@ {
                seq!["Replace", "Overlay", "Multiply"]
            } else {
                Seq::empty()
            },
            FilterParams::Fisheye { .. } => if label == "Model"@ {
                seq!["Barrel", "Equidistant", "Equisolid", "Stereographic", "Orthographic"]
            } else {
                Seq::empty()
            },
            FilterParams::Ripple { .. } => if label == "Mode"@ {
                seq!["Circular", "Linear"]
            } else {
                Seq::empty()
            },
            FilterParams::ChromaticAberration { .. } => if label == "Mode"@ {
                seq!["Radial", "Linear", "Tangential"]
            } else {
                Seq::empty()
            },
            FilterParams::Noise { .. } => if label == "Method"@ {
                seq!["Soft", "Uniform", "Salt & Pepper"]
            } else {
                Seq::empty()
            },
            FilterParams::Glitch { .. } => if label == "Method"@ {
                seq!["Slice shift", "Channel tear", "Block displace"]
            } else {
                Seq::empty()
            },
            FilterParams::Vignette { .. } => if label == "Shape"@ {
                seq!["Circle", "Ellipse / box"]
            } else {
                Seq::empty()
            },
            FilterParams::Dither { .. } => if label == "Method"@ {
                seq!["Bayer 2×2", "Bayer 4×4", "Bayer 8×8", "Floyd–Steinberg"]
            } else {
                Seq::empty()
            },
            FilterParams::ReplaceColor { .. } => if label == "Affect"@ {
                seq!["Hue+Sat", "Hue", "Full RGB"]
            } else {
                Seq::empty()
            },
            FilterParams::Outline { .. } => if label == "Mode"@ {
                seq!["Outer", "Inner", "Center"]
            } else {
                Seq::empty()
            },
            FilterParams::BevelEmboss { .. } => if label == "Mode"@ {
                seq!["Bevel", "Emboss"]
            } else {
                Seq::empty()
            },
            FilterParams::LiquidGlass { .. } => if label == "Mode"@ {
                seq!["Droplet", "Selection", "Ribbed"]
            } else {
                Seq::empty()
            },
            FilterParams::Gradient { .. } => if label == "Shape"@ {
                seq!["Linear", "Radial", "Angle"]
            } else {
                Seq::empty()
            },
            _ => Seq::empty(),
        }
    }

    /// The names of the choices of a control.
    pub fn options(&self, label: &str) -> (r: Vec<&'static str>)
        ensures
            r@ == self.spec_options(label@),
    {
        let r: Vec<&'static str> = match self {
            FilterParams::Pixelize { .. } => if same_text(label, "Method") {
                vec!["Mosaic", "Soft"]
            } else {
                Vec::new()
            },
            FilterParams::ColorHalftone { .. } => if same_text(label, "Mode") {
                vec!["CMY", "CMYK", "RGB", "Mono"]
            } else if same_text(label, "Paper") {
                vec!["Replace", "Overlay", "Multiply"]
            } else {
                Vec::new()
            },
            FilterParams::Fisheye { .. } => if same_text(label, "Model") {
                vec!["Barrel", "Equidistant", "Equisolid", "Stereographic", "Orthographic"]
            } else {
                Vec::new()
            },
            FilterParams::Ripple { .. } => if same_text(label, "Mode") {
                vec!["Circular", "Linear"]
            } else {
                Vec::new()
            },
            FilterParams::ChromaticAberration { .. } => if same_text(label, "Mode") {
                vec!["Radial", "Linear", "Tangential"]
            } else {
                Vec::new()
            },
            FilterParams::Noise { .. } => if same_text(label, "Method") {
                vec!["Soft", "Uniform", "Salt & Pepper"]
            } else {
                Vec::new()
            },
            FilterParams::Glitch { .. } => if same_text(label, "Method") {
                vec!["Slice shift", "Channel tear", "Block displace"]
            } else {
                Vec::new()
            },
            FilterParams::Vignette { .. } => if same_text(label, "Shape") {
                vec!["Circle", "Ellipse / box"]
            } else {
                Vec::new()
            },
            FilterParams::Dither { .. } => if same_text(label, "Method") {
                vec!["Bayer 2×2", "Bayer 4×4", "Bayer 8×8", "Floyd–Steinberg"]
            } else {
                Vec::new()
            },
            FilterParams::ReplaceColor { .. } => if same_text(label, "Affect") {
                vec!["Hue+Sat", "Hue", "Full RGB"]
            } else {
                Vec::new()
            },
            FilterParams::Outline { .. } => if same_text(label, "Mode") {
                vec!["Outer", "Inner", "Center"]
            } else {
                Vec::new()
            },
            FilterParams::BevelEmboss { .. } => if same_text(label, "Mode") {
                vec!["Bevel", "Emboss"]
            } else {
                Vec::new()
            },
            FilterParams::LiquidGlass { .. } => if same_text(label, "Mode") {
                vec!["Droplet", "Selection", "Ribbed"]
            } else {
                Vec::new()
            },
            FilterParams::Gradient { .. } => if same_text(label, "Shape") {
                vec!["Linear", "Radial", "Angle"]
            } else {
                Vec::new()
            },
            _ => Vec::new(),
        };
        assert(r@ =~= self.spec_options(label@));
        r
    }

    /// Takes the picture that was chosen for an overlay, where one was chosen and
    /// could be read.
    pub fn choose_image(self, picked: Option<OverlayPicture>) -> (r: FilterParams)
        ensures
            r == (match (self, picked) {
                (
                    FilterParams::ImageOverlay {
                        path,
                        rgba,
                        tex_w,
                        tex_h,
                        blend,
                        opacity,
                        scale,
                        rotation,
                        offset_x,
                        offset_y,
                        tile,
                    },
                    Some(p),
                ) => FilterParams::ImageOverlay {
                    path: Some(p.path),
                    rgba: Some(p.rgba),
                    tex_w: p.w,
                    tex_h: p.h,
                    blend,
                    opacity,
                    scale,
                    rotation,
                    offset_x,
                    offset_y,
                    tile,
                },
                _ => self,
            }),
    {
        match self {
            FilterParams::ImageOverlay {
                path,
                rgba,
                tex_w,
                tex_h,
                blend,
                opacity,
                scale,
                rotation,
                offset_x,
                offset_y,
                tile,
            } => match picked {
                Some(p) => FilterParams::ImageOverlay {
                    path: Some(p.path),
                    rgba: Some(p.rgba),
                    tex_w: p.w,
                    tex_h: p.h,
                    blend,
                    opacity,
                    scale,
                    rotation,
                    offset_x,
                    offset_y,
                    tile,
                },
                None => FilterParams::ImageOverlay {
                    path,
                    rgba,
                    tex_w,
                    tex_h,
                    blend,
                    opacity,
                    scale,
                    rotation,
                    offset_x,
                    offset_y,
                    tile,
                },
            },
            other => other,
        }
    }

    /// Takes the picture of an overlay away, where it has one.
    pub fn clear_image(self) -> (r: FilterParams)
        ensures
            r == (match self {
                FilterParams::ImageOverlay {
                    path,
                    rgba,
                    tex_w,
                    tex_h,
                    blend,
                    opacity,
                    scale,
                    rotation,
                    offset_x,
                    offset_y,
                    tile,
                } if rgba is Some => FilterParams::ImageOverlay {
                    path: None,
                    rgba: None,
                    tex_w: 0,
                    tex_h: 0,
                    blend,
                    opacity,
                    scale,
                    rotation,
                    offset_x,
                    offset_y,
                    tile,
                },
                _ => self,
            }),
    {
        match self {
            FilterParams::ImageOverlay {
                path,
                rgba,
                tex_w,
                tex_h,
                blend,
                opacity,
                scale,
                rotation,
                offset_x,
                offset_y,
                tile,
            } => {
                if rgba.is_some() {
                    FilterParams::ImageOverlay {
                        path: None,
                        rgba: None,
                        tex_w: 0,
                        tex_h: 0,
                        blend,
                        opacity,
                        scale,
                        rotation,
                        offset_x,
                        offset_y,
                        tile,
                    }
                } else {
                    FilterParams::ImageOverlay {
                        path,
                        rgba,
                        tex_w,
                        tex_h,
                        blend,
                        opacity,
                        scale,
                        rotation,
                        offset_x,
                        offset_y,
                        tile,
                    }
                }
            },
            other => other,
        }
    }
}

/// A picture that was chosen and read.
pub struct OverlayPicture {
    pub path: String,
    pub w: u32,
    pub h: u32,
    pub rgba: Vec<u8>,
}

} // verus!
