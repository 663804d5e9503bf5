//! What setting each control of a filter changes: the setting of its name, to
//! the value it is set to, and no other.
use vstd::prelude::*;
use crate::filters::choice::{
    BevelMode, BlendMode, ChromaMode, DitherMethod, FisheyeModel, GlitchMethod, GradientShape,
    HalftoneMode, HalftonePaper, LiquidGlassMode, NoiseMethod, OutlineMode, PixelizeMethod,
    ReplaceAffect, Rgb, RippleMode, VignetteShape,
};
use crate::filters::params::FilterParams;
use crate::filters::setting::ControlValue;

verus! {

/// The controls of gaussian.
#[verifier::spinoff_prover]
pub proof fn law_set_gaussian(radius: i32, x: i32)
    ensures
        ({
            let p = FilterParams::Gaussian { radius };
            &&& p.labelled("Radius"@, ControlValue::Slider(x)) == (FilterParams::Gaussian {
                radius: x,
            })
        }),
{
    reveal_strlit("Radius");
}

/// The controls of motion.
#[verifier::spinoff_prover]
pub proof fn law_set_motion(length: i32, angle: i32, x: i32)
    ensures
        ({
            let p = FilterParams::Motion { length, angle };
            &&& p.labelled("Length"@, ControlValue::Slider(x)) == (FilterParams::Motion {
                length: x,
                angle,
            })
            &&& p.labelled("Angle"@, ControlValue::Slider(x)) == (FilterParams::Motion {
                length,
                angle: x,
            })
        }),
{
    reveal_strlit("Length");
    reveal_strlit("Angle");
    assert("Length"@.len() == 6 && "Angle"@.len() == 5);
}

/// The controls of radial.
#[verifier::spinoff_prover]
pub proof fn law_set_radial(amount: i32, zoom_mode: bool, on: bool, x: i32)
    ensures
        ({
            let p = FilterParams::Radial { amount, zoom_mode };
            &&& p.labelled("Amount"@, ControlValue::Slider(x)) == (FilterParams::Radial {
                amount: x,
                zoom_mode,
            })
            &&& p.labelled("Zoom"@, ControlValue::Switch(on)) == (FilterParams::Radial {
                amount,
                zoom_mode: on,
            })
        }),
{
    reveal_strlit("Amount");
    reveal_strlit("Zoom");
    assert("Amount"@.len() == 6 && "Zoom"@.len() == 4);
}

/// The controls of unsharp.
#[verifier::spinoff_prover]
pub proof fn law_set_unsharp(amount: i32, radius: i32, x: i32)
    ensures
        ({
            let p = FilterParams::Unsharp { amount, radius };
            &&& p.labelled("Amount"@, ControlValue::Slider(x)) == (FilterParams::Unsharp {
                amount: x,
                radius,
            })
            &&& p.labelled("Radius"@, ControlValue::Slider(x)) == (FilterParams::Unsharp {
                amount,
                radius: x,
            })
        }),
{
    reveal_strlit("Amount");
    reveal_strlit("Radius");
    assert("Amount"@[0] == 'A' && "Radius"@[0] == 'R');
}

/// The controls of brightness contrast.
#[verifier::spinoff_prover]
pub proof fn law_set_brightness_contrast(brightness: i32, contrast: i32, x: i32)
    ensures
        ({
            let p = FilterParams::BrightnessContrast { brightness, contrast };
            &&& p.labelled("Brightness"@, ControlValue::Slider(x)) == (FilterParams::BrightnessContrast {
                brightness: x,
                contrast,
            })
            &&& p.labelled("Contrast"@, ControlValue::Slider(x)) == (FilterParams::BrightnessContrast {
                brightness,
                contrast: x,
            })
        }),
{
    reveal_strlit("Brightness");
    reveal_strlit("Contrast");
    assert("Brightness"@.len() == 10 && "Contrast"@.len() == 8);
}

/// The controls of color balance.
#[verifier::spinoff_prover]
pub proof fn law_set_color_balance(cyan_red: i32, magenta_green: i32, yellow_blue: i32, x: i32)
    ensures
        ({
            let p = FilterParams::ColorBalance { cyan_red, magenta_green, yellow_blue };
            &&& p.labelled("Cyan — Red"@, ControlValue::Slider(x)) == (FilterParams::ColorBalance {
                cyan_red: x,
                magenta_green,
                yellow_blue,
            })
            &&& p.labelled("Magenta — Green"@, ControlValue::Slider(x)) == (FilterParams::ColorBalance {
                cyan_red,
                magenta_green: x,
                yellow_blue,
            })
            &&& p.labelled("Yellow — Blue"@, ControlValue::Slider(x)) == (FilterParams::ColorBalance {
                cyan_red,
                magenta_green,
                yellow_blue: x,
            })
        }),
{
    reveal_strlit("Cyan — Red");
    reveal_strlit("Magenta — Green");
    reveal_strlit("Yellow — Blue");
    assert("Cyan — Red"@.len() == 10 && "Magenta — Green"@.len() == 15);
    assert("Cyan — Red"@.len() == 10 && "Yellow — Blue"@.len() == 13);
    assert("Magenta — Green"@.len() == 15 && "Yellow — Blue"@.len() == 13);
}

/// The controls of pixelize.
#[verifier::spinoff_prover]
pub proof fn law_set_pixelize(
    method: PixelizeMethod,
    block: u32,
    soft_amount: i32,
    x: i32,
    n: u32,
)
    ensures
        ({
            let p = FilterParams::Pixelize { method, block, soft_amount };
            &&& p.labelled("Method"@, ControlValue::Choice(0)) == (FilterParams::Pixelize {
                method: PixelizeMethod::Mosaic,
                block,
                soft_amount,
            })
            &&& p.labelled("Method"@, ControlValue::Choice(1)) == (FilterParams::Pixelize {
                method: PixelizeMethod::Soft,
                block,
                soft_amount,
            })
            &&& p.spec_options("Method"@)[0]@ == "Mosaic"@
            &&& p.spec_options("Method"@)[1]@ == "Soft"@
            &&& p.labelled("Block size"@, ControlValue::Count(n)) == (FilterParams::Pixelize {
                method,
                block: n,
                soft_amount,
            })
            &&& p.labelled("Soft amount"@, ControlValue::Slider(x)) == (FilterParams::Pixelize {
                method,
                block,
                soft_amount: x,
            })
        }),
{
    reveal_strlit("Method");
    reveal_strlit("Block size");
    reveal_strlit("Soft amount");
    assert("Method"@.len() == 6 && "Block size"@.len() == 10);
    assert("Method"@.len() == 6 && "Soft amount"@.len() == 11);
    assert("Block size"@.len() == 10 && "Soft amount"@.len() == 11);
}

/// The controls of hex pixelize.
#[verifier::spinoff_prover]
pub proof fn law_set_hex_pixelize(size: u32, n: u32)
    ensures
        ({
            let p = FilterParams::HexPixelize { size };
            &&& p.labelled("Cell size"@, ControlValue::Count(n)) == (FilterParams::HexPixelize {
                size: n,
            })
        }),
{
    reveal_strlit("Cell size");
}

/// The controls of tri pixelize.
#[verifier::spinoff_prover]
pub proof fn law_set_tri_pixelize(size: u32, n: u32)
    ensures
        ({
            let p = FilterParams::TriPixelize { size };
            &&& p.labelled("Cell size"@, ControlValue::Count(n)) == (FilterParams::TriPixelize {
                size: n,
            })
        }),
{
    reveal_strlit("Cell size");
}

/// The controls of hex dots.
#[verifier::spinoff_prover]
pub proof fn law_set_hex_dots(
    size: u32,
    fill_pct: i32,
    soft_edge: bool,
    on: bool,
    x: i32,
    n: u32,
)
    ensures
        ({
            let p = FilterParams::HexDots { size, fill_pct, soft_edge };
            &&& p.labelled("Cell size"@, ControlValue::Count(n)) == (FilterParams::HexDots {
                size: n,
                fill_pct,
                soft_edge,
            })
            &&& p.labelled("Fill %"@, ControlValue::Slider(x)) == (FilterParams::HexDots {
                size,
                fill_pct: x,
                soft_edge,
            })
            &&& p.labelled("Soft edge"@, ControlValue::Switch(on)) == (FilterParams::HexDots {
                size,
                fill_pct,
                soft_edge: on,
            })
        }),
{
    reveal_strlit("Cell size");
    reveal_strlit("Fill %");
    reveal_strlit("Soft edge");
    assert("Cell size"@.len() == 9 && "Fill %"@.len() == 6);
    assert("Cell size"@[0] == 'C' && "Soft edge"@[0] == 'S');
    assert("Fill %"@.len() == 6 && "Soft edge"@.len() == 9);
}

/// The controls of posterize.
#[verifier::spinoff_prover]
pub proof fn law_set_posterize(levels: u32, n: u32)
    ensures
        ({
            let p = FilterParams::Posterize { levels };
            &&& p.labelled("Levels"@, ControlValue::Count(n)) == (FilterParams::Posterize {
                levels: n,
            })
        }),
{
    reveal_strlit("Levels");
}

/// The controls of crystallize.
#[verifier::spinoff_prover]
pub proof fn law_set_crystallize(size: u32, n: u32)
    ensures
        ({
            let p = FilterParams::Crystallize { size };
            &&& p.labelled("Crystal size"@, ControlValue::Count(n)) == (FilterParams::Crystallize {
                size: n,
            })
        }),
{
    reveal_strlit("Crystal size");
}

/// The controls of pointillize.
#[verifier::spinoff_prover]
pub proof fn law_set_pointillize(size: u32, density: i32, bg: Rgb, c: Rgb, x: i32, n: u32)
    ensures
        ({
            let p = FilterParams::Pointillize { size, density, bg };
            &&& p.labelled("Dot size"@, ControlValue::Count(n)) == (FilterParams::Pointillize {
                size: n,
                density,
                bg,
            })
            &&& p.labelled("Density"@, ControlValue::Slider(x)) == (FilterParams::Pointillize {
                size,
                density: x,
                bg,
            })
            &&& p.labelled("Background"@, ControlValue::Colour(c)) == (FilterParams::Pointillize {
                size,
                density,
                bg: c,
            })
        }),
{
    reveal_strlit("Dot size");
    reveal_strlit("Density");
    reveal_strlit("Background");
    assert("Dot size"@.len() == 8 && "Density"@.len() == 7);
    assert("Dot size"@.len() == 8 && "Background"@.len() == 10);
    assert("Density"@.len() == 7 && "Background"@.len() == 10);
}

/// The controls of color halftone.
#[verifier::spinoff_prover]
pub proof fn law_set_color_halftone(
    size: u32,
    angle: i32,
    mode: HalftoneMode,
    paper: HalftonePaper,
    bg: Rgb,
    strength: i32,
    softness: i32,
    contrast: i32,
    angle_c: i32,
    angle_m: i32,
    angle_y: i32,
    angle_k: i32,
    c: Rgb,
    x: i32,
    n: u32,
)
    ensures
        ({
            let p = FilterParams::ColorHalftone {
                size,
                angle,
                mode,
                paper,
                bg,
                strength,
                softness,
                contrast,
                angle_c,
                angle_m,
                angle_y,
                angle_k,
            };
            &&& p.labelled("Dot size"@, ControlValue::Count(n)) == (FilterParams::ColorHalftone {
                size: n,
                angle,
                mode,
                paper,
                bg,
                strength,
                softness,
                contrast,
                angle_c,
                angle_m,
                angle_y,
                angle_k,
            })
            &&& p.labelled("Base angle"@, ControlValue::Slider(x)) == (FilterParams::ColorHalftone {
                size,
                angle: x,
                mode,
                paper,
                bg,
                strength,
                softness,
                contrast,
                angle_c,
                angle_m,
                angle_y,
                angle_k,
            })
            &&& p.labelled("Mode"@, ControlValue::Choice(0)) == (FilterParams::ColorHalftone {
                size,
                angle,
                mode: HalftoneMode::Cmy,
                paper,
                bg,
                strength,
                softness,
                contrast,
                angle_c,
                angle_m,
                angle_y,
                angle_k,
            })
            &&& p.labelled("Mode"@, ControlValue::Choice(1)) == (FilterParams::ColorHalftone {
                size,
                angle,
                mode: HalftoneMode::Cmyk,
                paper,
                bg,
                strength,
                softness,
                contrast,
                angle_c,
                angle_m,
                angle_y,
                angle_k,
            })
            &&& p.labelled("Mode"@, ControlValue::Choice(2)) == (FilterParams::ColorHalftone {
                size,
                angle,
                mode: HalftoneMode::Rgb,
                paper,
                bg,
                strength,
                softness,
                contrast,
                angle_c,
                angle_m,
                angle_y,
                angle_k,
            })
            &&& p.labelled("Mode"@, ControlValue::Choice(3)) == (FilterParams::ColorHalftone {
                size,
                angle,
                mode: HalftoneMode::Mono,
                paper,
                bg,
                strength,
                softness,
                contrast,
                angle_c,
                angle_m,
                angle_y,
                angle_k,
            })
            &&& p.spec_options("Mode"@)[0]@ == "CMY"@
            &&& p.spec_options("Mode"@)[1]@ == "CMYK"@
            &&& p.spec_options("Mode"@)[2]@ == "RGB"@
            &&& p.spec_options("Mode"@)[3]@ == "Mono"@
            &&& p.labelled("Paper"@, ControlValue::Choice(0)) == (FilterParams::ColorHalftone {
                size,
                angle,
                mode,
                paper: HalftonePaper::Replace,
                bg,
                strength,
                softness,
                contrast,
                angle_c,
                angle_m,
                angle_y,
                angle_k,
            })
            &&& p.labelled("Paper"@, ControlValue::Choice(1)) == (FilterParams::ColorHalftone {
                size,
                angle,
                mode,
                paper: HalftonePaper::Overlay,
                bg,
                strength,
                softness,
                contrast,
                angle_c,
                angle_m,
                angle_y,
                angle_k,
            })
            &&& p.labelled("Paper"@, ControlValue::Choice(2)) == (FilterParams::ColorHalftone {
                size,
                angle,
                mode,
                paper: HalftonePaper::Multiply,
                bg,
                strength,
                softness,
                contrast,
                angle_c,
                angle_m,
                angle_y,
                angle_k,
            })
            &&& p.spec_options("Paper"@)[0]@ == "Replace"@
            &&& p.spec_options("Paper"@)[1]@ == "Overlay"@
            &&& p.spec_options("Paper"@)[2]@ == "Multiply"@
            &&& p.labelled("Paper color"@, ControlValue::Colour(c)) == (FilterParams::ColorHalftone {
                size,
                angle,
                mode,
                paper,
                bg: c,
                strength,
                softness,
                contrast,
                angle_c,
                angle_m,
                angle_y,
                angle_k,
            })
            &&& p.labelled("Strength"@, ControlValue::Slider(x)) == (FilterParams::ColorHalftone {
                size,
                angle,
                mode,
                paper,
                bg,
                strength: x,
                softness,
                contrast,
                angle_c,
                angle_m,
                angle_y,
                angle_k,
            })
            &&& p.labelled("Softness"@, ControlValue::Slider(x)) == (FilterParams::ColorHalftone {
                size,
                angle,
                mode,
                paper,
                bg,
                strength,
                softness: x,
                contrast,
                angle_c,
                angle_m,
                angle_y,
                angle_k,
            })
            &&& p.labelled("Contrast"@, ControlValue::Slider(x)) == (FilterParams::ColorHalftone {
                size,
                angle,
                mode,
                paper,
                bg,
                strength,
                softness,
                contrast: x,
                angle_c,
                angle_m,
                angle_y,
                angle_k,
            })
            &&& p.labelled("C / R"@, ControlValue::Slider(x)) == (FilterParams::ColorHalftone {
                size,
                angle,
                mode,
                paper,
                bg,
                strength,
                softness,
                contrast,
                angle_c: x,
                angle_m,
                angle_y,
                angle_k,
            })
            &&& p.labelled("M / G"@, ControlValue::Slider(x)) == (FilterParams::ColorHalftone {
                size,
                angle,
                mode,
                paper,
                bg,
                strength,
                softness,
                contrast,
                angle_c,
                angle_m: x,
                angle_y,
                angle_k,
            })
            &&& p.labelled("Y / B"@, ControlValue::Slider(x)) == (FilterParams::ColorHalftone {
                size,
                angle,
                mode,
                paper,
                bg,
                strength,
                softness,
                contrast,
                angle_c,
                angle_m,
                angle_y: x,
                angle_k,
            })
            &&& p.labelled("K / Mono"@, ControlValue::Slider(x)) == (FilterParams::ColorHalftone {
                size,
                angle,
                mode,
                paper,
                bg,
                strength,
                softness,
                contrast,
                angle_c,
                angle_m,
                angle_y,
                angle_k: x,
            })
        }),
{
    reveal_strlit("Dot size");
    reveal_strlit("Base angle");
    reveal_strlit("Mode");
    reveal_strlit("Paper");
    reveal_strlit("Paper color");
    reveal_strlit("Strength");
    reveal_strlit("Softness");
    reveal_strlit("Contrast");
    reveal_strlit("C / R");
    reveal_strlit("M / G");
    reveal_strlit("Y / B");
    reveal_strlit("K / Mono");
    assert("Dot size"@.len() == 8 && "Base angle"@.len() == 10);
    assert("Dot size"@.len() == 8 && "Mode"@.len() == 4);
    assert("Dot size"@.len() == 8 && "Paper"@.len() == 5);
    assert("Dot size"@.len() == 8 && "Paper color"@.len() == 11);
    assert("Dot size"@[0] == 'D' && "Strength"@[0] == 'S');
    assert("Dot size"@[0] == 'D' && "Softness"@[0] == 'S');
    assert("Dot size"@[0] == 'D' && "Contrast"@[0] == 'C');
    assert("Dot size"@.len() == 8 && "C / R"@.len() == 5);
    assert("Dot size"@.len() == 8 && "M / G"@.len() == 5);
    assert("Dot size"@.len() == 8 && "Y / B"@.len() == 5);
    assert("Dot size"@[0] == 'D' && "K / Mono"@[0] == 'K');
    assert("Base angle"@.len() == 10 && "Mode"@.len() == 4);
    assert("Base angle"@.len() == 10 && "Paper"@.len() == 5);
    assert("Base angle"@.len() == 10 && "Paper color"@.len() == 11);
    assert("Base angle"@.len() == 10 && "Strength"@.len() == 8);
    assert("Base angle"@.len() == 10 && "Softness"@.len() == 8);
    assert("Base angle"@.len() == 10 && "Contrast"@.len() == 8);
    assert("Base angle"@.len() == 10 && "C / R"@.len() == 5);
    assert("Base angle"@.len() == 10 && "M / G"@.len() == 5);
    assert("Base angle"@.len() == 10 && "Y / B"@.len() == 5);
    assert("Base angle"@.len() == 10 && "K / Mono"@.len() == 8);
    assert("Mode"@.len() == 4 && "Paper"@.len() == 5);
    assert("Mode"@.len() == 4 && "Paper color"@.len() == 11);
    assert("Mode"@.len() == 4 && "Strength"@.len() == 8);
    assert("Mode"@.len() == 4 && "Softness"@.len() == 8);
    assert("Mode"@.len() == 4 && "Contrast"@.len() == 8);
    assert("Mode"@.len() == 4 && "C / R"@.len() == 5);
    assert("Mode"@.len() == 4 && "M / G"@.len() == 5);
    assert("Mode"@.len() == 4 && "Y / B"@.len() == 5);
    assert("Mode"@.len() == 4 && "K / Mono"@.len() == 8);
    assert("Paper"@.len() == 5 && "Paper color"@.len() == 11);
    assert("Paper"@.len() == 5 && "Strength"@.len() == 8);
    assert("Paper"@.len() == 5 && "Softness"@.len() == 8);
    assert("Paper"@.len() == 5 && "Contrast"@.len() == 8);
    assert("Paper"@[0] == 'P' && "C / R"@[0] == 'C');
    assert("Paper"@[0] == 'P' && "M / G"@[0] == 'M');
    assert("Paper"@[0] == 'P' && "Y / B"@[0] == 'Y');
    assert("Paper"@.len() == 5 && "K / Mono"@.len() == 8);
    assert("Paper color"@.len() == 11 && "Strength"@.len() == 8);
    assert("Paper color"@.len() == 11 && "Softness"@.len() == 8);
    assert("Paper color"@.len() == 11 && "Contrast"@.len() == 8);
    assert("Paper color"@.len() == 11 && "C / R"@.len() == 5);
    assert("Paper color"@.len() == 11 && "M / G"@.len() == 5);
    assert("Paper color"@.len() == 11 && "Y / B"@.len() == 5);
    assert("Paper color"@.len() == 11 && "K / Mono"@.len() == 8);
    assert("Strength"@[1] == 't' && "Softness"@[1] == 'o');
    assert("Strength"@[0] == 'S' && "Contrast"@[0] == 'C');
    assert("Strength"@.len() == 8 && "C / R"@.len() == 5);
    assert("Strength"@.len() == 8 && "M / G"@.len() == 5);
    assert("Strength"@.len() == 8 && "Y / B"@.len() == 5);
    assert("Strength"@[0] == 'S' && "K / Mono"@[0] == 'K');
    assert("Softness"@[0] == 'S' && "Contrast"@[0] == 'C');
    assert("Softness"@.len() == 8 && "C / R"@.len() == 5);
    assert("Softness"@.len() == 8 && "M / G"@.len() == 5);
    assert("Softness"@.len() == 8 && "Y / B"@.len() == 5);
    assert("Softness"@[0] == 'S' && "K / Mono"@[0] == 'K');
    assert("Contrast"@.len() == 8 && "C / R"@.len() == 5);
    assert("Contrast"@.len() == 8 && "M / G"@.len() == 5);
    assert("Contrast"@.len() == 8 && "Y / B"@.len() == 5);
    assert("Contrast"@[0] == 'C' && "K / Mono"@[0] == 'K');
    assert("C / R"@[0] == 'C' && "M / G"@[0] == 'M');
    assert("C / R"@[0] == 'C' && "Y / B"@[0] == 'Y');
    assert("C / R"@.len() == 5 && "K / Mono"@.len() == 8);
    assert("M / G"@[0] == 'M' && "Y / B"@[0] == 'Y');
    assert("M / G"@.len() == 5 && "K / Mono"@.len() == 8);
    assert("Y / B"@.len() == 5 && "K / Mono"@.len() == 8);
}

/// The controls of fisheye.
#[verifier::spinoff_prover]
pub proof fn law_set_fisheye(
    model: FisheyeModel,
    amount: i32,
    radius: i32,
    center_x: i32,
    center_y: i32,
    x: i32,
)
    ensures
        ({
            let p = FilterParams::Fisheye { model, amount, radius, center_x, center_y };
            &&& p.labelled("Model"@, ControlValue::Choice(0)) == (FilterParams::Fisheye {
                model: FisheyeModel::Barrel,
                amount,
                radius,
                center_x,
                center_y,
            })
            &&& p.labelled("Model"@, ControlValue::Choice(1)) == (FilterParams::Fisheye {
                model: FisheyeModel::Equidistant,
                amount,
                radius,
                center_x,
                center_y,
            })
            &&& p.labelled("Model"@, ControlValue::Choice(2)) == (FilterParams::Fisheye {
                model: FisheyeModel::Equisolid,
                amount,
                radius,
                center_x,
                center_y,
            })
            &&& p.labelled("Model"@, ControlValue::Choice(3)) == (FilterParams::Fisheye {
                model: FisheyeModel::Stereographic,
                amount,
                radius,
                center_x,
                center_y,
            })
            &&& p.labelled("Model"@, ControlValue::Choice(4)) == (FilterParams::Fisheye {
                model: FisheyeModel::Orthographic,
                amount,
                radius,
                center_x,
                center_y,
            })
            &&& p.spec_options("Model"@)[0]@ == "Barrel"@
            &&& p.spec_options("Model"@)[1]@ == "Equidistant"@
            &&& p.spec_options("Model"@)[2]@ == "Equisolid"@
            &&& p.spec_options("Model"@)[3]@ == "Stereographic"@
            &&& p.spec_options("Model"@)[4]@ == "Orthographic"@
            &&& p.labelled("Amount"@, ControlValue::Slider(x)) == (FilterParams::Fisheye {
                model,
                amount: x,
                radius,
                center_x,
                center_y,
            })
            &&& p.labelled("Radius %"@, ControlValue::Slider(x)) == (FilterParams::Fisheye {
                model,
                amount,
                radius: x,
                center_x,
                center_y,
            })
            &&& p.labelled("Center X %"@, ControlValue::Slider(x)) == (FilterParams::Fisheye {
                model,
                amount,
                radius,
                center_x: x,
                center_y,
            })
            &&& p.labelled("Center Y %"@, ControlValue::Slider(x)) == (FilterParams::Fisheye {
                model,
                amount,
                radius,
                center_x,
                center_y: x,
            })
        }),
{
    reveal_strlit("Model");
    reveal_strlit("Amount");
    reveal_strlit("Radius %");
    reveal_strlit("Center X %");
    reveal_strlit("Center Y %");
    assert("Model"@.len() == 5 && "Amount"@.len() == 6);
    assert("Model"@.len() == 5 && "Radius %"@.len() == 8);
    assert("Model"@.len() == 5 && "Center X %"@.len() == 10);
    assert("Model"@.len() == 5 && "Center Y %"@.len() == 10);
    assert("Amount"@.len() == 6 && "Radius %"@.len() == 8);
    assert("Amount"@.len() == 6 && "Center X %"@.len() == 10);
    assert("Amount"@.len() == 6 && "Center Y %"@.len() == 10);
    assert("Radius %"@.len() == 8 && "Center X %"@.len() == 10);
    assert("Radius %"@.len() == 8 && "Center Y %"@.len() == 10);
    assert("Center X %"@[7] == 'X' && "Center Y %"@[7] == 'Y');
}

/// The controls of spherical lens.
#[verifier::spinoff_prover]
pub proof fn law_set_spherical_lens(
    amount: i32,
    radius: i32,
    center_x: i32,
    center_y: i32,
    x: i32,
)
    ensures
        ({
            let p = FilterParams::SphericalLens { amount, radius, center_x, center_y };
            &&& p.labelled("Amount"@, ControlValue::Slider(x)) == (FilterParams::SphericalLens {
                amount: x,
                radius,
                center_x,
                center_y,
            })
            &&& p.labelled("Radius %"@, ControlValue::Slider(x)) == (FilterParams::SphericalLens {
                amount,
                radius: x,
                center_x,
                center_y,
            })
            &&& p.labelled("Center X %"@, ControlValue::Slider(x)) == (FilterParams::SphericalLens {
                amount,
                radius,
                center_x: x,
                center_y,
            })
            &&& p.labelled("Center Y %"@, ControlValue::Slider(x)) == (FilterParams::SphericalLens {
                amount,
                radius,
                center_x,
                center_y: x,
            })
        }),
{
    reveal_strlit("Amount");
    reveal_strlit("Radius %");
    reveal_strlit("Center X %");
    reveal_strlit("Center Y %");
    assert("Amount"@.len() == 6 && "Radius %"@.len() == 8);
    assert("Amount"@.len() == 6 && "Center X %"@.len() == 10);
    assert("Amount"@.len() == 6 && "Center Y %"@.len() == 10);
    assert("Radius %"@.len() == 8 && "Center X %"@.len() == 10);
    assert("Radius %"@.len() == 8 && "Center Y %"@.len() == 10);
    assert("Center X %"@[7] == 'X' && "Center Y %"@[7] == 'Y');
}

/// The controls of ripple.
#[verifier::spinoff_prover]
pub proof fn law_set_ripple(
    mode: RippleMode,
    amount: i32,
    wavelength: i32,
    angle: i32,
    center_x: i32,
    center_y: i32,
    x: i32,
)
    ensures
        ({
            let p = FilterParams::Ripple { mode, amount, wavelength, angle, center_x, center_y };
            &&& p.labelled("Mode"@, ControlValue::Choice(0)) == (FilterParams::Ripple {
                mode: RippleMode::Circular,
                amount,
                wavelength,
                angle,
                center_x,
                center_y,
            })
            &&& p.labelled("Mode"@, ControlValue::Choice(1)) == (FilterParams::Ripple {
                mode: RippleMode::Linear,
                amount,
                wavelength,
                angle,
                center_x,
                center_y,
            })
            &&& p.spec_options("Mode"@)[0]@ == "Circular"@
            &&& p.spec_options("Mode"@)[1]@ == "Linear"@
            &&& p.labelled("Amount"@, ControlValue::Slider(x)) == (FilterParams::Ripple {
                mode,
                amount: x,
                wavelength,
                angle,
                center_x,
                center_y,
            })
            &&& p.labelled("Wavelength"@, ControlValue::Slider(x)) == (FilterParams::Ripple {
                mode,
                amount,
                wavelength: x,
                angle,
                center_x,
                center_y,
            })
            &&& p.labelled("Angle"@, ControlValue::Slider(x)) == (FilterParams::Ripple {
                mode,
                amount,
                wavelength,
                angle: x,
                center_x,
                center_y,
            })
            &&& p.labelled("Center X %"@, ControlValue::Slider(x)) == (FilterParams::Ripple {
                mode,
                amount,
                wavelength,
                angle,
                center_x: x,
                center_y,
            })
            &&& p.labelled("Center Y %"@, ControlValue::Slider(x)) == (FilterParams::Ripple {
                mode,
                amount,
                wavelength,
                angle,
                center_x,
                center_y: x,
            })
        }),
{
    reveal_strlit("Mode");
    reveal_strlit("Amount");
    reveal_strlit("Wavelength");
    reveal_strlit("Angle");
    reveal_strlit("Center X %");
    reveal_strlit("Center Y %");
    assert("Mode"@.len() == 4 && "Amount"@.len() == 6);
    assert("Mode"@.len() == 4 && "Wavelength"@.len() == 10);
    assert("Mode"@.len() == 4 && "Angle"@.len() == 5);
    assert("Mode"@.len() == 4 && "Center X %"@.len() == 10);
    assert("Mode"@.len() == 4 && "Center Y %"@.len() == 10);
    assert("Amount"@.len() == 6 && "Wavelength"@.len() == 10);
    assert("Amount"@.len() == 6 && "Angle"@.len() == 5);
    assert("Amount"@.len() == 6 && "Center X %"@.len() == 10);
    assert("Amount"@.len() == 6 && "Center Y %"@.len() == 10);
    assert("Wavelength"@.len() == 10 && "Angle"@.len() == 5);
    assert("Wavelength"@[0] == 'W' && "Center X %"@[0] == 'C');
    assert("Wavelength"@[0] == 'W' && "Center Y %"@[0] == 'C');
    assert("Angle"@.len() == 5 && "Center X %"@.len() == 10);
    assert("Angle"@.len() == 5 && "Center Y %"@.len() == 10);
    assert("Center X %"@[7] == 'X' && "Center Y %"@[7] == 'Y');
}

/// The controls of twist.
#[verifier::spinoff_prover]
pub proof fn law_set_twist(
    amount: i32,
    radius: i32,
    center_x: i32,
    center_y: i32,
    x: i32,
)
    ensures
        ({
            let p = FilterParams::Twist { amount, radius, center_x, center_y };
            &&& p.labelled("Amount"@, ControlValue::Slider(x)) == (FilterParams::Twist {
                amount: x,
                radius,
                center_x,
                center_y,
            })
            &&& p.labelled("Radius %"@, ControlValue::Slider(x)) == (FilterParams::Twist {
                amount,
                radius: x,
                center_x,
                center_y,
            })
            &&& p.labelled("Center X %"@, ControlValue::Slider(x)) == (FilterParams::Twist {
                amount,
                radius,
                center_x: x,
                center_y,
            })
            &&& p.labelled("Center Y %"@, ControlValue::Slider(x)) == (FilterParams::Twist {
                amount,
                radius,
                center_x,
                center_y: x,
            })
        }),
{
    reveal_strlit("Amount");
    reveal_strlit("Radius %");
    reveal_strlit("Center X %");
    reveal_strlit("Center Y %");
    assert("Amount"@.len() == 6 && "Radius %"@.len() == 8);
    assert("Amount"@.len() == 6 && "Center X %"@.len() == 10);
    assert("Amount"@.len() == 6 && "Center Y %"@.len() == 10);
    assert("Radius %"@.len() == 8 && "Center X %"@.len() == 10);
    assert("Radius %"@.len() == 8 && "Center Y %"@.len() == 10);
    assert("Center X %"@[7] == 'X' && "Center Y %"@[7] == 'Y');
}

/// The controls of chromatic aberration.
#[verifier::spinoff_prover]
pub proof fn law_set_chromatic_aberration(
    mode: ChromaMode,
    amount: i32,
    angle: i32,
    center_atten: i32,
    red_scale: i32,
    blue_scale: i32,
    x: i32,
)
    ensures
        ({
            let p = FilterParams::ChromaticAberration { mode, amount, angle, center_atten, red_scale, blue_scale };
            &&& p.labelled("Mode"@, ControlValue::Choice(0)) == (FilterParams::ChromaticAberration {
                mode: ChromaMode::Radial,
                amount,
                angle,
                center_atten,
                red_scale,
                blue_scale,
            })
            &&& p.labelled("Mode"@, ControlValue::Choice(1)) == (FilterParams::ChromaticAberration {
                mode: ChromaMode::Linear,
                amount,
                angle,
                center_atten,
                red_scale,
                blue_scale,
            })
            &&& p.labelled("Mode"@, ControlValue::Choice(2)) == (FilterParams::ChromaticAberration {
                mode: ChromaMode::Tangential,
                amount,
                angle,
                center_atten,
                red_scale,
                blue_scale,
            })
            &&& p.spec_options("Mode"@)[0]@ == "Radial"@
            &&& p.spec_options("Mode"@)[1]@ == "Linear"@
            &&& p.spec_options("Mode"@)[2]@ == "Tangential"@
            &&& p.labelled("Amount"@, ControlValue::Slider(x)) == (FilterParams::ChromaticAberration {
                mode,
                amount: x,
                angle,
                center_atten,
                red_scale,
                blue_scale,
            })
            &&& p.labelled("Angle"@, ControlValue::Slider(x)) == (FilterParams::ChromaticAberration {
                mode,
                amount,
                angle: x,
                center_atten,
                red_scale,
                blue_scale,
            })
            &&& p.labelled("Edge only"@, ControlValue::Slider(x)) == (FilterParams::ChromaticAberration {
                mode,
                amount,
                angle,
                center_atten: x,
                red_scale,
                blue_scale,
            })
            &&& p.labelled("Red shift"@, ControlValue::Slider(x)) == (FilterParams::ChromaticAberration {
                mode,
                amount,
                angle,
                center_atten,
                red_scale: x,
                blue_scale,
            })
            &&& p.labelled("Blue shift"@, ControlValue::Slider(x)) == (FilterParams::ChromaticAberration {
                mode,
                amount,
                angle,
                center_atten,
                red_scale,
                blue_scale: x,
            })
        }),
{
    reveal_strlit("Mode");
    reveal_strlit("Amount");
    reveal_strlit("Angle");
    reveal_strlit("Edge only");
    reveal_strlit("Red shift");
    reveal_strlit("Blue shift");
    assert("Mode"@.len() == 4 && "Amount"@.len() == 6);
    assert("Mode"@.len() == 4 && "Angle"@.len() == 5);
    assert("Mode"@.len() == 4 && "Edge only"@.len() == 9);
    assert("Mode"@.len() == 4 && "Red shift"@.len() == 9);
    assert("Mode"@.len() == 4 && "Blue shift"@.len() == 10);
    assert("Amount"@.len() == 6 && "Angle"@.len() == 5);
    assert("Amount"@.len() == 6 && "Edge only"@.len() == 9);
    assert("Amount"@.len() == 6 && "Red shift"@.len() == 9);
    assert("Amount"@.len() == 6 && "Blue shift"@.len() == 10);
    assert("Angle"@.len() == 5 && "Edge only"@.len() == 9);
    assert("Angle"@.len() == 5 && "Red shift"@.len() == 9);
    assert("Angle"@.len() == 5 && "Blue shift"@.len() == 10);
    assert("Edge only"@[0] == 'E' && "Red shift"@[0] == 'R');
    assert("Edge only"@.len() == 9 && "Blue shift"@.len() == 10);
    assert("Red shift"@.len() == 9 && "Blue shift"@.len() == 10);
}

/// The controls of noise.
#[verifier::spinoff_prover]
pub proof fn law_set_noise(
    method: NoiseMethod,
    amount: i32,
    monochrome: bool,
    on: bool,
    x: i32,
)
    ensures
        ({
            let p = FilterParams::Noise { method, amount, monochrome };
            &&& p.labelled("Method"@, ControlValue::Choice(0)) == (FilterParams::Noise {
                method: NoiseMethod::Soft,
                amount,
                monochrome,
            })
            &&& p.labelled("Method"@, ControlValue::Choice(1)) == (FilterParams::Noise {
                method: NoiseMethod::Uniform,
                amount,
                monochrome,
            })
            &&& p.labelled("Method"@, ControlValue::Choice(2)) == (FilterParams::Noise {
                method: NoiseMethod::SaltPepper,
                amount,
                monochrome,
            })
            &&& p.spec_options("Method"@)[0]@ == "Soft"@
            &&& p.spec_options("Method"@)[1]@ == "Uniform"@
            &&& p.spec_options("Method"@)[2]@ == "Salt & Pepper"@
            &&& p.labelled("Amount"@, ControlValue::Slider(x)) == (FilterParams::Noise {
                method,
                amount: x,
                monochrome,
            })
            &&& p.labelled("Monochrome"@, ControlValue::Switch(on)) == (FilterParams::Noise {
                method,
                amount,
                monochrome: on,
            })
        }),
{
    reveal_strlit("Method");
    reveal_strlit("Amount");
    reveal_strlit("Monochrome");
    assert("Method"@[0] == 'M' && "Amount"@[0] == 'A');
    assert("Method"@.len() == 6 && "Monochrome"@.len() == 10);
    assert("Amount"@.len() == 6 && "Monochrome"@.len() == 10);
}

/// The controls of glitch.
#[verifier::spinoff_prover]
pub proof fn law_set_glitch(
    method: GlitchMethod,
    amount: i32,
    slice_height: i32,
    max_shift: i32,
    x: i32,
)
    ensures
        ({
            let p = FilterParams::Glitch { method, amount, slice_height, max_shift };
            &&& p.labelled("Method"@, ControlValue::Choice(0)) == (FilterParams::Glitch {
                method: GlitchMethod::SliceShift,
                amount,
                slice_height,
                max_shift,
            })
            &&& p.labelled("Method"@, ControlValue::Choice(1)) == (FilterParams::Glitch {
                method: GlitchMethod::ChannelTear,
                amount,
                slice_height,
                max_shift,
            })
            &&& p.labelled("Method"@, ControlValue::Choice(2)) == (FilterParams::Glitch {
                method: GlitchMethod::BlockDisplace,
                amount,
                slice_height,
                max_shift,
            })
            &&& p.spec_options("Method"@)[0]@ == "Slice shift"@
            &&& p.spec_options("Method"@)[1]@ == "Channel tear"@
            &&& p.spec_options("Method"@)[2]@ == "Block displace"@
            &&& p.labelled("Amount"@, ControlValue::Slider(x)) == (FilterParams::Glitch {
                method,
                amount: x,
                slice_height,
                max_shift,
            })
            &&& p.labelled("Slice / block"@, ControlValue::Slider(x)) == (FilterParams::Glitch {
                method,
                amount,
                slice_height: x,
                max_shift,
            })
            &&& p.labelled("Max shift"@, ControlValue::Slider(x)) == (FilterParams::Glitch {
                method,
                amount,
                slice_height,
                max_shift: x,
            })
        }),
{
    reveal_strlit("Method");
    reveal_strlit("Amount");
    reveal_strlit("Slice / block");
    reveal_strlit("Max shift");
    assert("Method"@[0] == 'M' && "Amount"@[0] == 'A');
    assert("Method"@.len() == 6 && "Slice / block"@.len() == 13);
    assert("Method"@.len() == 6 && "Max shift"@.len() == 9);
    assert("Amount"@.len() == 6 && "Slice / block"@.len() == 13);
    assert("Amount"@.len() == 6 && "Max shift"@.len() == 9);
    assert("Slice / block"@.len() == 13 && "Max shift"@.len() == 9);
}

/// The controls of vignette.
#[verifier::spinoff_prover]
pub proof fn law_set_vignette(
    shape: VignetteShape,
    amount: i32,
    softness: i32,
    roundness: i32,
    color: Rgb,
    c: Rgb,
    x: i32,
)
    ensures
        ({
            let p = FilterParams::Vignette { shape, amount, softness, roundness, color };
            &&& p.labelled("Shape"@, ControlValue::Choice(0)) == (FilterParams::Vignette {
                shape: VignetteShape::Circle,
                amount,
                softness,
                roundness,
                color,
            })
            &&& p.labelled("Shape"@, ControlValue::Choice(1)) == (FilterParams::Vignette {
                shape: VignetteShape::Ellipse,
                amount,
                softness,
                roundness,
                color,
            })
            &&& p.spec_options("Shape"@)[0]@ == "Circle"@
            &&& p.spec_options("Shape"@)[1]@ == "Ellipse / box"@
            &&& p.labelled("Amount"@, ControlValue::Slider(x)) == (FilterParams::Vignette {
                shape,
                amount: x,
                softness,
                roundness,
                color,
            })
            &&& p.labelled("Softness"@, ControlValue::Slider(x)) == (FilterParams::Vignette {
                shape,
                amount,
                softness: x,
                roundness,
                color,
            })
            &&& p.labelled("Roundness"@, ControlValue::Slider(x)) == (FilterParams::Vignette {
                shape,
                amount,
                softness,
                roundness: x,
                color,
            })
            &&& p.labelled("Color"@, ControlValue::Colour(c)) == (FilterParams::Vignette {
                shape,
                amount,
                softness,
                roundness,
                color: c,
            })
        }),
{
    reveal_strlit("Shape");
    reveal_strlit("Amount");
    reveal_strlit("Softness");
    reveal_strlit("Roundness");
    reveal_strlit("Color");
    assert("Shape"@.len() == 5 && "Amount"@.len() == 6);
    assert("Shape"@.len() == 5 && "Softness"@.len() == 8);
    assert("Shape"@.len() == 5 && "Roundness"@.len() == 9);
    assert("Shape"@[0] == 'S' && "Color"@[0] == 'C');
    assert("Amount"@.len() == 6 && "Softness"@.len() == 8);
    assert("Amount"@.len() == 6 && "Roundness"@.len() == 9);
    assert("Amount"@.len() == 6 && "Color"@.len() == 5);
    assert("Softness"@.len() == 8 && "Roundness"@.len() == 9);
    assert("Softness"@.len() == 8 && "Color"@.len() == 5);
    assert("Roundness"@.len() == 9 && "Color"@.len() == 5);
}

/// The controls of glow.
#[verifier::spinoff_prover]
pub proof fn law_set_glow(
    radius: i32,
    intensity: i32,
    tint: bool,
    color: Rgb,
    c: Rgb,
    on: bool,
    x: i32,
)
    ensures
        ({
            let p = FilterParams::Glow { radius, intensity, tint, color };
            &&& p.labelled("Radius"@, ControlValue::Slider(x)) == (FilterParams::Glow {
                radius: x,
                intensity,
                tint,
                color,
            })
            &&& p.labelled("Intensity"@, ControlValue::Slider(x)) == (FilterParams::Glow {
                radius,
                intensity: x,
                tint,
                color,
            })
            &&& p.labelled("Tint color"@, ControlValue::Switch(on)) == (FilterParams::Glow {
                radius,
                intensity,
                tint: on,
                color,
            })
            &&& p.labelled("Color"@, ControlValue::Colour(c)) == (FilterParams::Glow {
                radius,
                intensity,
                tint,
                color: c,
            })
        }),
{
    reveal_strlit("Radius");
    reveal_strlit("Intensity");
    reveal_strlit("Tint color");
    reveal_strlit("Color");
    assert("Radius"@.len() == 6 && "Intensity"@.len() == 9);
    assert("Radius"@.len() == 6 && "Tint color"@.len() == 10);
    assert("Radius"@.len() == 6 && "Color"@.len() == 5);
    assert("Intensity"@.len() == 9 && "Tint color"@.len() == 10);
    assert("Intensity"@.len() == 9 && "Color"@.len() == 5);
    assert("Tint color"@.len() == 10 && "Color"@.len() == 5);
}

/// The controls of sepia.
#[verifier::spinoff_prover]
pub proof fn law_set_sepia(amount: i32, warmth: i32, x: i32)
    ensures
        ({
            let p = FilterParams::Sepia { amount, warmth };
            &&& p.labelled("Amount"@, ControlValue::Slider(x)) == (FilterParams::Sepia {
                amount: x,
                warmth,
            })
            &&& p.labelled("Warmth"@, ControlValue::Slider(x)) == (FilterParams::Sepia {
                amount,
                warmth: x,
            })
        }),
{
    reveal_strlit("Amount");
    reveal_strlit("Warmth");
    assert("Amount"@[0] == 'A' && "Warmth"@[0] == 'W');
}

/// The controls of film grain.
#[verifier::spinoff_prover]
pub proof fn law_set_film_grain(
    amount: i32,
    size: i32,
    roughness: i32,
    monochrome: bool,
    shadow_bias: i32,
    on: bool,
    x: i32,
)
    ensures
        ({
            let p = FilterParams::FilmGrain { amount, size, roughness, monochrome, shadow_bias };
            &&& p.labelled("Amount"@, ControlValue::Slider(x)) == (FilterParams::FilmGrain {
                amount: x,
                size,
                roughness,
                monochrome,
                shadow_bias,
            })
            &&& p.labelled("Size"@, ControlValue::Slider(x)) == (FilterParams::FilmGrain {
                amount,
                size: x,
                roughness,
                monochrome,
                shadow_bias,
            })
            &&& p.labelled("Roughness"@, ControlValue::Slider(x)) == (FilterParams::FilmGrain {
                amount,
                size,
                roughness: x,
                monochrome,
                shadow_bias,
            })
            &&& p.labelled("Monochrome"@, ControlValue::Switch(on)) == (FilterParams::FilmGrain {
                amount,
                size,
                roughness,
                monochrome: on,
                shadow_bias,
            })
            &&& p.labelled("Shadow bias"@, ControlValue::Slider(x)) == (FilterParams::FilmGrain {
                amount,
                size,
                roughness,
                monochrome,
                shadow_bias: x,
            })
        }),
{
    reveal_strlit("Amount");
    reveal_strlit("Size");
    reveal_strlit("Roughness");
    reveal_strlit("Monochrome");
    reveal_strlit("Shadow bias");
    assert("Amount"@.len() == 6 && "Size"@.len() == 4);
    assert("Amount"@.len() == 6 && "Roughness"@.len() == 9);
    assert("Amount"@.len() == 6 && "Monochrome"@.len() == 10);
    assert("Amount"@.len() == 6 && "Shadow bias"@.len() == 11);
    assert("Size"@.len() == 4 && "Roughness"@.len() == 9);
    assert("Size"@.len() == 4 && "Monochrome"@.len() == 10);
    assert("Size"@.len() == 4 && "Shadow bias"@.len() == 11);
    assert("Roughness"@.len() == 9 && "Monochrome"@.len() == 10);
    assert("Roughness"@.len() == 9 && "Shadow bias"@.len() == 11);
    assert("Monochrome"@.len() == 10 && "Shadow bias"@.len() == 11);
}

/// The controls of dither.
#[verifier::spinoff_prover]
pub proof fn law_set_dither(
    method: DitherMethod,
    levels: u32,
    amount: i32,
    serpentine: bool,
    pattern_size: i32,
    monochrome: bool,
    on: bool,
    x: i32,
    n: u32,
)
    ensures
        ({
            let p = FilterParams::Dither { method, levels, amount, serpentine, pattern_size, monochrome };
            &&& p.labelled("Method"@, ControlValue::Choice(0)) == (FilterParams::Dither {
                method: DitherMethod::Bayer2,
                levels,
                amount,
                serpentine,
                pattern_size,
                monochrome,
            })
            &&& p.labelled("Method"@, ControlValue::Choice(1)) == (FilterParams::Dither {
                method: DitherMethod::Bayer4,
                levels,
                amount,
                serpentine,
                pattern_size,
                monochrome,
            })
            &&& p.labelled("Method"@, ControlValue::Choice(2)) == (FilterParams::Dither {
                method: DitherMethod::Bayer8,
                levels,
                amount,
                serpentine,
                pattern_size,
                monochrome,
            })
            &&& p.labelled("Method"@, ControlValue::Choice(3)) == (FilterParams::Dither {
                method: DitherMethod::FloydSteinberg,
                levels,
                amount,
                serpentine,
                pattern_size,
                monochrome,
            })
            &&& p.spec_options("Method"@)[0]@ == "Bayer 2×2"@
            &&& p.spec_options("Method"@)[1]@ == "Bayer 4×4"@
            &&& p.spec_options("Method"@)[2]@ == "Bayer 8×8"@
            &&& p.spec_options("Method"@)[3]@ == "Floyd–Steinberg"@
            &&& p.labelled("Levels"@, ControlValue::Count(n)) == (FilterParams::Dither {
                method,
                levels: n,
                amount,
                serpentine,
                pattern_size,
                monochrome,
            })
            &&& p.labelled("Amount"@, ControlValue::Slider(x)) == (FilterParams::Dither {
                method,
                levels,
                amount: x,
                serpentine,
                pattern_size,
                monochrome,
            })
            &&& p.labelled("Serpentine scan"@, ControlValue::Switch(on)) == (FilterParams::Dither {
                method,
                levels,
                amount,
                serpentine: on,
                pattern_size,
                monochrome,
            })
            &&& p.labelled("Pattern size"@, ControlValue::Slider(x)) == (FilterParams::Dither {
                method,
                levels,
                amount,
                serpentine,
                pattern_size: x,
                monochrome,
            })
            &&& p.labelled("Monochrome (luma)"@, ControlValue::Switch(on)) == (FilterParams::Dither {
                method,
                levels,
                amount,
                serpentine,
                pattern_size,
                monochrome: on,
            })
        }),
{
    reveal_strlit("Method");
    reveal_strlit("Levels");
    reveal_strlit("Amount");
    reveal_strlit("Serpentine scan");
    reveal_strlit("Pattern size");
    reveal_strlit("Monochrome (luma)");
    assert("Method"@[0] == 'M' && "Levels"@[0] == 'L');
    assert("Method"@[0] == 'M' && "Amount"@[0] == 'A');
    assert("Method"@.len() == 6 && "Serpentine scan"@.len() == 15);
    assert("Method"@.len() == 6 && "Pattern size"@.len() == 12);
    assert("Method"@.len() == 6 && "Monochrome (luma)"@.len() == 17);
    assert("Levels"@[0] == 'L' && "Amount"@[0] == 'A');
    assert("Levels"@.len() == 6 && "Serpentine scan"@.len() == 15);
    assert("Levels"@.len() == 6 && "Pattern size"@.len() == 12);
    assert("Levels"@.len() == 6 && "Monochrome (luma)"@.len() == 17);
    assert("Amount"@.len() == 6 && "Serpentine scan"@.len() == 15);
    assert("Amount"@.len() == 6 && "Pattern size"@.len() == 12);
    assert("Amount"@.len() == 6 && "Monochrome (luma)"@.len() == 17);
    assert("Serpentine scan"@.len() == 15 && "Pattern size"@.len() == 12);
    assert("Serpentine scan"@.len() == 15 && "Monochrome (luma)"@.len() == 17);
    assert("Pattern size"@.len() == 12 && "Monochrome (luma)"@.len() == 17);
}

/// The controls of replace color.
#[verifier::spinoff_prover]
pub proof fn law_set_replace_color(
    from: Rgb,
    to: Rgb,
    tolerance: i32,
    softness: i32,
    affect: ReplaceAffect,
    amount: i32,
    c: Rgb,
    x: i32,
)
    ensures
        ({
            let p = FilterParams::ReplaceColor { from, to, tolerance, softness, affect, amount };
            &&& p.labelled("From"@, ControlValue::Colour(c)) == (FilterParams::ReplaceColor {
                from: c,
                to,
                tolerance,
                softness,
                affect,
                amount,
            })
            &&& p.labelled("To"@, ControlValue::Colour(c)) == (FilterParams::ReplaceColor {
                from,
                to: c,
                tolerance,
                softness,
                affect,
                amount,
            })
            &&& p.labelled("Tolerance"@, ControlValue::Slider(x)) == (FilterParams::ReplaceColor {
                from,
                to,
                tolerance: x,
                softness,
                affect,
                amount,
            })
            &&& p.labelled("Softness"@, ControlValue::Slider(x)) == (FilterParams::ReplaceColor {
                from,
                to,
                tolerance,
                softness: x,
                affect,
                amount,
            })
            &&& p.labelled("Affect"@, ControlValue::Choice(0)) == (FilterParams::ReplaceColor {
                from,
                to,
                tolerance,
                softness,
                affect: ReplaceAffect::HueSat,
                amount,
            })
            &&& p.labelled("Affect"@, ControlValue::Choice(1)) == (FilterParams::ReplaceColor {
                from,
                to,
                tolerance,
                softness,
                affect: ReplaceAffect::HueOnly,
                amount,
            })
            &&& p.labelled("Affect"@, ControlValue::Choice(2)) == (FilterParams::ReplaceColor {
                from,
                to,
                tolerance,
                softness,
                affect: ReplaceAffect::FullRgb,
                amount,
            })
            &&& p.spec_options("Affect"@)[0]@ == "Hue+Sat"@
            &&& p.spec_options("Affect"@)[1]@ == "Hue"@
            &&& p.spec_options("Affect"@)[2]@ == "Full RGB"@
            &&& p.labelled("Amount"@, ControlValue::Slider(x)) == (FilterParams::ReplaceColor {
                from,
                to,
                tolerance,
                softness,
                affect,
                amount: x,
            })
        }),
{
    reveal_strlit("From");
    reveal_strlit("To");
    reveal_strlit("Tolerance");
    reveal_strlit("Softness");
    reveal_strlit("Affect");
    reveal_strlit("Amount");
    assert("From"@.len() == 4 && "To"@.len() == 2);
    assert("From"@.len() == 4 && "Tolerance"@.len() == 9);
    assert("From"@.len() == 4 && "Softness"@.len() == 8);
    assert("From"@.len() == 4 && "Affect"@.len() == 6);
    assert("From"@.len() == 4 && "Amount"@.len() == 6);
    assert("To"@.len() == 2 && "Tolerance"@.len() == 9);
    assert("To"@.len() == 2 && "Softness"@.len() == 8);
    assert("To"@.len() == 2 && "Affect"@.len() == 6);
    assert("To"@.len() == 2 && "Amount"@.len() == 6);
    assert("Tolerance"@.len() == 9 && "Softness"@.len() == 8);
    assert("Tolerance"@.len() == 9 && "Affect"@.len() == 6);
    assert("Tolerance"@.len() == 9 && "Amount"@.len() == 6);
    assert("Softness"@.len() == 8 && "Affect"@.len() == 6);
    assert("Softness"@.len() == 8 && "Amount"@.len() == 6);
    assert("Affect"@[1] == 'f' && "Amount"@[1] == 'm');
}

/// The controls of outline.
#[verifier::spinoff_prover]
pub proof fn law_set_outline(
    thickness: i32,
    threshold: i32,
    softness: i32,
    color: Rgb,
    opacity: i32,
    mode: OutlineMode,
    use_luma: bool,
    c: Rgb,
    on: bool,
    x: i32,
)
    ensures
        ({
            let p = FilterParams::Outline {
                thickness,
                threshold,
                softness,
                color,
                opacity,
                mode,
                use_luma,
            };
            &&& p.labelled("Thickness"@, ControlValue::Slider(x)) == (FilterParams::Outline {
                thickness: x,
                threshold,
                softness,
                color,
                opacity,
                mode,
                use_luma,
            })
            &&& p.labelled("Threshold"@, ControlValue::Slider(x)) == (FilterParams::Outline {
                thickness,
                threshold: x,
                softness,
                color,
                opacity,
                mode,
                use_luma,
            })
            &&& p.labelled("Softness"@, ControlValue::Slider(x)) == (FilterParams::Outline {
                thickness,
                threshold,
                softness: x,
                color,
                opacity,
                mode,
                use_luma,
            })
            &&& p.labelled("Color"@, ControlValue::Colour(c)) == (FilterParams::Outline {
                thickness,
                threshold,
                softness,
                color: c,
                opacity,
                mode,
                use_luma,
            })
            &&& p.labelled("Opacity"@, ControlValue::Slider(x)) == (FilterParams::Outline {
                thickness,
                threshold,
                softness,
                color,
                opacity: x,
                mode,
                use_luma,
            })
            &&& p.labelled("Mode"@, ControlValue::Choice(0)) == (FilterParams::Outline {
                thickness,
                threshold,
                softness,
                color,
                opacity,
                mode: OutlineMode::Outer,
                use_luma,
            })
            &&& p.labelled("Mode"@, ControlValue::Choice(1)) == (FilterParams::Outline {
                thickness,
                threshold,
                softness,
                color,
                opacity,
                mode: OutlineMode::Inner,
                use_luma,
            })
            &&& p.labelled("Mode"@, ControlValue::Choice(2)) == (FilterParams::Outline {
                thickness,
                threshold,
                softness,
                color,
                opacity,
                mode: OutlineMode::Center,
                use_luma,
            })
            &&& p.spec_options("Mode"@)[0]@ == "Outer"@
            &&& p.spec_options("Mode"@)[1]@ == "Inner"@
            &&& p.spec_options("Mode"@)[2]@ == "Center"@
            &&& p.labelled("Use luminance edges"@, ControlValue::Switch(on)) == (FilterParams::Outline {
                thickness,
                threshold,
                softness,
                color,
                opacity,
                mode,
                use_luma: on,
            })
        }),
{
    reveal_strlit("Thickness");
    reveal_strlit("Threshold");
    reveal_strlit("Softness");
    reveal_strlit("Color");
    reveal_strlit("Opacity");
    reveal_strlit("Mode");
    reveal_strlit("Use luminance edges");
    assert("Thickness"@[2] == 'i' && "Threshold"@[2] == 'r');
    assert("Thickness"@.len() == 9 && "Softness"@.len() == 8);
    assert("Thickness"@.len() == 9 && "Color"@.len() == 5);
    assert("Thickness"@.len() == 9 && "Opacity"@.len() == 7);
    assert("Thickness"@.len() == 9 && "Mode"@.len() == 4);
    assert("Thickness"@.len() == 9 && "Use luminance edges"@.len() == 19);
    assert("Threshold"@.len() == 9 && "Softness"@.len() == 8);
    assert("Threshold"@.len() == 9 && "Color"@.len() == 5);
    assert("Threshold"@.len() == 9 && "Opacity"@.len() == 7);
    assert("Threshold"@.len() == 9 && "Mode"@.len() == 4);
    assert("Threshold"@.len() == 9 && "Use luminance edges"@.len() == 19);
    assert("Softness"@.len() == 8 && "Color"@.len() == 5);
    assert("Softness"@.len() == 8 && "Opacity"@.len() == 7);
    assert("Softness"@.len() == 8 && "Mode"@.len() == 4);
    assert("Softness"@.len() == 8 && "Use luminance edges"@.len() == 19);
    assert("Color"@.len() == 5 && "Opacity"@.len() == 7);
    assert("Color"@.len() == 5 && "Mode"@.len() == 4);
    assert("Color"@.len() == 5 && "Use luminance edges"@.len() == 19);
    assert("Opacity"@.len() == 7 && "Mode"@.len() == 4);
    assert("Opacity"@.len() == 7 && "Use luminance edges"@.len() == 19);
    assert("Mode"@.len() == 4 && "Use luminance edges"@.len() == 19);
}

/// The controls of oil paint.
#[verifier::spinoff_prover]
pub proof fn law_set_oil_paint(radius: i32, levels: u32, strength: i32, x: i32, n: u32)
    ensures
        ({
            let p = FilterParams::OilPaint { radius, levels, strength };
            &&& p.labelled("Brush size"@, ControlValue::Slider(x)) == (FilterParams::OilPaint {
                radius: x,
                levels,
                strength,
            })
            &&& p.labelled("Levels"@, ControlValue::Count(n)) == (FilterParams::OilPaint {
                radius,
                levels: n,
                strength,
            })
            &&& p.labelled("Strength"@, ControlValue::Slider(x)) == (FilterParams::OilPaint {
                radius,
                levels,
                strength: x,
            })
        }),
{
    reveal_strlit("Brush size");
    reveal_strlit("Levels");
    reveal_strlit("Strength");
    assert("Brush size"@.len() == 10 && "Levels"@.len() == 6);
    assert("Brush size"@.len() == 10 && "Strength"@.len() == 8);
    assert("Levels"@.len() == 6 && "Strength"@.len() == 8);
}

/// The controls of watercolor.
#[verifier::spinoff_prover]
pub proof fn law_set_watercolor(
    blur: i32,
    bleed: i32,
    edge: i32,
    saturation: i32,
    strength: i32,
    x: i32,
)
    ensures
        ({
            let p = FilterParams::Watercolor { blur, bleed, edge, saturation, strength };
            &&& p.labelled("Blur"@, ControlValue::Slider(x)) == (FilterParams::Watercolor {
                blur: x,
                bleed,
                edge,
                saturation,
                strength,
            })
            &&& p.labelled("Bleed"@, ControlValue::Slider(x)) == (FilterParams::Watercolor {
                blur,
                bleed: x,
                edge,
                saturation,
                strength,
            })
            &&& p.labelled("Edge darken"@, ControlValue::Slider(x)) == (FilterParams::Watercolor {
                blur,
                bleed,
                edge: x,
                saturation,
                strength,
            })
            &&& p.labelled("Saturation"@, ControlValue::Slider(x)) == (FilterParams::Watercolor {
                blur,
                bleed,
                edge,
                saturation: x,
                strength,
            })
            &&& p.labelled("Strength"@, ControlValue::Slider(x)) == (FilterParams::Watercolor {
                blur,
                bleed,
                edge,
                saturation,
                strength: x,
            })
        }),
{
    reveal_strlit("Blur");
    reveal_strlit("Bleed");
    reveal_strlit("Edge darken");
    reveal_strlit("Saturation");
    reveal_strlit("Strength");
    assert("Blur"@.len() == 4 && "Bleed"@.len() == 5);
    assert("Blur"@.len() == 4 && "Edge darken"@.len() == 11);
    assert("Blur"@.len() == 4 && "Saturation"@.len() == 10);
    assert("Blur"@.len() == 4 && "Strength"@.len() == 8);
    assert("Bleed"@.len() == 5 && "Edge darken"@.len() == 11);
    assert("Bleed"@.len() == 5 && "Saturation"@.len() == 10);
    assert("Bleed"@.len() == 5 && "Strength"@.len() == 8);
    assert("Edge darken"@.len() == 11 && "Saturation"@.len() == 10);
    assert("Edge darken"@.len() == 11 && "Strength"@.len() == 8);
    assert("Saturation"@.len() == 10 && "Strength"@.len() == 8);
}

/// The controls of pencil.
#[verifier::spinoff_prover]
pub proof fn law_set_pencil(
    detail: i32,
    darkness: i32,
    grain: i32,
    strength: i32,
    x: i32,
)
    ensures
        ({
            let p = FilterParams::Pencil { detail, darkness, grain, strength };
            &&& p.labelled("Detail"@, ControlValue::Slider(x)) == (FilterParams::Pencil {
                detail: x,
                darkness,
                grain,
                strength,
            })
            &&& p.labelled("Darkness"@, ControlValue::Slider(x)) == (FilterParams::Pencil {
                detail,
                darkness: x,
                grain,
                strength,
            })
            &&& p.labelled("Grain"@, ControlValue::Slider(x)) == (FilterParams::Pencil {
                detail,
                darkness,
                grain: x,
                strength,
            })
            &&& p.labelled("Strength"@, ControlValue::Slider(x)) == (FilterParams::Pencil {
                detail,
                darkness,
                grain,
                strength: x,
            })
        }),
{
    reveal_strlit("Detail");
    reveal_strlit("Darkness");
    reveal_strlit("Grain");
    reveal_strlit("Strength");
    assert("Detail"@.len() == 6 && "Darkness"@.len() == 8);
    assert("Detail"@.len() == 6 && "Grain"@.len() == 5);
    assert("Detail"@.len() == 6 && "Strength"@.len() == 8);
    assert("Darkness"@.len() == 8 && "Grain"@.len() == 5);
    assert("Darkness"@[0] == 'D' && "Strength"@[0] == 'S');
    assert("Grain"@.len() == 5 && "Strength"@.len() == 8);
}

/// The controls of pastel.
#[verifier::spinoff_prover]
pub proof fn law_set_pastel(
    softness: i32,
    chalk: i32,
    lighten: i32,
    strength: i32,
    x: i32,
)
    ensures
        ({
            let p = FilterParams::Pastel { softness, chalk, lighten, strength };
            &&& p.labelled("Softness"@, ControlValue::Slider(x)) == (FilterParams::Pastel {
                softness: x,
                chalk,
                lighten,
                strength,
            })
            &&& p.labelled("Chalk"@, ControlValue::Slider(x)) == (FilterParams::Pastel {
                softness,
                chalk: x,
                lighten,
                strength,
            })
            &&& p.labelled("Lighten"@, ControlValue::Slider(x)) == (FilterParams::Pastel {
                softness,
                chalk,
                lighten: x,
                strength,
            })
            &&& p.labelled("Strength"@, ControlValue::Slider(x)) == (FilterParams::Pastel {
                softness,
                chalk,
                lighten,
                strength: x,
            })
        }),
{
    reveal_strlit("Softness");
    reveal_strlit("Chalk");
    reveal_strlit("Lighten");
    reveal_strlit("Strength");
    assert("Softness"@.len() == 8 && "Chalk"@.len() == 5);
    assert("Softness"@.len() == 8 && "Lighten"@.len() == 7);
    assert("Softness"@[1] == 'o' && "Strength"@[1] == 't');
    assert("Chalk"@.len() == 5 && "Lighten"@.len() == 7);
    assert("Chalk"@.len() == 5 && "Strength"@.len() == 8);
    assert("Lighten"@.len() == 7 && "Strength"@.len() == 8);
}

/// The controls of paper texture.
#[verifier::spinoff_prover]
pub proof fn law_set_paper_texture(amount: i32, scale: i32, roughness: i32, warm: i32, x: i32)
    ensures
        ({
            let p = FilterParams::PaperTexture { amount, scale, roughness, warm };
            &&& p.labelled("Amount"@, ControlValue::Slider(x)) == (FilterParams::PaperTexture {
                amount: x,
                scale,
                roughness,
                warm,
            })
            &&& p.labelled("Scale"@, ControlValue::Slider(x)) == (FilterParams::PaperTexture {
                amount,
                scale: x,
                roughness,
                warm,
            })
            &&& p.labelled("Roughness"@, ControlValue::Slider(x)) == (FilterParams::PaperTexture {
                amount,
                scale,
                roughness: x,
                warm,
            })
            &&& p.labelled("Warmth"@, ControlValue::Slider(x)) == (FilterParams::PaperTexture {
                amount,
                scale,
                roughness,
                warm: x,
            })
        }),
{
    reveal_strlit("Amount");
    reveal_strlit("Scale");
    reveal_strlit("Roughness");
    reveal_strlit("Warmth");
    assert("Amount"@.len() == 6 && "Scale"@.len() == 5);
    assert("Amount"@.len() == 6 && "Roughness"@.len() == 9);
    assert("Amount"@[0] == 'A' && "Warmth"@[0] == 'W');
    assert("Scale"@.len() == 5 && "Roughness"@.len() == 9);
    assert("Scale"@.len() == 5 && "Warmth"@.len() == 6);
    assert("Roughness"@.len() == 9 && "Warmth"@.len() == 6);
}

/// The controls of neon glow.
#[verifier::spinoff_prover]
pub proof fn law_set_neon_glow(
    radius: i32,
    intensity: i32,
    threshold: i32,
    color: Rgb,
    core: i32,
    c: Rgb,
    x: i32,
)
    ensures
        ({
            let p = FilterParams::NeonGlow { radius, intensity, threshold, color, core };
            &&& p.labelled("Radius"@, ControlValue::Slider(x)) == (FilterParams::NeonGlow {
                radius: x,
                intensity,
                threshold,
                color,
                core,
            })
            &&& p.labelled("Intensity"@, ControlValue::Slider(x)) == (FilterParams::NeonGlow {
                radius,
                intensity: x,
                threshold,
                color,
                core,
            })
            &&& p.labelled("Threshold"@, ControlValue::Slider(x)) == (FilterParams::NeonGlow {
                radius,
                intensity,
                threshold: x,
                color,
                core,
            })
            &&& p.labelled("Color"@, ControlValue::Colour(c)) == (FilterParams::NeonGlow {
                radius,
                intensity,
                threshold,
                color: c,
                core,
            })
            &&& p.labelled("Core"@, ControlValue::Slider(x)) == (FilterParams::NeonGlow {
                radius,
                intensity,
                threshold,
                color,
                core: x,
            })
        }),
{
    reveal_strlit("Radius");
    reveal_strlit("Intensity");
    reveal_strlit("Threshold");
    reveal_strlit("Color");
    reveal_strlit("Core");
    assert("Radius"@.len() == 6 && "Intensity"@.len() == 9);
    assert("Radius"@.len() == 6 && "Threshold"@.len() == 9);
    assert("Radius"@.len() == 6 && "Color"@.len() == 5);
    assert("Radius"@.len() == 6 && "Core"@.len() == 4);
    assert("Intensity"@[0] == 'I' && "Threshold"@[0] == 'T');
    assert("Intensity"@.len() == 9 && "Color"@.len() == 5);
    assert("Intensity"@.len() == 9 && "Core"@.len() == 4);
    assert("Threshold"@.len() == 9 && "Color"@.len() == 5);
    assert("Threshold"@.len() == 9 && "Core"@.len() == 4);
    assert("Color"@.len() == 5 && "Core"@.len() == 4);
}

/// The controls of light rays.
#[verifier::spinoff_prover]
pub proof fn law_set_light_rays(
    amount: i32,
    length: i32,
    center_x: i32,
    center_y: i32,
    decay: i32,
    tint: bool,
    color: Rgb,
    c: Rgb,
    on: bool,
    x: i32,
)
    ensures
        ({
            let p = FilterParams::LightRays { amount, length, center_x, center_y, decay, tint, color };
            &&& p.labelled("Amount"@, ControlValue::Slider(x)) == (FilterParams::LightRays {
                amount: x,
                length,
                center_x,
                center_y,
                decay,
                tint,
                color,
            })
            &&& p.labelled("Length"@, ControlValue::Slider(x)) == (FilterParams::LightRays {
                amount,
                length: x,
                center_x,
                center_y,
                decay,
                tint,
                color,
            })
            &&& p.labelled("Center X %"@, ControlValue::Slider(x)) == (FilterParams::LightRays {
                amount,
                length,
                center_x: x,
                center_y,
                decay,
                tint,
                color,
            })
            &&& p.labelled("Center Y %"@, ControlValue::Slider(x)) == (FilterParams::LightRays {
                amount,
                length,
                center_x,
                center_y: x,
                decay,
                tint,
                color,
            })
            &&& p.labelled("Decay"@, ControlValue::Slider(x)) == (FilterParams::LightRays {
                amount,
                length,
                center_x,
                center_y,
                decay: x,
                tint,
                color,
            })
            &&& p.labelled("Tint color"@, ControlValue::Switch(on)) == (FilterParams::LightRays {
                amount,
                length,
                center_x,
                center_y,
                decay,
                tint: on,
                color,
            })
            &&& p.labelled("Color"@, ControlValue::Colour(c)) == (FilterParams::LightRays {
                amount,
                length,
                center_x,
                center_y,
                decay,
                tint,
                color: c,
            })
        }),
{
    reveal_strlit("Amount");
    reveal_strlit("Length");
    reveal_strlit("Center X %");
    reveal_strlit("Center Y %");
    reveal_strlit("Decay");
    reveal_strlit("Tint color");
    reveal_strlit("Color");
    assert("Amount"@[0] == 'A' && "Length"@[0] == 'L');
    assert("Amount"@.len() == 6 && "Center X %"@.len() == 10);
    assert("Amount"@.len() == 6 && "Center Y %"@.len() == 10);
    assert("Amount"@.len() == 6 && "Decay"@.len() == 5);
    assert("Amount"@.len() == 6 && "Tint color"@.len() == 10);
    assert("Amount"@.len() == 6 && "Color"@.len() == 5);
    assert("Length"@.len() == 6 && "Center X %"@.len() == 10);
    assert("Length"@.len() == 6 && "Center Y %"@.len() == 10);
    assert("Length"@.len() == 6 && "Decay"@.len() == 5);
    assert("Length"@.len() == 6 && "Tint color"@.len() == 10);
    assert("Length"@.len() == 6 && "Color"@.len() == 5);
    assert("Center X %"@[7] == 'X' && "Center Y %"@[7] == 'Y');
    assert("Center X %"@.len() == 10 && "Decay"@.len() == 5);
    assert("Center X %"@[0] == 'C' && "Tint color"@[0] == 'T');
    assert("Center X %"@.len() == 10 && "Color"@.len() == 5);
    assert("Center Y %"@.len() == 10 && "Decay"@.len() == 5);
    assert("Center Y %"@[0] == 'C' && "Tint color"@[0] == 'T');
    assert("Center Y %"@.len() == 10 && "Color"@.len() == 5);
    assert("Decay"@.len() == 5 && "Tint color"@.len() == 10);
    assert("Decay"@[0] == 'D' && "Color"@[0] == 'C');
    assert("Tint color"@.len() == 10 && "Color"@.len() == 5);
}

/// The controls of lens flare.
#[verifier::spinoff_prover]
pub proof fn law_set_lens_flare(
    amount: i32,
    center_x: i32,
    center_y: i32,
    size: i32,
    streak: i32,
    color: Rgb,
    c: Rgb,
    x: i32,
)
    ensures
        ({
            let p = FilterParams::LensFlare { amount, center_x, center_y, size, streak, color };
            &&& p.labelled("Amount"@, ControlValue::Slider(x)) == (FilterParams::LensFlare {
                amount: x,
                center_x,
                center_y,
                size,
                streak,
                color,
            })
            &&& p.labelled("Center X %"@, ControlValue::Slider(x)) == (FilterParams::LensFlare {
                amount,
                center_x: x,
                center_y,
                size,
                streak,
                color,
            })
            &&& p.labelled("Center Y %"@, ControlValue::Slider(x)) == (FilterParams::LensFlare {
                amount,
                center_x,
                center_y: x,
                size,
                streak,
                color,
            })
            &&& p.labelled("Size"@, ControlValue::Slider(x)) == (FilterParams::LensFlare {
                amount,
                center_x,
                center_y,
                size: x,
                streak,
                color,
            })
            &&& p.labelled("Streak"@, ControlValue::Slider(x)) == (FilterParams::LensFlare {
                amount,
                center_x,
                center_y,
                size,
                streak: x,
                color,
            })
            &&& p.labelled("Color"@, ControlValue::Colour(c)) == (FilterParams::LensFlare {
                amount,
                center_x,
                center_y,
                size,
                streak,
                color: c,
            })
        }),
{
    reveal_strlit("Amount");
    reveal_strlit("Center X %");
    reveal_strlit("Center Y %");
    reveal_strlit("Size");
    reveal_strlit("Streak");
    reveal_strlit("Color");
    assert("Amount"@.len() == 6 && "Center X %"@.len() == 10);
    assert("Amount"@.len() == 6 && "Center Y %"@.len() == 10);
    assert("Amount"@.len() == 6 && "Size"@.len() == 4);
    assert("Amount"@[0] == 'A' && "Streak"@[0] == 'S');
    assert("Amount"@.len() == 6 && "Color"@.len() == 5);
    assert("Center X %"@[7] == 'X' && "Center Y %"@[7] == 'Y');
    assert("Center X %"@.len() == 10 && "Size"@.len() == 4);
    assert("Center X %"@.len() == 10 && "Streak"@.len() == 6);
    assert("Center X %"@.len() == 10 && "Color"@.len() == 5);
    assert("Center Y %"@.len() == 10 && "Size"@.len() == 4);
    assert("Center Y %"@.len() == 10 && "Streak"@.len() == 6);
    assert("Center Y %"@.len() == 10 && "Color"@.len() == 5);
    assert("Size"@.len() == 4 && "Streak"@.len() == 6);
    assert("Size"@.len() == 4 && "Color"@.len() == 5);
    assert("Streak"@.len() == 6 && "Color"@.len() == 5);
}

/// The controls of drop shadow.
#[verifier::spinoff_prover]
pub proof fn law_set_drop_shadow(
    angle: i32,
    distance: i32,
    blur: i32,
    opacity: i32,
    color: Rgb,
    c: Rgb,
    x: i32,
)
    ensures
        ({
            let p = FilterParams::DropShadow { angle, distance, blur, opacity, color };
            &&& p.labelled("Angle"@, ControlValue::Slider(x)) == (FilterParams::DropShadow {
                angle: x,
                distance,
                blur,
                opacity,
                color,
            })
            &&& p.labelled("Distance"@, ControlValue::Slider(x)) == (FilterParams::DropShadow {
                angle,
                distance: x,
                blur,
                opacity,
                color,
            })
            &&& p.labelled("Blur"@, ControlValue::Slider(x)) == (FilterParams::DropShadow {
                angle,
                distance,
                blur: x,
                opacity,
                color,
            })
            &&& p.labelled("Opacity"@, ControlValue::Slider(x)) == (FilterParams::DropShadow {
                angle,
                distance,
                blur,
                opacity: x,
                color,
            })
            &&& p.labelled("Color"@, ControlValue::Colour(c)) == (FilterParams::DropShadow {
                angle,
                distance,
                blur,
                opacity,
                color: c,
            })
        }),
{
    reveal_strlit("Angle");
    reveal_strlit("Distance");
    reveal_strlit("Blur");
    reveal_strlit("Opacity");
    reveal_strlit("Color");
    assert("Angle"@.len() == 5 && "Distance"@.len() == 8);
    assert("Angle"@.len() == 5 && "Blur"@.len() == 4);
    assert("Angle"@.len() == 5 && "Opacity"@.len() == 7);
    assert("Angle"@[0] == 'A' && "Color"@[0] == 'C');
    assert("Distance"@.len() == 8 && "Blur"@.len() == 4);
    assert("Distance"@.len() == 8 && "Opacity"@.len() == 7);
    assert("Distance"@.len() == 8 && "Color"@.len() == 5);
    assert("Blur"@.len() == 4 && "Opacity"@.len() == 7);
    assert("Blur"@.len() == 4 && "Color"@.len() == 5);
    assert("Opacity"@.len() == 7 && "Color"@.len() == 5);
}

/// The controls of bevel emboss.
#[verifier::spinoff_prover]
pub proof fn law_set_bevel_emboss(
    depth: i32,
    soft: i32,
    angle: i32,
    elevation: i32,
    mode: BevelMode,
    strength: i32,
    x: i32,
)
    ensures
        ({
            let p = FilterParams::BevelEmboss { depth, soft, angle, elevation, mode, strength };
            &&& p.labelled("Depth"@, ControlValue::Slider(x)) == (FilterParams::BevelEmboss {
                depth: x,
                soft,
                angle,
                elevation,
                mode,
                strength,
            })
            &&& p.labelled("Softness"@, ControlValue::Slider(x)) == (FilterParams::BevelEmboss {
                depth,
                soft: x,
                angle,
                elevation,
                mode,
                strength,
            })
            &&& p.labelled("Angle"@, ControlValue::Slider(x)) == (FilterParams::BevelEmboss {
                depth,
                soft,
                angle: x,
                elevation,
                mode,
                strength,
            })
            &&& p.labelled("Elevation"@, ControlValue::Slider(x)) == (FilterParams::BevelEmboss {
                depth,
                soft,
                angle,
                elevation: x,
                mode,
                strength,
            })
            &&& p.labelled("Mode"@, ControlValue::Choice(0)) == (FilterParams::BevelEmboss {
                depth,
                soft,
                angle,
                elevation,
                mode: BevelMode::Bevel,
                strength,
            })
            &&& p.labelled("Mode"@, ControlValue::Choice(1)) == (FilterParams::BevelEmboss {
                depth,
                soft,
                angle,
                elevation,
                mode: BevelMode::Emboss,
                strength,
            })
            &&& p.spec_options("Mode"@)[0]@ == "Bevel"@
            &&& p.spec_options("Mode"@)[1]@ == "Emboss"@
            &&& p.labelled("Strength"@, ControlValue::Slider(x)) == (FilterParams::BevelEmboss {
                depth,
                soft,
                angle,
                elevation,
                mode,
                strength: x,
            })
        }),
{
    reveal_strlit("Depth");
    reveal_strlit("Softness");
    reveal_strlit("Angle");
    reveal_strlit("Elevation");
    reveal_strlit("Mode");
    reveal_strlit("Strength");
    assert("Depth"@.len() == 5 && "Softness"@.len() == 8);
    assert("Depth"@[0] == 'D' && "Angle"@[0] == 'A');
    assert("Depth"@.len() == 5 && "Elevation"@.len() == 9);
    assert("Depth"@.len() == 5 && "Mode"@.len() == 4);
    assert("Depth"@.len() == 5 && "Strength"@.len() == 8);
    assert("Softness"@.len() == 8 && "Angle"@.len() == 5);
    assert("Softness"@.len() == 8 && "Elevation"@.len() == 9);
    assert("Softness"@.len() == 8 && "Mode"@.len() == 4);
    assert("Softness"@[1] == 'o' && "Strength"@[1] == 't');
    assert("Angle"@.len() == 5 && "Elevation"@.len() == 9);
    assert("Angle"@.len() == 5 && "Mode"@.len() == 4);
    assert("Angle"@.len() == 5 && "Strength"@.len() == 8);
    assert("Elevation"@.len() == 9 && "Mode"@.len() == 4);
    assert("Elevation"@.len() == 9 && "Strength"@.len() == 8);
    assert("Mode"@.len() == 4 && "Strength"@.len() == 8);
}

/// The controls of scanlines.
#[verifier::spinoff_prover]
pub proof fn law_set_scanlines(
    spacing: i32,
    thickness: i32,
    opacity: i32,
    color: Rgb,
    vertical: bool,
    soft: bool,
    c: Rgb,
    on: bool,
    x: i32,
)
    ensures
        ({
            let p = FilterParams::Scanlines { spacing, thickness, opacity, color, vertical, soft };
            &&& p.labelled("Spacing"@, ControlValue::Slider(x)) == (FilterParams::Scanlines {
                spacing: x,
                thickness,
                opacity,
                color,
                vertical,
                soft,
            })
            &&& p.labelled("Thickness"@, ControlValue::Slider(x)) == (FilterParams::Scanlines {
                spacing,
                thickness: x,
                opacity,
                color,
                vertical,
                soft,
            })
            &&& p.labelled("Opacity"@, ControlValue::Slider(x)) == (FilterParams::Scanlines {
                spacing,
                thickness,
                opacity: x,
                color,
                vertical,
                soft,
            })
            &&& p.labelled("Color"@, ControlValue::Colour(c)) == (FilterParams::Scanlines {
                spacing,
                thickness,
                opacity,
                color: c,
                vertical,
                soft,
            })
            &&& p.labelled("Vertical"@, ControlValue::Switch(on)) == (FilterParams::Scanlines {
                spacing,
                thickness,
                opacity,
                color,
                vertical: on,
                soft,
            })
            &&& p.labelled("Soft edge"@, ControlValue::Switch(on)) == (FilterParams::Scanlines {
                spacing,
                thickness,
                opacity,
                color,
                vertical,
                soft: on,
            })
        }),
{
    reveal_strlit("Spacing");
    reveal_strlit("Thickness");
    reveal_strlit("Opacity");
    reveal_strlit("Color");
    reveal_strlit("Vertical");
    reveal_strlit("Soft edge");
    assert("Spacing"@.len() == 7 && "Thickness"@.len() == 9);
    assert("Spacing"@[0] == 'S' && "Opacity"@[0] == 'O');
    assert("Spacing"@.len() == 7 && "Color"@.len() == 5);
    assert("Spacing"@.len() == 7 && "Vertical"@.len() == 8);
    assert("Spacing"@.len() == 7 && "Soft edge"@.len() == 9);
    assert("Thickness"@.len() == 9 && "Opacity"@.len() == 7);
    assert("Thickness"@.len() == 9 && "Color"@.len() == 5);
    assert("Thickness"@.len() == 9 && "Vertical"@.len() == 8);
    assert("Thickness"@[0] == 'T' && "Soft edge"@[0] == 'S');
    assert("Opacity"@.len() == 7 && "Color"@.len() == 5);
    assert("Opacity"@.len() == 7 && "Vertical"@.len() == 8);
    assert("Opacity"@.len() == 7 && "Soft edge"@.len() == 9);
    assert("Color"@.len() == 5 && "Vertical"@.len() == 8);
    assert("Color"@.len() == 5 && "Soft edge"@.len() == 9);
    assert("Vertical"@.len() == 8 && "Soft edge"@.len() == 9);
}

/// The controls of liquid glass.
#[verifier::spinoff_prover]
pub proof fn law_set_liquid_glass(
    mode: LiquidGlassMode,
    radius: i32,
    center_x: i32,
    center_y: i32,
    spacing: i32,
    angle: i32,
    refraction: i32,
    specular: i32,
    rim: i32,
    softness: i32,
    chroma: i32,
    tint: Rgb,
    tint_amount: i32,
    c: Rgb,
    x: i32,
)
    ensures
        ({
            let p = FilterParams::LiquidGlass {
                mode,
                radius,
                center_x,
                center_y,
                spacing,
                angle,
                refraction,
                specular,
                rim,
                softness,
                chroma,
                tint,
                tint_amount,
            };
            &&& p.labelled("Mode"@, ControlValue::Choice(0)) == (FilterParams::LiquidGlass {
                mode: LiquidGlassMode::Droplet,
                radius,
                center_x,
                center_y,
                spacing,
                angle,
                refraction,
                specular,
                rim,
                softness,
                chroma,
                tint,
                tint_amount,
            })
            &&& p.labelled("Mode"@, ControlValue::Choice(1)) == (FilterParams::LiquidGlass {
                mode: LiquidGlassMode::Selection,
                radius,
                center_x,
                center_y,
                spacing,
                angle,
                refraction,
                specular,
                rim,
                softness,
                chroma,
                tint,
                tint_amount,
            })
            &&& p.labelled("Mode"@, ControlValue::Choice(2)) == (FilterParams::LiquidGlass {
                mode: LiquidGlassMode::Ribbed,
                radius,
                center_x,
                center_y,
                spacing,
                angle,
                refraction,
                specular,
                rim,
                softness,
                chroma,
                tint,
                tint_amount,
            })
            &&& p.spec_options("Mode"@)[0]@ == "Droplet"@
            &&& p.spec_options("Mode"@)[1]@ == "Selection"@
            &&& p.spec_options("Mode"@)[2]@ == "Ribbed"@
            &&& p.labelled("Radius %"@, ControlValue::Slider(x)) == (FilterParams::LiquidGlass {
                mode,
                radius: x,
                center_x,
                center_y,
                spacing,
                angle,
                refraction,
                specular,
                rim,
                softness,
                chroma,
                tint,
                tint_amount,
            })
            &&& p.labelled("Thickness"@, ControlValue::Slider(x)) == (FilterParams::LiquidGlass {
                mode,
                radius: x,
                center_x,
                center_y,
                spacing,
                angle,
                refraction,
                specular,
                rim,
                softness,
                chroma,
                tint,
                tint_amount,
            })
            &&& p.labelled("Roundness"@, ControlValue::Slider(x)) == (FilterParams::LiquidGlass {
                mode,
                radius: x,
                center_x,
                center_y,
                spacing,
                angle,
                refraction,
                specular,
                rim,
                softness,
                chroma,
                tint,
                tint_amount,
            })
            &&& p.labelled("Center X %"@, ControlValue::Slider(x)) == (FilterParams::LiquidGlass {
                mode,
                radius,
                center_x: x,
                center_y,
                spacing,
                angle,
                refraction,
                specular,
                rim,
                softness,
                chroma,
                tint,
                tint_amount,
            })
            &&& p.labelled("Center Y %"@, ControlValue::Slider(x)) == (FilterParams::LiquidGlass {
                mode,
                radius,
                center_x,
                center_y: x,
                spacing,
                angle,
                refraction,
                specular,
                rim,
                softness,
                chroma,
                tint,
                tint_amount,
            })
            &&& p.labelled("Spacing"@, ControlValue::Slider(x)) == (FilterParams::LiquidGlass {
                mode,
                radius,
                center_x,
                center_y,
                spacing: x,
                angle,
                refraction,
                specular,
                rim,
                softness,
                chroma,
                tint,
                tint_amount,
            })
            &&& p.labelled("Angle"@, ControlValue::Slider(x)) == (FilterParams::LiquidGlass {
                mode,
                radius,
                center_x,
                center_y,
                spacing,
                angle: x,
                refraction,
                specular,
                rim,
                softness,
                chroma,
                tint,
                tint_amount,
            })
            &&& p.labelled("Refraction"@, ControlValue::Slider(x)) == (FilterParams::LiquidGlass {
                mode,
                radius,
                center_x,
                center_y,
                spacing,
                angle,
                refraction: x,
                specular,
                rim,
                softness,
                chroma,
                tint,
                tint_amount,
            })
            &&& p.labelled("Specular"@, ControlValue::Slider(x)) == (FilterParams::LiquidGlass {
                mode,
                radius,
                center_x,
                center_y,
                spacing,
                angle,
                refraction,
                specular: x,
                rim,
                softness,
                chroma,
                tint,
                tint_amount,
            })
            &&& p.labelled("Rim"@, ControlValue::Slider(x)) == (FilterParams::LiquidGlass {
                mode,
                radius,
                center_x,
                center_y,
                spacing,
                angle,
                refraction,
                specular,
                rim: x,
                softness,
                chroma,
                tint,
                tint_amount,
            })
            &&& p.labelled("Softness"@, ControlValue::Slider(x)) == (FilterParams::LiquidGlass {
                mode,
                radius,
                center_x,
                center_y,
                spacing,
                angle,
                refraction,
                specular,
                rim,
                softness: x,
                chroma,
                tint,
                tint_amount,
            })
            &&& p.labelled("Chroma"@, ControlValue::Slider(x)) == (FilterParams::LiquidGlass {
                mode,
                radius,
                center_x,
                center_y,
                spacing,
                angle,
                refraction,
                specular,
                rim,
                softness,
                chroma: x,
                tint,
                tint_amount,
            })
            &&& p.labelled("Tint"@, ControlValue::Colour(c)) == (FilterParams::LiquidGlass {
                mode,
                radius,
                center_x,
                center_y,
                spacing,
                angle,
                refraction,
                specular,
                rim,
                softness,
                chroma,
                tint: c,
                tint_amount,
            })
            &&& p.labelled("Tint amount"@, ControlValue::Slider(x)) == (FilterParams::LiquidGlass {
                mode,
                radius,
                center_x,
                center_y,
                spacing,
                angle,
                refraction,
                specular,
                rim,
                softness,
                chroma,
                tint,
                tint_amount: x,
            })
        }),
{
    reveal_strlit("Mode");
    reveal_strlit("Radius %");
    reveal_strlit("Thickness");
    reveal_strlit("Roundness");
    reveal_strlit("Center X %");
    reveal_strlit("Center Y %");
    reveal_strlit("Spacing");
    reveal_strlit("Angle");
    reveal_strlit("Refraction");
    reveal_strlit("Specular");
    reveal_strlit("Rim");
    reveal_strlit("Softness");
    reveal_strlit("Chroma");
    reveal_strlit("Tint");
    reveal_strlit("Tint amount");
    assert("Mode"@.len() == 4 && "Radius %"@.len() == 8);
    assert("Mode"@.len() == 4 && "Thickness"@.len() == 9);
    assert("Mode"@.len() == 4 && "Roundness"@.len() == 9);
    assert("Mode"@.len() == 4 && "Center X %"@.len() == 10);
    assert("Mode"@.len() == 4 && "Center Y %"@.len() == 10);
    assert("Mode"@.len() == 4 && "Spacing"@.len() == 7);
    assert("Mode"@.len() == 4 && "Angle"@.len() == 5);
    assert("Mode"@.len() == 4 && "Refraction"@.len() == 10);
    assert("Mode"@.len() == 4 && "Specular"@.len() == 8);
    assert("Mode"@.len() == 4 && "Rim"@.len() == 3);
    assert("Mode"@.len() == 4 && "Softness"@.len() == 8);
    assert("Mode"@.len() == 4 && "Chroma"@.len() == 6);
    assert("Mode"@[0] == 'M' && "Tint"@[0] == 'T');
    assert("Mode"@.len() == 4 && "Tint amount"@.len() == 11);
    assert("Radius %"@.len() == 8 && "Thickness"@.len() == 9);
    assert("Radius %"@.len() == 8 && "Roundness"@.len() == 9);
    assert("Radius %"@.len() == 8 && "Center X %"@.len() == 10);
    assert("Radius %"@.len() == 8 && "Center Y %"@.len() == 10);
    assert("Radius %"@.len() == 8 && "Spacing"@.len() == 7);
    assert("Radius %"@.len() == 8 && "Angle"@.len() == 5);
    assert("Radius %"@.len() == 8 && "Refraction"@.len() == 10);
    assert("Radius %"@[0] == 'R' && "Specular"@[0] == 'S');
    assert("Radius %"@.len() == 8 && "Rim"@.len() == 3);
    assert("Radius %"@[0] == 'R' && "Softness"@[0] == 'S');
    assert("Radius %"@.len() == 8 && "Chroma"@.len() == 6);
    assert("Radius %"@.len() == 8 && "Tint"@.len() == 4);
    assert("Radius %"@.len() == 8 && "Tint amount"@.len() == 11);
    assert("Thickness"@[0] == 'T' && "Roundness"@[0] == 'R');
    assert("Thickness"@.len() == 9 && "Center X %"@.len() == 10);
    assert("Thickness"@.len() == 9 && "Center Y %"@.len() == 10);
    assert("Thickness"@.len() == 9 && "Spacing"@.len() == 7);
    assert("Thickness"@.len() == 9 && "Angle"@.len() == 5);
    assert("Thickness"@.len() == 9 && "Refraction"@.len() == 10);
    assert("Thickness"@.len() == 9 && "Specular"@.len() == 8);
    assert("Thickness"@.len() == 9 && "Rim"@.len() == 3);
    assert("Thickness"@.len() == 9 && "Softness"@.len() == 8);
    assert("Thickness"@.len() == 9 && "Chroma"@.len() == 6);
    assert("Thickness"@.len() == 9 && "Tint"@.len() == 4);
    assert("Thickness"@.len() == 9 && "Tint amount"@.len() == 11);
    assert("Roundness"@.len() == 9 && "Center X %"@.len() == 10);
    assert("Roundness"@.len() == 9 && "Center Y %"@.len() == 10);
    assert("Roundness"@.len() == 9 && "Spacing"@.len() == 7);
    assert("Roundness"@.len() == 9 && "Angle"@.len() == 5);
    assert("Roundness"@.len() == 9 && "Refraction"@.len() == 10);
    assert("Roundness"@.len() == 9 && "Specular"@.len() == 8);
    assert("Roundness"@.len() == 9 && "Rim"@.len() == 3);
    assert("Roundness"@.len() == 9 && "Softness"@.len() == 8);
    assert("Roundness"@.len() == 9 && "Chroma"@.len() == 6);
    assert("Roundness"@.len() == 9 && "Tint"@.len() == 4);
    assert("Roundness"@.len() == 9 && "Tint amount"@.len() == 11);
    assert("Center X %"@[7] == 'X' && "Center Y %"@[7] == 'Y');
    assert("Center X %"@.len() == 10 && "Spacing"@.len() == 7);
    assert("Center X %"@.len() == 10 && "Angle"@.len() == 5);
    assert("Center X %"@[0] == 'C' && "Refraction"@[0] == 'R');
    assert("Center X %"@.len() == 10 && "Specular"@.len() == 8);
    assert("Center X %"@.len() == 10 && "Rim"@.len() == 3);
    assert("Center X %"@.len() == 10 && "Softness"@.len() == 8);
    assert("Center X %"@.len() == 10 && "Chroma"@.len() == 6);
    assert("Center X %"@.len() == 10 && "Tint"@.len() == 4);
    assert("Center X %"@.len() == 10 && "Tint amount"@.len() == 11);
    assert("Center Y %"@.len() == 10 && "Spacing"@.len() == 7);
    assert("Center Y %"@.len() == 10 && "Angle"@.len() == 5);
    assert("Center Y %"@[0] == 'C' && "Refraction"@[0] == 'R');
    assert("Center Y %"@.len() == 10 && "Specular"@.len() == 8);
    assert("Center Y %"@.len() == 10 && "Rim"@.len() == 3);
    assert("Center Y %"@.len() == 10 && "Softness"@.len() == 8);
    assert("Center Y %"@.len() == 10 && "Chroma"@.len() == 6);
    assert("Center Y %"@.len() == 10 && "Tint"@.len() == 4);
    assert("Center Y %"@.len() == 10 && "Tint amount"@.len() == 11);
    assert("Spacing"@.len() == 7 && "Angle"@.len() == 5);
    assert("Spacing"@.len() == 7 && "Refraction"@.len() == 10);
    assert("Spacing"@.len() == 7 && "Specular"@.len() == 8);
    assert("Spacing"@.len() == 7 && "Rim"@.len() == 3);
    assert("Spacing"@.len() == 7 && "Softness"@.len() == 8);
    assert("Spacing"@.len() == 7 && "Chroma"@.len() == 6);
    assert("Spacing"@.len() == 7 && "Tint"@.len() == 4);
    assert("Spacing"@.len() == 7 && "Tint amount"@.len() == 11);
    assert("Angle"@.len() == 5 && "Refraction"@.len() == 10);
    assert("Angle"@.len() == 5 && "Specular"@.len() == 8);
    assert("Angle"@.len() == 5 && "Rim"@.len() == 3);
    assert("Angle"@.len() == 5 && "Softness"@.len() == 8);
    assert("Angle"@.len() == 5 && "Chroma"@.len() == 6);
    assert("Angle"@.len() == 5 && "Tint"@.len() == 4);
    assert("Angle"@.len() == 5 && "Tint amount"@.len() == 11);
    assert("Refraction"@.len() == 10 && "Specular"@.len() == 8);
    assert("Refraction"@.len() == 10 && "Rim"@.len() == 3);
    assert("Refraction"@.len() == 10 && "Softness"@.len() == 8);
    assert("Refraction"@.len() == 10 && "Chroma"@.len() == 6);
    assert("Refraction"@.len() == 10 && "Tint"@.len() == 4);
    assert("Refraction"@.len() == 10 && "Tint amount"@.len() == 11);
    assert("Specular"@.len() == 8 && "Rim"@.len() == 3);
    assert("Specular"@[1] == 'p' && "Softness"@[1] == 'o');
    assert("Specular"@.len() == 8 && "Chroma"@.len() == 6);
    assert("Specular"@.len() == 8 && "Tint"@.len() == 4);
    assert("Specular"@.len() == 8 && "Tint amount"@.len() == 11);
    assert("Rim"@.len() == 3 && "Softness"@.len() == 8);
    assert("Rim"@.len() == 3 && "Chroma"@.len() == 6);
    assert("Rim"@.len() == 3 && "Tint"@.len() == 4);
    assert("Rim"@.len() == 3 && "Tint amount"@.len() == 11);
    assert("Softness"@.len() == 8 && "Chroma"@.len() == 6);
    assert("Softness"@.len() == 8 && "Tint"@.len() == 4);
    assert("Softness"@.len() == 8 && "Tint amount"@.len() == 11);
    assert("Chroma"@.len() == 6 && "Tint"@.len() == 4);
    assert("Chroma"@.len() == 6 && "Tint amount"@.len() == 11);
    assert("Tint"@.len() == 4 && "Tint amount"@.len() == 11);
}

/// The controls of gradient.
#[verifier::spinoff_prover]
pub proof fn law_set_gradient(
    shape: GradientShape,
    angle: i32,
    spread: i32,
    center_x: i32,
    center_y: i32,
    color_a: Rgb,
    color_b: Rgb,
    opacity_a: i32,
    opacity_b: i32,
    amount: i32,
    blend: BlendMode,
    reverse: bool,
    c: Rgb,
    on: bool,
    x: i32,
)
    ensures
        ({
            let p = FilterParams::Gradient {
                shape,
                angle,
                spread,
                center_x,
                center_y,
                color_a,
                color_b,
                opacity_a,
                opacity_b,
                amount,
                blend,
                reverse,
            };
            &&& p.labelled("Shape"@, ControlValue::Choice(0)) == (FilterParams::Gradient {
                shape: GradientShape::Linear,
                angle,
                spread,
                center_x,
                center_y,
                color_a,
                color_b,
                opacity_a,
                opacity_b,
                amount,
                blend,
                reverse,
            })
            &&& p.labelled("Shape"@, ControlValue::Choice(1)) == (FilterParams::Gradient {
                shape: GradientShape::Radial,
                angle,
                spread,
                center_x,
                center_y,
                color_a,
                color_b,
                opacity_a,
                opacity_b,
                amount,
                blend,
                reverse,
            })
            &&& p.labelled("Shape"@, ControlValue::Choice(2)) == (FilterParams::Gradient {
                shape: GradientShape::Angle,
                angle,
                spread,
                center_x,
                center_y,
                color_a,
                color_b,
                opacity_a,
                opacity_b,
                amount,
                blend,
                reverse,
            })
            &&& p.spec_options("Shape"@)[0]@ == "Linear"@
            &&& p.spec_options("Shape"@)[1]@ == "Radial"@
            &&& p.spec_options("Shape"@)[2]@ == "Angle"@
            &&& p.labelled("Angle"@, ControlValue::Slider(x)) == (FilterParams::Gradient {
                shape,
                angle: x,
                spread,
                center_x,
                center_y,
                color_a,
                color_b,
                opacity_a,
                opacity_b,
                amount,
                blend,
                reverse,
            })
            &&& p.labelled("Spread %"@, ControlValue::Slider(x)) == (FilterParams::Gradient {
                shape,
                angle,
                spread: x,
                center_x,
                center_y,
                color_a,
                color_b,
                opacity_a,
                opacity_b,
                amount,
                blend,
                reverse,
            })
            &&& p.labelled("Center X %"@, ControlValue::Slider(x)) == (FilterParams::Gradient {
                shape,
                angle,
                spread,
                center_x: x,
                center_y,
                color_a,
                color_b,
                opacity_a,
                opacity_b,
                amount,
                blend,
                reverse,
            })
            &&& p.labelled("Center Y %"@, ControlValue::Slider(x)) == (FilterParams::Gradient {
                shape,
                angle,
                spread,
                center_x,
                center_y: x,
                color_a,
                color_b,
                opacity_a,
                opacity_b,
                amount,
                blend,
                reverse,
            })
            &&& p.labelled("Color A"@, ControlValue::Colour(c)) == (FilterParams::Gradient {
                shape,
                angle,
                spread,
                center_x,
                center_y,
                color_a: c,
                color_b,
                opacity_a,
                opacity_b,
                amount,
                blend,
                reverse,
            })
            &&& p.labelled("Color B"@, ControlValue::Colour(c)) == (FilterParams::Gradient {
                shape,
                angle,
                spread,
                center_x,
                center_y,
                color_a,
                color_b: c,
                opacity_a,
                opacity_b,
                amount,
                blend,
                reverse,
            })
            &&& p.labelled("Opacity A"@, ControlValue::Slider(x)) == (FilterParams::Gradient {
                shape,
                angle,
                spread,
                center_x,
                center_y,
                color_a,
                color_b,
                opacity_a: x,
                opacity_b,
                amount,
                blend,
                reverse,
            })
            &&& p.labelled("Opacity B"@, ControlValue::Slider(x)) == (FilterParams::Gradient {
                shape,
                angle,
                spread,
                center_x,
                center_y,
                color_a,
                color_b,
                opacity_a,
                opacity_b: x,
                amount,
                blend,
                reverse,
            })
            &&& p.labelled("Amount"@, ControlValue::Slider(x)) == (FilterParams::Gradient {
                shape,
                angle,
                spread,
                center_x,
                center_y,
                color_a,
                color_b,
                opacity_a,
                opacity_b,
                amount: x,
                blend,
                reverse,
            })
            &&& p.labelled("Blend"@, ControlValue::Choice(0)) == (FilterParams::Gradient {
                shape,
                angle,
                spread,
                center_x,
                center_y,
                color_a,
                color_b,
                opacity_a,
                opacity_b,
                amount,
                blend: BlendMode::Normal,
                reverse,
            })
            &&& p.labelled("Blend"@, ControlValue::Choice(1)) == (FilterParams::Gradient {
                shape,
                angle,
                spread,
                center_x,
                center_y,
                color_a,
                color_b,
                opacity_a,
                opacity_b,
                amount,
                blend: BlendMode::Screen,
                reverse,
            })
            &&& p.labelled("Blend"@, ControlValue::Choice(2)) == (FilterParams::Gradient {
                shape,
                angle,
                spread,
                center_x,
                center_y,
                color_a,
                color_b,
                opacity_a,
                opacity_b,
                amount,
                blend: BlendMode::Overlay,
                reverse,
            })
            &&& p.labelled("Blend"@, ControlValue::Choice(3)) == (FilterParams::Gradient {
                shape,
                angle,
                spread,
                center_x,
                center_y,
                color_a,
                color_b,
                opacity_a,
                opacity_b,
                amount,
                blend: BlendMode::SoftLight,
                reverse,
            })
            &&& p.labelled("Blend"@, ControlValue::Choice(4)) == (FilterParams::Gradient {
                shape,
                angle,
                spread,
                center_x,
                center_y,
                color_a,
                color_b,
                opacity_a,
                opacity_b,
                amount,
                blend: BlendMode::Color,
                reverse,
            })
            &&& p.labelled("Reverse"@, ControlValue::Switch(on)) == (FilterParams::Gradient {
                shape,
                angle,
                spread,
                center_x,
                center_y,
                color_a,
                color_b,
                opacity_a,
                opacity_b,
                amount,
                blend,
                reverse: on,
            })
        }),
{
    reveal_strlit("Shape");
    reveal_strlit("Angle");
    reveal_strlit("Spread %");
    reveal_strlit("Center X %");
    reveal_strlit("Center Y %");
    reveal_strlit("Color A");
    reveal_strlit("Color B");
    reveal_strlit("Opacity A");
    reveal_strlit("Opacity B");
    reveal_strlit("Amount");
    reveal_strlit("Blend");
    reveal_strlit("Reverse");
    assert("Shape"@[0] == 'S' && "Angle"@[0] == 'A');
    assert("Shape"@.len() == 5 && "Spread %"@.len() == 8);
    assert("Shape"@.len() == 5 && "Center X %"@.len() == 10);
    assert("Shape"@.len() == 5 && "Center Y %"@.len() == 10);
    assert("Shape"@.len() == 5 && "Color A"@.len() == 7);
    assert("Shape"@.len() == 5 && "Color B"@.len() == 7);
    assert("Shape"@.len() == 5 && "Opacity A"@.len() == 9);
    assert("Shape"@.len() == 5 && "Opacity B"@.len() == 9);
    assert("Shape"@.len() == 5 && "Amount"@.len() == 6);
    assert("Shape"@[0] == 'S' && "Blend"@[0] == 'B');
    assert("Shape"@.len() == 5 && "Reverse"@.len() == 7);
    assert("Angle"@.len() == 5 && "Spread %"@.len() == 8);
    assert("Angle"@.len() == 5 && "Center X %"@.len() == 10);
    assert("Angle"@.len() == 5 && "Center Y %"@.len() == 10);
    assert("Angle"@.len() == 5 && "Color A"@.len() == 7);
    assert("Angle"@.len() == 5 && "Color B"@.len() == 7);
    assert("Angle"@.len() == 5 && "Opacity A"@.len() == 9);
    assert("Angle"@.len() == 5 && "Opacity B"@.len() == 9);
    assert("Angle"@.len() == 5 && "Amount"@.len() == 6);
    assert("Angle"@[0] == 'A' && "Blend"@[0] == 'B');
    assert("Angle"@.len() == 5 && "Reverse"@.len() == 7);
    assert("Spread %"@.len() == 8 && "Center X %"@.len() == 10);
    assert("Spread %"@.len() == 8 && "Center Y %"@.len() == 10);
    assert("Spread %"@.len() == 8 && "Color A"@.len() == 7);
    assert("Spread %"@.len() == 8 && "Color B"@.len() == 7);
    assert("Spread %"@.len() == 8 && "Opacity A"@.len() == 9);
    assert("Spread %"@.len() == 8 && "Opacity B"@.len() == 9);
    assert("Spread %"@.len() == 8 && "Amount"@.len() == 6);
    assert("Spread %"@.len() == 8 && "Blend"@.len() == 5);
    assert("Spread %"@.len() == 8 && "Reverse"@.len() == 7);
    assert("Center X %"@[7] == 'X' && "Center Y %"@[7] == 'Y');
    assert("Center X %"@.len() == 10 && "Color A"@.len() == 7);
    assert("Center X %"@.len() == 10 && "Color B"@.len() == 7);
    assert("Center X %"@.len() == 10 && "Opacity A"@.len() == 9);
    assert("Center X %"@.len() == 10 && "Opacity B"@.len() == 9);
    assert("Center X %"@.len() == 10 && "Amount"@.len() == 6);
    assert("Center X %"@.len() == 10 && "Blend"@.len() == 5);
    assert("Center X %"@.len() == 10 && "Reverse"@.len() == 7);
    assert("Center Y %"@.len() == 10 && "Color A"@.len() == 7);
    assert("Center Y %"@.len() == 10 && "Color B"@.len() == 7);
    assert("Center Y %"@.len() == 10 && "Opacity A"@.len() == 9);
    assert("Center Y %"@.len() == 10 && "Opacity B"@.len() == 9);
    assert("Center Y %"@.len() == 10 && "Amount"@.len() == 6);
    assert("Center Y %"@.len() == 10 && "Blend"@.len() == 5);
    assert("Center Y %"@.len() == 10 && "Reverse"@.len() == 7);
    assert("Color A"@[6] == 'A' && "Color B"@[6] == 'B');
    assert("Color A"@.len() == 7 && "Opacity A"@.len() == 9);
    assert("Color A"@.len() == 7 && "Opacity B"@.len() == 9);
    assert("Color A"@.len() == 7 && "Amount"@.len() == 6);
    assert("Color A"@.len() == 7 && "Blend"@.len() == 5);
    assert("Color A"@[0] == 'C' && "Reverse"@[0] == 'R');
    assert("Color B"@.len() == 7 && "Opacity A"@.len() == 9);
    assert("Color B"@.len() == 7 && "Opacity B"@.len() == 9);
    assert("Color B"@.len() == 7 && "Amount"@.len() == 6);
    assert("Color B"@.len() == 7 && "Blend"@.len() == 5);
    assert("Color B"@[0] == 'C' && "Reverse"@[0] == 'R');
    assert("Opacity A"@[8] == 'A' && "Opacity B"@[8] == 'B');
    assert("Opacity A"@.len() == 9 && "Amount"@.len() == 6);
    assert("Opacity A"@.len() == 9 && "Blend"@.len() == 5);
    assert("Opacity A"@.len() == 9 && "Reverse"@.len() == 7);
    assert("Opacity B"@.len() == 9 && "Amount"@.len() == 6);
    assert("Opacity B"@.len() == 9 && "Blend"@.len() == 5);
    assert("Opacity B"@.len() == 9 && "Reverse"@.len() == 7);
    assert("Amount"@.len() == 6 && "Blend"@.len() == 5);
    assert("Amount"@.len() == 6 && "Reverse"@.len() == 7);
    assert("Blend"@.len() == 5 && "Reverse"@.len() == 7);
}

/// The controls of image overlay.
#[verifier::spinoff_prover]
pub proof fn law_set_image_overlay(
    path: Option<String>,
    rgba: Option<Vec<u8>>,
    tex_w: u32,
    tex_h: u32,
    blend: BlendMode,
    opacity: i32,
    scale: i32,
    rotation: i32,
    offset_x: i32,
    offset_y: i32,
    tile: bool,
    on: bool,
    x: i32,
)
    ensures
        ({
            let p = FilterParams::ImageOverlay {
                path,
                rgba,
                tex_w,
                tex_h,
                blend,
                opacity,
                scale,
                rotation,
                offset_x,
                offset_y,
                tile,
            };
            &&& p.labelled("Blend"@, ControlValue::Choice(0)) == (FilterParams::ImageOverlay {
                path,
                rgba,
                tex_w,
                tex_h,
                blend: BlendMode::Normal,
                opacity,
                scale,
                rotation,
                offset_x,
                offset_y,
                tile,
            })
            &&& p.labelled("Blend"@, ControlValue::Choice(1)) == (FilterParams::ImageOverlay {
                path,
                rgba,
                tex_w,
                tex_h,
                blend: BlendMode::Screen,
                opacity,
                scale,
                rotation,
                offset_x,
                offset_y,
                tile,
            })
            &&& p.labelled("Blend"@, ControlValue::Choice(2)) == (FilterParams::ImageOverlay {
                path,
                rgba,
                tex_w,
                tex_h,
                blend: BlendMode::Overlay,
                opacity,
                scale,
                rotation,
                offset_x,
                offset_y,
                tile,
            })
            &&& p.labelled("Blend"@, ControlValue::Choice(3)) == (FilterParams::ImageOverlay {
                path,
                rgba,
                tex_w,
                tex_h,
                blend: BlendMode::SoftLight,
                opacity,
                scale,
                rotation,
                offset_x,
                offset_y,
                tile,
            })
            &&& p.labelled("Blend"@, ControlValue::Choice(4)) == (FilterParams::ImageOverlay {
                path,
                rgba,
                tex_w,
                tex_h,
                blend: BlendMode::Color,
                opacity,
                scale,
                rotation,
                offset_x,
                offset_y,
                tile,
            })
            &&& p.labelled("Opacity"@, ControlValue::Slider(x)) == (FilterParams::ImageOverlay {
                path,
                rgba,
                tex_w,
                tex_h,
                blend,
                opacity: x,
                scale,
                rotation,
                offset_x,
                offset_y,
                tile,
            })
            &&& p.labelled("Scale %"@, ControlValue::Slider(x)) == (FilterParams::ImageOverlay {
                path,
                rgba,
                tex_w,
                tex_h,
                blend,
                opacity,
                scale: x,
                rotation,
                offset_x,
                offset_y,
                tile,
            })
            &&& p.labelled("Rotation"@, ControlValue::Slider(x)) == (FilterParams::ImageOverlay {
                path,
                rgba,
                tex_w,
                tex_h,
                blend,
                opacity,
                scale,
                rotation: x,
                offset_x,
                offset_y,
                tile,
            })
            &&& p.labelled("Offset X %"@, ControlValue::Slider(x)) == (FilterParams::ImageOverlay {
                path,
                rgba,
                tex_w,
                tex_h,
                blend,
                opacity,
                scale,
                rotation,
                offset_x: x,
                offset_y,
                tile,
            })
            &&& p.labelled("Offset Y %"@, ControlValue::Slider(x)) == (FilterParams::ImageOverlay {
                path,
                rgba,
                tex_w,
                tex_h,
                blend,
                opacity,
                scale,
                rotation,
                offset_x,
                offset_y: x,
                tile,
            })
            &&& p.labelled("Tile"@, ControlValue::Switch(on)) == (FilterParams::ImageOverlay {
                path,
                rgba,
                tex_w,
                tex_h,
                blend,
                opacity,
                scale,
                rotation,
                offset_x,
                offset_y,
                tile: on,
            })
        }),
{
    reveal_strlit("Blend");
    reveal_strlit("Opacity");
    reveal_strlit("Scale %");
    reveal_strlit("Rotation");
    reveal_strlit("Offset X %");
    reveal_strlit("Offset Y %");
    reveal_strlit("Tile");
    assert("Blend"@.len() == 5 && "Opacity"@.len() == 7);
    assert("Blend"@.len() == 5 && "Scale %"@.len() == 7);
    assert("Blend"@.len() == 5 && "Rotation"@.len() == 8);
    assert("Blend"@.len() == 5 && "Offset X %"@.len() == 10);
    assert("Blend"@.len() == 5 && "Offset Y %"@.len() == 10);
    assert("Blend"@.len() == 5 && "Tile"@.len() == 4);
    assert("Opacity"@[0] == 'O' && "Scale %"@[0] == 'S');
    assert("Opacity"@.len() == 7 && "Rotation"@.len() == 8);
    assert("Opacity"@.len() == 7 && "Offset X %"@.len() == 10);
    assert("Opacity"@.len() == 7 && "Offset Y %"@.len() == 10);
    assert("Opacity"@.len() == 7 && "Tile"@.len() == 4);
    assert("Scale %"@.len() == 7 && "Rotation"@.len() == 8);
    assert("Scale %"@.len() == 7 && "Offset X %"@.len() == 10);
    assert("Scale %"@.len() == 7 && "Offset Y %"@.len() == 10);
    assert("Scale %"@.len() == 7 && "Tile"@.len() == 4);
    assert("Rotation"@.len() == 8 && "Offset X %"@.len() == 10);
    assert("Rotation"@.len() == 8 && "Offset Y %"@.len() == 10);
    assert("Rotation"@.len() == 8 && "Tile"@.len() == 4);
    assert("Offset X %"@[7] == 'X' && "Offset Y %"@[7] == 'Y');
    assert("Offset X %"@.len() == 10 && "Tile"@.len() == 4);
    assert("Offset Y %"@.len() == 10 && "Tile"@.len() == 4);
}

} // verus!
