//! The controls that a filter shows, with their limits.
use vstd::prelude::*;
use crate::filters::choice::{
    DitherMethod, HalftonePaper, LevelsChannel, LiquidGlassMode, PixelizeMethod, Rgb, RippleMode,
    ToneChannel, VignetteShape,
};
use crate::filters::params::FilterParams;

verus! {

/// A control of a filter, with the value it shows.
#[derive(Clone, Copy)]
#[allow(inconsistent_fields)]
pub enum Control {
    /// A slider over thousandths.
    Slider { label: &'static str, value: i32, lo: i32, hi: i32 },
    /// A slider over whole numbers.
    Count { label: &'static str, value: u32, lo: u32, hi: u32 },
    /// A row of which one is chosen.
    Choice { label: &'static str, chosen: i128 },
    Colour { label: &'static str, value: Rgb },
    Switch { label: &'static str, on: bool },
}

#[verifier::allow_in_spec]
pub fn slider(label: &'static str, value: i32, lo: i32, hi: i32) -> Control
    returns
        (Control::Slider { label, value, lo, hi }),
{
    Control::Slider { label, value, lo, hi }
}

#[verifier::allow_in_spec]
pub fn count(label: &'static str, value: u32, lo: u32, hi: u32) -> Control
    returns
        (Control::Count { label, value, lo, hi }),
{
    Control::Count { label, value, lo, hi }
}

#[verifier::allow_in_spec]
pub fn choice(label: &'static str, chosen: i128) -> Control
    returns
        (Control::Choice { label, chosen }),
{
    Control::Choice { label, chosen }
}

#[verifier::allow_in_spec]
pub fn colour(label: &'static str, value: Rgb) -> Control
    returns
        (Control::Colour { label, value }),
{
    Control::Colour { label, value }
}

#[verifier::allow_in_spec]
pub fn switch(label: &'static str, on: bool) -> Control
    returns
        (Control::Switch { label, on }),
{
    Control::Switch { label, on }
}

/// The controls, where the condition holds.
pub open spec fn when(cond: bool, list: Seq<Control>) -> Seq<Control> {
    if cond {
        list
    } else {
        Seq::empty()
    }
}

fn kept(cond: bool, list: Vec<Control>) -> (r: Vec<Control>)
    ensures
        r@ == when(cond, list@),
{
    if cond {
        list
    } else {
        Vec::new()
    }
}

fn joined(a: Vec<Control>, b: Vec<Control>) -> (r: Vec<Control>)
    ensures
        r@ == a@ + b@,
{
    let mut out = a;
    let mut more = b;
    out.append(&mut more);
    out
}

fn controls1(a: Control) -> (r: Vec<Control>)
    ensures
        r@ == seq![a],
{
    let r = vec![a];
    assert(r@ =~= seq![a]);
    r
}

fn controls2(a: Control, b: Control) -> (r: Vec<Control>)
    ensures
        r@ == seq![a, b],
{
    let r = vec![a, b];
    assert(r@ =~= seq![a, b]);
    r
}

fn controls3(a: Control, b: Control, c: Control) -> (r: Vec<Control>)
    ensures
        r@ == seq![a, b, c],
{
    let r = vec![a, b, c];
    assert(r@ =~= seq![a, b, c]);
    r
}

fn controls4(a: Control, b: Control, c: Control, d: Control) -> (r: Vec<Control>)
    ensures
        r@ == seq![a, b, c, d],
{
    let r = vec![a, b, c, d];
    assert(r@ =~= seq![a, b, c, d]);
    r
}

fn controls5(a: Control, b: Control, c: Control, d: Control, e: Control) -> (r: Vec<Control>)
    ensures
        r@ == seq![a, b, c, d, e],
{
    let r = vec![a, b, c, d, e];
    assert(r@ =~= seq![a, b, c, d, e]);
    r
}

fn controls6(
    a: Control,
    b: Control,
    c: Control,
    d: Control,
    e: Control,
    f: Control,
) -> (r: Vec<Control>)
    ensures
        r@ == seq![a, b, c, d, e, f],
{
    let r = vec![a, b, c, d, e, f];
    assert(r@ =~= seq![a, b, c, d, e, f]);
    r
}

fn controls7(
    a: Control,
    b: Control,
    c: Control,
    d: Control,
    e: Control,
    f: Control,
    g: Control,
) -> (r: Vec<Control>)
    ensures
        r@ == seq![a, b, c, d, e, f, g],
{
    let r = vec![a, b, c, d, e, f, g];
    assert(r@ =~= seq![a, b, c, d, e, f, g]);
    r
}

fn controls12(
    a: Control,
    b: Control,
    c: Control,
    d: Control,
    e: Control,
    f: Control,
    g: Control,
    h: Control,
    i: Control,
    j: Control,
    k: Control,
    l: Control,
) -> (r: Vec<Control>)
    ensures
        r@ == seq![a, b, c, d, e, f, g, h, i, j, k, l],
{
    let r = vec![a, b, c, d, e, f, g, h, i, j, k, l];
    assert(r@ =~= seq![a, b, c, d, e, f, g, h, i, j, k, l]);
    r
}

impl FilterParams {
    /// The controls of the filter, from top to bottom. Some show only in certain
    /// modes, and some only while the advanced settings are unfolded.
    pub open spec fn spec_controls(self, advanced_open: bool) -> Seq<Control> {
        match self {
            FilterParams::Gaussian { radius } => {
                seq![slider("Radius", radius, 500, 80_000)]
            },
            FilterParams::Motion { length, angle } => {
                seq![
                    slider("Length", length, 1000, 120_000),
                    slider("Angle", angle, (-180_000) as i32, 180_000),
                ]
            },
            FilterParams::Radial { amount, zoom_mode } => {
                seq![switch("Zoom", zoom_mode), slider("Amount", amount, 0, 100_000)]
            },
            FilterParams::Unsharp { amount, radius } => {
                seq![
                    slider("Amount", amount, 0, 300_000),
                    slider("Radius", radius, 500, 12_000),
                ]
            },
            FilterParams::BrightnessContrast { brightness, contrast } => {
                seq![
                    slider("Brightness", brightness, (-100_000) as i32, 100_000),
                    slider("Contrast", contrast, (-100_000) as i32, 100_000),
                ]
            },
            FilterParams::Curves { .. } => {
                Seq::empty()
            },
            FilterParams::ColorBalance { cyan_red, magenta_green, yellow_blue } => {
                seq![
                    slider("Cyan — Red", cyan_red, (-100_000) as i32, 100_000),
                    slider("Magenta — Green", magenta_green, (-100_000) as i32, 100_000),
                    slider("Yellow — Blue", yellow_blue, (-100_000) as i32, 100_000),
                ]
            },
            FilterParams::Invert => {
                Seq::empty()
            },
            FilterParams::Pixelize { method, block, soft_amount } => {
                seq![
                    choice("Method", method.ord() as i128),
                    count("Block size", block, 2, 64),
                ] + when(method is Soft, seq![slider("Soft amount", soft_amount, 0, 100_000)])
            },
            FilterParams::HexPixelize { size } => {
                seq![count("Cell size", size, 4, 64)]
            },
            FilterParams::TriPixelize { size } => {
                seq![count("Cell size", size, 4, 64)]
            },
            FilterParams::HexDots { size, fill_pct, soft_edge } => {
                seq![
                    count("Cell size", size, 4, 64),
                    slider("Fill %", fill_pct, 20_000, 100_000),
                    switch("Soft edge", soft_edge),
                ]
            },
            FilterParams::Posterize { levels } => {
                seq![count("Levels", levels, 2, 32)]
            },
            FilterParams::Crystallize { size } => {
                seq![count("Crystal size", size, 4, 96)]
            },
            FilterParams::Pointillize { size, density, bg } => {
                seq![
                    count("Dot size", size, 3, 64),
                    slider("Density", density, 10_000, 100_000),
                    colour("Background", bg),
                ]
            },
            FilterParams::ColorHalftone {
                size,
                angle,
                mode,
                paper,
                bg,
                strength,
                softness,
                contrast,
                angle_c,
                angle_m,
                angle_y,
                angle_k,
            } => {
                seq![
                    choice("Mode", mode.ord() as i128),
                    choice("Paper", paper.ord() as i128),
                    count("Dot size", size, 2, 64),
                    slider("Base angle", angle, (-180_000) as i32, 180_000),
                    slider("Strength", strength, 0, 100_000),
                    slider("Softness", softness, 0, 100_000),
                    slider("Contrast", contrast, 25_000, 250_000),
                ] + when(paper is Replace, seq![colour("Paper color", bg)]) + seq![
                    slider("C / R", angle_c, (-180_000) as i32, 180_000),
                    slider("M / G", angle_m, (-180_000) as i32, 180_000),
                    slider("Y / B", angle_y, (-180_000) as i32, 180_000),
                    slider("K / Mono", angle_k, (-180_000) as i32, 180_000),
                ]
            },
            FilterParams::Fisheye { model, amount, radius, center_x, center_y } => {
                seq![
                    choice("Model", model.ord() as i128),
                    slider("Amount", amount, (-1000) as i32, 1000),
                    slider("Radius %", radius, 10_000, 200_000),
                    slider("Center X %", center_x, 0, 100_000),
                    slider("Center Y %", center_y, 0, 100_000),
                ]
            },
            FilterParams::SphericalLens { amount, radius, center_x, center_y } => {
                seq![
                    slider("Amount", amount, (-1000) as i32, 1000),
                    slider("Radius %", radius, 10_000, 200_000),
                    slider("Center X %", center_x, 0, 100_000),
                    slider("Center Y %", center_y, 0, 100_000),
                ]
            },
            FilterParams::Ripple { mode, amount, wavelength, angle, center_x, center_y } => {
                seq![
                    choice("Mode", mode.ord() as i128),
                    slider("Amount", amount, 0, 40_000),
                    slider("Wavelength", wavelength, 4000, 200_000),
                ] + when(mode is Linear, seq![slider("Angle", angle, (-180_000) as i32, 180_000)]) + seq![
                    slider("Center X %", center_x, 0, 100_000),
                    slider("Center Y %", center_y, 0, 100_000),
                ]
            },
            FilterParams::Twist { amount, radius, center_x, center_y } => {
                seq![
                    slider("Amount", amount, (-3000) as i32, 3000),
                    slider("Radius %", radius, 10_000, 200_000),
                    slider("Center X %", center_x, 0, 100_000),
                    slider("Center Y %", center_y, 0, 100_000),
                ]
            },
            FilterParams::ChromaticAberration {
                mode,
                amount,
                angle,
                center_atten,
                red_scale,
                blue_scale,
            } => {
                seq![
                    choice("Mode", mode.ord() as i128),
                    slider("Amount", amount, 0, 64_000),
                    slider("Angle", angle, (-180_000) as i32, 180_000),
                ] + when(advanced_open, seq![
                    slider("Edge only", center_atten, 0, 100_000),
                    slider("Red shift", red_scale, 0, 2000),
                    slider("Blue shift", blue_scale, 0, 2000),
                ])
            },
            FilterParams::Noise { method, amount, monochrome } => {
                seq![
                    choice("Method", method.ord() as i128),
                    slider("Amount", amount, 0, 100_000),
                    switch("Monochrome", monochrome),
                ]
            },
            FilterParams::Glitch { method, amount, slice_height, max_shift } => {
                seq![
                    choice("Method", method.ord() as i128),
                    slider("Amount", amount, 0, 100_000),
                    slider("Slice / block", slice_height, 2000, 64_000),
                    slider("Max shift", max_shift, 1000, 120_000),
                ]
            },
            FilterParams::Vignette { shape, amount, softness, roundness, color } => {
                seq![
                    choice("Shape", shape.ord() as i128),
                    slider("Amount", amount, 0, 100_000),
                    slider("Softness", softness, 5000, 100_000),
                ] + when(shape is Ellipse, seq![slider("Roundness", roundness, 0, 100_000)]) + seq![colour("Color", color)]
            },
            FilterParams::Glow { radius, intensity, tint, color } => {
                seq![
                    slider("Radius", radius, 500, 64_000),
                    slider("Intensity", intensity, 0, 200_000),
                    switch("Tint color", tint),
                ] + when(tint, seq![colour("Color", color)])
            },
            FilterParams::Sepia { amount, warmth } => {
                seq![
                    slider("Amount", amount, 0, 100_000),
                    slider("Warmth", warmth, 0, 100_000),
                ]
            },
            FilterParams::FilmGrain { amount, size, roughness, monochrome, shadow_bias } => {
                seq![
                    slider("Amount", amount, 0, 100_000),
                    slider("Size", size, 250, 8000),
                    slider("Roughness", roughness, 0, 100_000),
                    switch("Monochrome", monochrome),
                    slider("Shadow bias", shadow_bias, 0, 100_000),
                ]
            },
            FilterParams::Dither {
                method,
                levels,
                amount,
                serpentine,
                pattern_size,
                monochrome,
            } => {
                seq![
                    choice("Method", method.ord() as i128),
                    count("Levels", levels, 2, 32),
                    slider("Amount", amount, 0, 100_000),
                    slider("Pattern size", pattern_size, 250, 16_000),
                    switch("Monochrome (luma)", monochrome),
                ] + when(method is FloydSteinberg, seq![switch("Serpentine scan", serpentine)])
            },
            FilterParams::ReplaceColor { from, to, tolerance, softness, affect, amount } => {
                seq![
                    colour("From", from),
                    colour("To", to),
                    slider("Tolerance", tolerance, 0, 100_000),
                    slider("Softness", softness, 0, 100_000),
                    choice("Affect", affect.ord() as i128),
                    slider("Amount", amount, 0, 100_000),
                ]
            },
            FilterParams::Outline {
                thickness,
                threshold,
                softness,
                color,
                opacity,
                mode,
                use_luma,
            } => {
                seq![
                    choice("Mode", mode.ord() as i128),
                    slider("Thickness", thickness, 500, 24_000),
                    slider("Threshold", threshold, 1000, 100_000),
                    slider("Softness", softness, 0, 100_000),
                    slider("Opacity", opacity, 0, 100_000),
                    colour("Color", color),
                    switch("Use luminance edges", use_luma),
                ]
            },
            FilterParams::OilPaint { radius, levels, strength } => {
                seq![
                    slider("Brush size", radius, 1000, 12_000),
                    count("Levels", levels, 4, 32),
                    slider("Strength", strength, 0, 100_000),
                ]
            },
            FilterParams::Watercolor { blur, bleed, edge, saturation, strength } => {
                seq![
                    slider("Blur", blur, 500, 16_000),
                    slider("Bleed", bleed, 0, 100_000),
                    slider("Edge darken", edge, 0, 100_000),
                    slider("Saturation", saturation, (-50_000) as i32, 100_000),
                    slider("Strength", strength, 0, 100_000),
                ]
            },
            FilterParams::Pencil { detail, darkness, grain, strength } => {
                seq![
                    slider("Detail", detail, 500, 8000),
                    slider("Darkness", darkness, 0, 150_000),
                    slider("Grain", grain, 0, 100_000),
                    slider("Strength", strength, 0, 100_000),
                ]
            },
            FilterParams::Pastel { softness, chalk, lighten, strength } => {
                seq![
                    slider("Softness", softness, 0, 12_000),
                    slider("Chalk", chalk, 0, 100_000),
                    slider("Lighten", lighten, 0, 100_000),
                    slider("Strength", strength, 0, 100_000),
                ]
            },
            FilterParams::PaperTexture { amount, scale, roughness, warm } => {
                seq![
                    slider("Amount", amount, 0, 100_000),
                    slider("Scale", scale, 500, 24_000),
                    slider("Roughness", roughness, 0, 100_000),
                    slider("Warmth", warm, 0, 100_000),
                ]
            },
            FilterParams::NeonGlow { radius, intensity, threshold, color, core } => {
                seq![
                    slider("Radius", radius, 500, 48_000),
                    slider("Intensity", intensity, 0, 200_000),
                    slider("Threshold", threshold, 0, 100_000),
                    slider("Core", core, 0, 100_000),
                    colour("Color", color),
                ]
            },
            FilterParams::LightRays { amount, length, center_x, center_y, decay, tint, color } => {
                seq![
                    slider("Amount", amount, 0, 150_000),
                    slider("Length", length, 4000, 120_000),
                    slider("Decay", decay, 5000, 100_000),
                    slider("Center X %", center_x, 0, 100_000),
                    slider("Center Y %", center_y, 0, 100_000),
                    switch("Tint color", tint),
                ] + when(tint, seq![colour("Color", color)])
            },
            FilterParams::LensFlare { amount, center_x, center_y, size, streak, color } => {
                seq![
                    slider("Amount", amount, 0, 150_000),
                    slider("Size", size, 4000, 160_000),
                    slider("Streak", streak, 0, 100_000),
                    slider("Center X %", center_x, 0, 100_000),
                    slider("Center Y %", center_y, 0, 100_000),
                    colour("Color", color),
                ]
            },
            FilterParams::DropShadow { angle, distance, blur, opacity, color } => {
                seq![
                    slider("Angle", angle, (-180_000) as i32, 180_000),
                    slider("Distance", distance, 0, 96_000),
                    slider("Blur", blur, 0, 48_000),
                    slider("Opacity", opacity, 0, 100_000),
                    colour("Color", color),
                ]
            },
            FilterParams::BevelEmboss { depth, soft, angle, elevation, mode, strength } => {
                seq![
                    choice("Mode", mode.ord() as i128),
                    slider("Depth", depth, 500, 16_000),
                    slider("Softness", soft, 0, 8000),
                    slider("Angle", angle, (-180_000) as i32, 180_000),
                    slider("Elevation", elevation, 5000, 90_000),
                    slider("Strength", strength, 0, 150_000),
                ]
            },
            FilterParams::Scanlines { spacing, thickness, opacity, color, vertical, soft } => {
                seq![
                    slider("Spacing", spacing, 1000, 32_000),
                    slider("Thickness", thickness, 200, 16_000),
                    slider("Opacity", opacity, 0, 100_000),
                    colour("Color", color),
                    switch("Vertical", vertical),
                    switch("Soft edge", soft),
                ]
            },
            FilterParams::LiquidGlass {
                mode,
                radius,
                center_x,
                center_y,
                spacing,
                angle,
                refraction,
                specular,
                rim,
                softness,
                chroma,
                tint,
                tint_amount,
            } => {
                seq![choice("Mode", mode.ord() as i128)] + when(mode is Droplet, seq![
                    slider("Radius %", radius, 5000, 120_000),
                    slider("Center X %", center_x, 0, 100_000),
                    slider("Center Y %", center_y, 0, 100_000),
                ]) + when(mode is Selection, seq![slider("Thickness", radius, 15_000, 120_000)]) + when(mode is Ribbed, seq![
                    slider("Spacing", spacing, 2000, 96_000),
                    slider("Angle", angle, (-180_000) as i32, 180_000),
                    slider("Roundness", radius, 5000, 100_000),
                ]) + seq![
                    slider("Refraction", refraction, 0, 120_000),
                    slider("Specular", specular, 0, 150_000),
                    slider("Rim", rim, 0, 150_000),
                    slider("Softness", softness, 2000, 80_000),
                    slider("Chroma", chroma, 0, 100_000),
                    colour("Tint", tint),
                    slider("Tint amount", tint_amount, 0, 100_000),
                ]
            },
            FilterParams::Gradient {
                shape,
                angle,
                spread,
                center_x,
                center_y,
                color_a,
                color_b,
                opacity_a,
                opacity_b,
                amount,
                blend,
                reverse,
            } => {
                seq![
                    choice("Shape", shape.ord() as i128),
                    choice("Blend", blend.ord() as i128),
                    slider("Angle", angle, (-180_000) as i32, 180_000),
                    slider("Spread %", spread, 20_000, 200_000),
                    slider("Center X %", center_x, 0, 100_000),
                    slider("Center Y %", center_y, 0, 100_000),
                    colour("Color A", color_a),
                    colour("Color B", color_b),
                    slider("Opacity A", opacity_a, 0, 100_000),
                    slider("Opacity B", opacity_b, 0, 100_000),
                    slider("Amount", amount, 0, 100_000),
                    switch("Reverse", reverse),
                ]
            },
            FilterParams::ImageOverlay {
                blend,
                opacity,
                scale,
                rotation,
                offset_x,
                offset_y,
                tile,
                ..
            } => {
                seq![
                    choice("Blend", blend.ord() as i128),
                    slider("Opacity", opacity, 0, 100_000),
                    slider("Scale %", scale, 10_000, 400_000),
                    slider("Rotation", rotation, (-180_000) as i32, 180_000),
                    slider("Offset X %", offset_x, (-100_000) as i32, 100_000),
                    slider("Offset Y %", offset_y, (-100_000) as i32, 100_000),
                    switch("Tile", tile),
                ]
            },
            FilterParams::Levels { black, mid, white, red, green, blue, edit } => {
                let c = match edit {
                    ToneChannel::Rgb => LevelsChannel { black, mid, white },
                    ToneChannel::Red => red,
                    ToneChannel::Green => green,
                    ToneChannel::Blue => blue,
                };
                seq![
                    slider("Black", c.black, 0, 255_000),
                    slider("Gamma", c.mid, 50, 950),
                    slider("White", c.white, 0, 255_000),
                ]
            },
            FilterParams::HueSaturation { hue, saturation, lightness, colorize } => {
                seq![
                    switch("Colorize", colorize),
                    if colorize {
                        slider("Hue", hue, 0, 360_000)
                    } else {
                        slider("Hue", hue, (-180_000) as i32, 180_000)
                    },
                    if colorize {
                        slider("Saturation", saturation, 0, 100_000)
                    } else {
                        slider("Saturation", saturation, (-100_000) as i32, 100_000)
                    },
                    slider("Lightness", lightness, (-100_000) as i32, 100_000),
                ]
            },
        }
    }

    pub fn controls(&self, advanced_open: bool) -> (r: Vec<Control>)
        ensures
            r@ == self.spec_controls(advanced_open),
    {
        match self {
            FilterParams::Gaussian { radius } => {
                controls1(slider("Radius", *radius, 500, 80_000))
            },
            FilterParams::Motion { length, angle } => {
                controls2(
                    slider("Length", *length, 1000, 120_000),
                    slider("Angle", *angle, -180_000, 180_000),
                )
            },
            FilterParams::Radial { amount, zoom_mode } => {
                controls2(switch("Zoom", *zoom_mode), slider("Amount", *amount, 0, 100_000))
            },
            FilterParams::Unsharp { amount, radius } => {
                controls2(
                    slider("Amount", *amount, 0, 300_000),
                    slider("Radius", *radius, 500, 12_000),
                )
            },
            FilterParams::BrightnessContrast { brightness, contrast } => {
                controls2(
                    slider("Brightness", *brightness, -100_000, 100_000),
                    slider("Contrast", *contrast, -100_000, 100_000),
                )
            },
            FilterParams::Curves { .. } => {
                Vec::new()
            },
            FilterParams::ColorBalance { cyan_red, magenta_green, yellow_blue } => {
                controls3(
                    slider("Cyan — Red", *cyan_red, -100_000, 100_000),
                    slider("Magenta — Green", *magenta_green, -100_000, 100_000),
                    slider("Yellow — Blue", *yellow_blue, -100_000, 100_000),
                )
            },
            FilterParams::Invert => {
                Vec::new()
            },
            FilterParams::Pixelize { method, block, soft_amount } => {
                joined(controls2(
                    choice("Method", method.ordinal()),
                    count("Block size", *block, 2, 64),
                ), kept(matches!(*method, PixelizeMethod::Soft), controls1(slider("Soft amount", *soft_amount, 0, 100_000))))
            },
            FilterParams::HexPixelize { size } => {
                controls1(count("Cell size", *size, 4, 64))
            },
            FilterParams::TriPixelize { size } => {
                controls1(count("Cell size", *size, 4, 64))
            },
            FilterParams::HexDots { size, fill_pct, soft_edge } => {
                controls3(
                    count("Cell size", *size, 4, 64),
                    slider("Fill %", *fill_pct, 20_000, 100_000),
                    switch("Soft edge", *soft_edge),
                )
            },
            FilterParams::Posterize { levels } => {
                controls1(count("Levels", *levels, 2, 32))
            },
            FilterParams::Crystallize { size } => {
                controls1(count("Crystal size", *size, 4, 96))
            },
            FilterParams::Pointillize { size, density, bg } => {
                controls3(
                    count("Dot size", *size, 3, 64),
                    slider("Density", *density, 10_000, 100_000),
                    colour("Background", *bg),
                )
            },
            FilterParams::ColorHalftone {
                size,
                angle,
                mode,
                paper,
                bg,
                strength,
                softness,
                contrast,
                angle_c,
                angle_m,
                angle_y,
                angle_k,
            } => {
                joined(joined(controls7(
                    choice("Mode", mode.ordinal()),
                    choice("Paper", paper.ordinal()),
                    count("Dot size", *size, 2, 64),
                    slider("Base angle", *angle, -180_000, 180_000),
                    slider("Strength", *strength, 0, 100_000),
                    slider("Softness", *softness, 0, 100_000),
                    slider("Contrast", *contrast, 25_000, 250_000),
                ), kept(matches!(*paper, HalftonePaper::Replace), controls1(colour("Paper color", *bg)))), controls4(
                    slider("C / R", *angle_c, -180_000, 180_000),
                    slider("M / G", *angle_m, -180_000, 180_000),
                    slider("Y / B", *angle_y, -180_000, 180_000),
                    slider("K / Mono", *angle_k, -180_000, 180_000),
                ))
            },
            FilterParams::Fisheye { model, amount, radius, center_x, center_y } => {
                controls5(
                    choice("Model", model.ordinal()),
                    slider("Amount", *amount, -1000, 1000),
                    slider("Radius %", *radius, 10_000, 200_000),
                    slider("Center X %", *center_x, 0, 100_000),
                    slider("Center Y %", *center_y, 0, 100_000),
                )
            },
            FilterParams::SphericalLens { amount, radius, center_x, center_y } => {
                controls4(
                    slider("Amount", *amount, -1000, 1000),
                    slider("Radius %", *radius, 10_000, 200_000),
                    slider("Center X %", *center_x, 0, 100_000),
                    slider("Center Y %", *center_y, 0, 100_000),
                )
            },
            FilterParams::Ripple { mode, amount, wavelength, angle, center_x, center_y } => {
                joined(joined(controls3(
                    choice("Mode", mode.ordinal()),
                    slider("Amount", *amount, 0, 40_000),
                    slider("Wavelength", *wavelength, 4000, 200_000),
                ), kept(matches!(*mode, RippleMode::Linear), controls1(slider("Angle", *angle, -180_000, 180_000)))), controls2(
                    slider("Center X %", *center_x, 0, 100_000),
                    slider("Center Y %", *center_y, 0, 100_000),
                ))
            },
            FilterParams::Twist { amount, radius, center_x, center_y } => {
                controls4(
                    slider("Amount", *amount, -3000, 3000),
                    slider("Radius %", *radius, 10_000, 200_000),
                    slider("Center X %", *center_x, 0, 100_000),
                    slider("Center Y %", *center_y, 0, 100_000),
                )
            },
            FilterParams::ChromaticAberration {
                mode,
                amount,
                angle,
                center_atten,
                red_scale,
                blue_scale,
            } => {
                joined(controls3(
                    choice("Mode", mode.ordinal()),
                    slider("Amount", *amount, 0, 64_000),
                    slider("Angle", *angle, -180_000, 180_000),
                ), kept(advanced_open, controls3(
                    slider("Edge only", *center_atten, 0, 100_000),
                    slider("Red shift", *red_scale, 0, 2000),
                    slider("Blue shift", *blue_scale, 0, 2000),
                )))
            },
            FilterParams::Noise { method, amount, monochrome } => {
                controls3(
                    choice("Method", method.ordinal()),
                    slider("Amount", *amount, 0, 100_000),
                    switch("Monochrome", *monochrome),
                )
            },
            FilterParams::Glitch { method, amount, slice_height, max_shift } => {
                controls4(
                    choice("Method", method.ordinal()),
                    slider("Amount", *amount, 0, 100_000),
                    slider("Slice / block", *slice_height, 2000, 64_000),
                    slider("Max shift", *max_shift, 1000, 120_000),
                )
            },
            FilterParams::Vignette { shape, amount, softness, roundness, color } => {
                joined(joined(controls3(
                    choice("Shape", shape.ordinal()),
                    slider("Amount", *amount, 0, 100_000),
                    slider("Softness", *softness, 5000, 100_000),
                ), kept(matches!(*shape, VignetteShape::Ellipse), controls1(slider("Roundness", *roundness, 0, 100_000)))), controls1(colour("Color", *color)))
            },
            FilterParams::Glow { radius, intensity, tint, color } => {
                joined(controls3(
                    slider("Radius", *radius, 500, 64_000),
                    slider("Intensity", *intensity, 0, 200_000),
                    switch("Tint color", *tint),
                ), kept(*tint, controls1(colour("Color", *color))))
            },
            FilterParams::Sepia { amount, warmth } => {
                controls2(
                    slider("Amount", *amount, 0, 100_000),
                    slider("Warmth", *warmth, 0, 100_000),
                )
            },
            FilterParams::FilmGrain { amount, size, roughness, monochrome, shadow_bias } => {
                controls5(
                    slider("Amount", *amount, 0, 100_000),
                    slider("Size", *size, 250, 8000),
                    slider("Roughness", *roughness, 0, 100_000),
                    switch("Monochrome", *monochrome),
                    slider("Shadow bias", *shadow_bias, 0, 100_000),
                )
            },
            FilterParams::Dither {
                method,
                levels,
                amount,
                serpentine,
                pattern_size,
                monochrome,
            } => {
                joined(controls5(
                    choice("Method", method.ordinal()),
                    count("Levels", *levels, 2, 32),
                    slider("Amount", *amount, 0, 100_000),
                    slider("Pattern size", *pattern_size, 250, 16_000),
                    switch("Monochrome (luma)", *monochrome),
                ), kept(matches!(*method, DitherMethod::FloydSteinberg), controls1(switch("Serpentine scan", *serpentine))))
            },
            FilterParams::ReplaceColor { from, to, tolerance, softness, affect, amount } => {
                controls6(
                    colour("From", *from),
                    colour("To", *to),
                    slider("Tolerance", *tolerance, 0, 100_000),
                    slider("Softness", *softness, 0, 100_000),
                    choice("Affect", affect.ordinal()),
                    slider("Amount", *amount, 0, 100_000),
                )
            },
            FilterParams::Outline {
                thickness,
                threshold,
                softness,
                color,
                opacity,
                mode,
                use_luma,
            } => {
                controls7(
                    choice("Mode", mode.ordinal()),
                    slider("Thickness", *thickness, 500, 24_000),
                    slider("Threshold", *threshold, 1000, 100_000),
                    slider("Softness", *softness, 0, 100_000),
                    slider("Opacity", *opacity, 0, 100_000),
                    colour("Color", *color),
                    switch("Use luminance edges", *use_luma),
                )
            },
            FilterParams::OilPaint { radius, levels, strength } => {
                controls3(
                    slider("Brush size", *radius, 1000, 12_000),
                    count("Levels", *levels, 4, 32),
                    slider("Strength", *strength, 0, 100_000),
                )
            },
            FilterParams::Watercolor { blur, bleed, edge, saturation, strength } => {
                controls5(
                    slider("Blur", *blur, 500, 16_000),
                    slider("Bleed", *bleed, 0, 100_000),
                    slider("Edge darken", *edge, 0, 100_000),
                    slider("Saturation", *saturation, -50_000, 100_000),
                    slider("Strength", *strength, 0, 100_000),
                )
            },
            FilterParams::Pencil { detail, darkness, grain, strength } => {
                controls4(
                    slider("Detail", *detail, 500, 8000),
                    slider("Darkness", *darkness, 0, 150_000),
                    slider("Grain", *grain, 0, 100_000),
                    slider("Strength", *strength, 0, 100_000),
                )
            },
            FilterParams::Pastel { softness, chalk, lighten, strength } => {
                controls4(
                    slider("Softness", *softness, 0, 12_000),
                    slider("Chalk", *chalk, 0, 100_000),
                    slider("Lighten", *lighten, 0, 100_000),
                    slider("Strength", *strength, 0, 100_000),
                )
            },
            FilterParams::PaperTexture { amount, scale, roughness, warm } => {
                controls4(
                    slider("Amount", *amount, 0, 100_000),
                    slider("Scale", *scale, 500, 24_000),
                    slider("Roughness", *roughness, 0, 100_000),
                    slider("Warmth", *warm, 0, 100_000),
                )
            },
            FilterParams::NeonGlow { radius, intensity, threshold, color, core } => {
                controls5(
                    slider("Radius", *radius, 500, 48_000),
                    slider("Intensity", *intensity, 0, 200_000),
                    slider("Threshold", *threshold, 0, 100_000),
                    slider("Core", *core, 0, 100_000),
                    colour("Color", *color),
                )
            },
            FilterParams::LightRays { amount, length, center_x, center_y, decay, tint, color } => {
                joined(controls6(
                    slider("Amount", *amount, 0, 150_000),
                    slider("Length", *length, 4000, 120_000),
                    slider("Decay", *decay, 5000, 100_000),
                    slider("Center X %", *center_x, 0, 100_000),
                    slider("Center Y %", *center_y, 0, 100_000),
                    switch("Tint color", *tint),
                ), kept(*tint, controls1(colour("Color", *color))))
            },
            FilterParams::LensFlare { amount, center_x, center_y, size, streak, color } => {
                controls6(
                    slider("Amount", *amount, 0, 150_000),
                    slider("Size", *size, 4000, 160_000),
                    slider("Streak", *streak, 0, 100_000),
                    slider("Center X %", *center_x, 0, 100_000),
                    slider("Center Y %", *center_y, 0, 100_000),
                    colour("Color", *color),
                )
            },
            FilterParams::DropShadow { angle, distance, blur, opacity, color } => {
                controls5(
                    slider("Angle", *angle, -180_000, 180_000),
                    slider("Distance", *distance, 0, 96_000),
                    slider("Blur", *blur, 0, 48_000),
                    slider("Opacity", *opacity, 0, 100_000),
                    colour("Color", *color),
                )
            },
            FilterParams::BevelEmboss { depth, soft, angle, elevation, mode, strength } => {
                controls6(
                    choice("Mode", mode.ordinal()),
                    slider("Depth", *depth, 500, 16_000),
                    slider("Softness", *soft, 0, 8000),
                    slider("Angle", *angle, -180_000, 180_000),
                    slider("Elevation", *elevation, 5000, 90_000),
                    slider("Strength", *strength, 0, 150_000),
                )
            },
            FilterParams::Scanlines { spacing, thickness, opacity, color, vertical, soft } => {
                controls6(
                    slider("Spacing", *spacing, 1000, 32_000),
                    slider("Thickness", *thickness, 200, 16_000),
                    slider("Opacity", *opacity, 0, 100_000),
                    colour("Color", *color),
                    switch("Vertical", *vertical),
                    switch("Soft edge", *soft),
                )
            },
            FilterParams::LiquidGlass {
                mode,
                radius,
                center_x,
                center_y,
                spacing,
                angle,
                refraction,
                specular,
                rim,
                softness,
                chroma,
                tint,
                tint_amount,
            } => {
                joined(joined(joined(joined(controls1(choice("Mode", mode.ordinal())), kept(matches!(*mode, LiquidGlassMode::Droplet), controls3(
                    slider("Radius %", *radius, 5000, 120_000),
                    slider("Center X %", *center_x, 0, 100_000),
                    slider("Center Y %", *center_y, 0, 100_000),
                ))), kept(matches!(*mode, LiquidGlassMode::Selection), controls1(slider("Thickness", *radius, 15_000, 120_000)))), kept(matches!(*mode, LiquidGlassMode::Ribbed), controls3(
                    slider("Spacing", *spacing, 2000, 96_000),
                    slider("Angle", *angle, -180_000, 180_000),
                    slider("Roundness", *radius, 5000, 100_000),
                ))), controls7(
                    slider("Refraction", *refraction, 0, 120_000),
                    slider("Specular", *specular, 0, 150_000),
                    slider("Rim", *rim, 0, 150_000),
                    slider("Softness", *softness, 2000, 80_000),
                    slider("Chroma", *chroma, 0, 100_000),
                    colour("Tint", *tint),
                    slider("Tint amount", *tint_amount, 0, 100_000),
                ))
            },
            FilterParams::Gradient {
                shape,
                angle,
                spread,
                center_x,
                center_y,
                color_a,
                color_b,
                opacity_a,
                opacity_b,
                amount,
                blend,
                reverse,
            } => {
                controls12(
                    choice("Shape", shape.ordinal()),
                    choice("Blend", blend.ordinal()),
                    slider("Angle", *angle, -180_000, 180_000),
                    slider("Spread %", *spread, 20_000, 200_000),
                    slider("Center X %", *center_x, 0, 100_000),
                    slider("Center Y %", *center_y, 0, 100_000),
                    colour("Color A", *color_a),
                    colour("Color B", *color_b),
                    slider("Opacity A", *opacity_a, 0, 100_000),
                    slider("Opacity B", *opacity_b, 0, 100_000),
                    slider("Amount", *amount, 0, 100_000),
                    switch("Reverse", *reverse),
                )
            },
            FilterParams::ImageOverlay {
                blend,
                opacity,
                scale,
                rotation,
                offset_x,
                offset_y,
                tile,
                ..
            } => {
                controls7(
                    choice("Blend", blend.ordinal()),
                    slider("Opacity", *opacity, 0, 100_000),
                    slider("Scale %", *scale, 10_000, 400_000),
                    slider("Rotation", *rotation, -180_000, 180_000),
                    slider("Offset X %", *offset_x, -100_000, 100_000),
                    slider("Offset Y %", *offset_y, -100_000, 100_000),
                    switch("Tile", *tile),
                )
            },
            FilterParams::Levels { black, mid, white, red, green, blue, edit } => {
                let c: LevelsChannel = match *edit {
                    ToneChannel::Rgb => LevelsChannel { black: *black, mid: *mid, white: *white },
                    ToneChannel::Red => *red,
                    ToneChannel::Green => *green,
                    ToneChannel::Blue => *blue,
                };
                controls3(
                    slider("Black", c.black, 0, 255_000),
                    slider("Gamma", c.mid, 50, 950),
                    slider("White", c.white, 0, 255_000),
                )
            },
            FilterParams::HueSaturation { hue, saturation, lightness, colorize } => {
                controls4(
                    switch("Colorize", *colorize),
                    if *colorize {
                        slider("Hue", *hue, 0, 360_000)
                    } else {
                        slider("Hue", *hue, -180_000, 180_000)
                    },
                    if *colorize {
                        slider("Saturation", *saturation, 0, 100_000)
                    } else {
                        slider("Saturation", *saturation, -100_000, 100_000)
                    },
                    slider("Lightness", *lightness, -100_000, 100_000),
                )
            },
        }
    }
}

} // verus!
