//! The numbers that tell two filters apart.
use vstd::prelude::*;
use crate::filters::choice::{LevelsChannel, Rgb, TransferCurve};
use crate::filters::params::FilterParams;
use crate::text::chars_of;

verus! {

pub open spec fn flag(b: bool) -> i128 {
    if b {
        1
    } else {
        0
    }
}

pub open spec fn colour_values(c: Rgb) -> Seq<i128> {
    seq![c.r as i128, c.g as i128, c.b as i128]
}

pub open spec fn levels_values(c: LevelsChannel) -> Seq<i128> {
    seq![c.black as i128, c.mid as i128, c.white as i128]
}

pub open spec fn point_values(points: Seq<(i32, i32)>) -> Seq<i128>
    decreases points.len(),
{
    if points.len() == 0 {
        Seq::empty()
    } else {
        point_values(points.drop_last()).push(points.last().0 as i128).push(points.last().1 as i128)
    }
}

/// A curve: how many points it has, and the points.
pub open spec fn curve_values(c: TransferCurve) -> Seq<i128> {
    seq![c.points@.len() as i128] + point_values(c.points@)
}

pub open spec fn char_values(s: Seq<char>) -> Seq<i128> {
    s.map_values(|c: char| c as u32 as i128)
}

/// A path: whether there is one, how long it is, and its characters.
pub open spec fn path_values(path: Option<String>) -> Seq<i128> {
    match path {
        Some(s) => seq![1i128, s@.len() as i128] + char_values(s@),
        None => seq![0i128],
    }
}

pub open spec fn pixel_count(rgba: Option<Vec<u8>>) -> i128 {
    match rgba {
        Some(v) => v@.len() as i128,
        None => 0,
    }
}

fn colour_list(c: &Rgb) -> (r: Vec<i128>)
    ensures
        r@ == colour_values(*c),
{
    list3(c.r as i128, c.g as i128, c.b as i128)
}

fn levels_list(c: &LevelsChannel) -> (r: Vec<i128>)
    ensures
        r@ == levels_values(*c),
{
    list3(c.black as i128, c.mid as i128, c.white as i128)
}

fn curve_list(c: &TransferCurve) -> (r: Vec<i128>)
    ensures
        r@ == curve_values(*c),
{
    let mut out: Vec<i128> = Vec::new();
    let n: usize = c.points.len();
    out.push(n as i128);
    let ghost start = out@;
    let mut i: usize = 0;
    assert(start + point_values(c.points@.take(0)) =~= start);
    while i < n
        invariant
            i <= n,
            n == c.points.len(),
            out@ == start + point_values(c.points@.take(i as int)),
        decreases n - i,
    {
        let (x, y) = c.points[i];
        out.push(x as i128);
        out.push(y as i128);
        i += 1;
        assert(c.points@.take(i as int).drop_last() =~= c.points@.take(i - 1));
        assert(out@ =~= start + point_values(c.points@.take(i as int)));
    }
    assert(c.points@.take(n as int) =~= c.points@);
    assert(out@ =~= curve_values(*c));
    out
}

fn path_list(path: &Option<String>) -> (r: Vec<i128>)
    ensures
        r@ == path_values(*path),
{
    let mut out: Vec<i128> = Vec::new();
    match path {
        Some(s) => {
            let chars = chars_of(s.as_str());
            let n: usize = chars.len();
            out.push(1);
            out.push(n as i128);
            let ghost start = out@;
            let mut i: usize = 0;
            while i < n
                invariant
                    i <= n,
                    n == chars.len(),
                    out@ =~= start + char_values(chars@.take(i as int)),
                decreases n - i,
            {
                out.push(chars[i] as u32 as i128);
                i += 1;
            }
            assert(chars@.take(n as int) =~= chars@);
            assert(out@ =~= path_values(*path));
        },
        None => {
            out.push(0);
            assert(out@ =~= path_values(*path));
        },
    }
    out
}

fn count_pixels(rgba: &Option<Vec<u8>>) -> (r: i128)
    ensures
        r == pixel_count(*rgba),
{
    match rgba {
        Some(v) => v.len() as i128,
        None => 0,
    }
}

fn flag_value(b: bool) -> (r: i128)
    ensures
        r == flag(b),
{
    if b {
        1
    } else {
        0
    }
}

fn list1(a: i128) -> (r: Vec<i128>)
    ensures
        r@ == seq![a],
{
    let r = vec![a];
    assert(r@ =~= seq![a]);
    r
}

fn list2(a: i128, b: i128) -> (r: Vec<i128>)
    ensures
        r@ == seq![a, b],
{
    let r = vec![a, b];
    assert(r@ =~= seq![a, b]);
    r
}

fn list3(a: i128, b: i128, c: i128) -> (r: Vec<i128>)
    ensures
        r@ == seq![a, b, c],
{
    let r = vec![a, b, c];
    assert(r@ =~= seq![a, b, c]);
    r
}

fn list4(a: i128, b: i128, c: i128, d: i128) -> (r: Vec<i128>)
    ensures
        r@ == seq![a, b, c, d],
{
    let r = vec![a, b, c, d];
    assert(r@ =~= seq![a, b, c, d]);
    r
}

fn list5(a: i128, b: i128, c: i128, d: i128, e: i128) -> (r: Vec<i128>)
    ensures
        r@ == seq![a, b, c, d, e],
{
    let r = vec![a, b, c, d, e];
    assert(r@ =~= seq![a, b, c, d, e]);
    r
}

fn list6(a: i128, b: i128, c: i128, d: i128, e: i128, f: i128) -> (r: Vec<i128>)
    ensures
        r@ == seq![a, b, c, d, e, f],
{
    let r = vec![a, b, c, d, e, f];
    assert(r@ =~= seq![a, b, c, d, e, f]);
    r
}

fn list7(a: i128, b: i128, c: i128, d: i128, e: i128, f: i128, g: i128) -> (r: Vec<i128>)
    ensures
        r@ == seq![a, b, c, d, e, f, g],
{
    let r = vec![a, b, c, d, e, f, g];
    assert(r@ =~= seq![a, b, c, d, e, f, g]);
    r
}

fn list10(
    a: i128,
    b: i128,
    c: i128,
    d: i128,
    e: i128,
    f: i128,
    g: i128,
    h: i128,
    i: i128,
    j: i128,
) -> (r: Vec<i128>)
    ensures
        r@ == seq![a, b, c, d, e, f, g, h, i, j],
{
    let r = vec![a, b, c, d, e, f, g, h, i, j];
    assert(r@ =~= seq![a, b, c, d, e, f, g, h, i, j]);
    r
}

fn list11(
    a: i128,
    b: i128,
    c: i128,
    d: i128,
    e: i128,
    f: i128,
    g: i128,
    h: i128,
    i: i128,
    j: i128,
    k: i128,
) -> (r: Vec<i128>)
    ensures
        r@ == seq![a, b, c, d, e, f, g, h, i, j, k],
{
    let r = vec![a, b, c, d, e, f, g, h, i, j, k];
    assert(r@ =~= seq![a, b, c, d, e, f, g, h, i, j, k]);
    r
}

fn joined(a: Vec<i128>, b: Vec<i128>) -> (r: Vec<i128>)
    ensures
        r@ == a@ + b@,
{
    let mut out = a;
    let mut more = b;
    out.append(&mut more);
    out
}

impl FilterParams {
    /// The numbers that a filter's effect depends on: its parameters in order,
    /// but for the channel that an editor shows.
    pub open spec fn values(self) -> Seq<i128> {
        match self {
            FilterParams::Gaussian { radius } => {
                seq![radius as i128]
            },
            FilterParams::Motion { length, angle } => {
                seq![length as i128, angle as i128]
            },
            FilterParams::Radial { amount, zoom_mode } => {
                seq![amount as i128, flag(zoom_mode)]
            },
            FilterParams::Unsharp { amount, radius } => {
                seq![amount as i128, radius as i128]
            },
            FilterParams::BrightnessContrast { brightness, contrast } => {
                seq![brightness as i128, contrast as i128]
            },
            FilterParams::Levels { black, mid, white, red, green, blue, .. } => {
                seq![black as i128, mid as i128, white as i128] + levels_values(red) + levels_values(green) + levels_values(blue)
            },
            FilterParams::Curves { rgb, red, green, blue, .. } => {
                curve_values(rgb) + curve_values(red) + curve_values(green) + curve_values(blue)
            },
            FilterParams::HueSaturation { hue, saturation, lightness, colorize } => {
                seq![
                    hue as i128,
                    saturation as i128,
                    lightness as i128,
                    flag(colorize),
                ]
            },
            FilterParams::ColorBalance { cyan_red, magenta_green, yellow_blue } => {
                seq![cyan_red as i128, magenta_green as i128, yellow_blue as i128]
            },
            FilterParams::Invert => Seq::empty(),
            FilterParams::Pixelize { method, block, soft_amount } => {
                seq![method.ord() as i128, block as i128, soft_amount as i128]
            },
            FilterParams::HexPixelize { size } => {
                seq![size as i128]
            },
            FilterParams::TriPixelize { size } => {
                seq![size as i128]
            },
            FilterParams::HexDots { size, fill_pct, soft_edge } => {
                seq![size as i128, fill_pct as i128, flag(soft_edge)]
            },
            FilterParams::Posterize { levels } => {
                seq![levels as i128]
            },
            FilterParams::Crystallize { size } => {
                seq![size as i128]
            },
            FilterParams::Pointillize { size, density, bg } => {
                seq![size as i128, density as i128] + colour_values(bg)
            },
            FilterParams::ColorHalftone {
                size,
                angle,
                mode,
                paper,
                bg,
                strength,
                softness,
                contrast,
                angle_c,
                angle_m,
                angle_y,
                angle_k,
            } => {
                seq![
                    size as i128,
                    angle as i128,
                    mode.ord() as i128,
                    paper.ord() as i128,
                ] + colour_values(bg) + seq![
                    strength as i128,
                    softness as i128,
                    contrast as i128,
                    angle_c as i128,
                    angle_m as i128,
                    angle_y as i128,
                    angle_k as i128,
                ]
            },
            FilterParams::Fisheye { model, amount, radius, center_x, center_y } => {
                seq![
                    model.ord() as i128,
                    amount as i128,
                    radius as i128,
                    center_x as i128,
                    center_y as i128,
                ]
            },
            FilterParams::SphericalLens { amount, radius, center_x, center_y } => {
                seq![
                    amount as i128,
                    radius as i128,
                    center_x as i128,
                    center_y as i128,
                ]
            },
            FilterParams::Ripple { mode, amount, wavelength, angle, center_x, center_y } => {
                seq![
                    mode.ord() as i128,
                    amount as i128,
                    wavelength as i128,
                    angle as i128,
                    center_x as i128,
                    center_y as i128,
                ]
            },
            FilterParams::Twist { amount, radius, center_x, center_y } => {
                seq![
                    amount as i128,
                    radius as i128,
                    center_x as i128,
                    center_y as i128,
                ]
            },
            FilterParams::ChromaticAberration {
                mode,
                amount,
                angle,
                center_atten,
                red_scale,
                blue_scale,
            } => {
                seq![
                    mode.ord() as i128,
                    amount as i128,
                    angle as i128,
                    center_atten as i128,
                    red_scale as i128,
                    blue_scale as i128,
                ]
            },
            FilterParams::Noise { method, amount, monochrome } => {
                seq![method.ord() as i128, amount as i128, flag(monochrome)]
            },
            FilterParams::Glitch { method, amount, slice_height, max_shift } => {
                seq![
                    method.ord() as i128,
                    amount as i128,
                    slice_height as i128,
                    max_shift as i128,
                ]
            },
            FilterParams::Vignette { shape, amount, softness, roundness, color } => {
                seq![
                    shape.ord() as i128,
                    amount as i128,
                    softness as i128,
                    roundness as i128,
                ] + colour_values(color)
            },
            FilterParams::Glow { radius, intensity, tint, color } => {
                seq![radius as i128, intensity as i128, flag(tint)] + colour_values(color)
            },
            FilterParams::Sepia { amount, warmth } => {
                seq![amount as i128, warmth as i128]
            },
            FilterParams::FilmGrain { amount, size, roughness, monochrome, shadow_bias } => {
                seq![
                    amount as i128,
                    size as i128,
                    roughness as i128,
                    flag(monochrome),
                    shadow_bias as i128,
                ]
            },
            FilterParams::Dither {
                method,
                levels,
                amount,
                serpentine,
                pattern_size,
                monochrome,
            } => {
                seq![
                    method.ord() as i128,
                    levels as i128,
                    amount as i128,
                    flag(serpentine),
                    pattern_size as i128,
                    flag(monochrome),
                ]
            },
            FilterParams::ReplaceColor { from, to, tolerance, softness, affect, amount } => {
                colour_values(from) + colour_values(to) + seq![
                    tolerance as i128,
                    softness as i128,
                    affect.ord() as i128,
                    amount as i128,
                ]
            },
            FilterParams::Outline {
                thickness,
                threshold,
                softness,
                color,
                opacity,
                mode,
                use_luma,
            } => {
                seq![thickness as i128, threshold as i128, softness as i128] + colour_values(color) + seq![opacity as i128, mode.ord() as i128, flag(use_luma)]
            },
            FilterParams::OilPaint { radius, levels, strength } => {
                seq![radius as i128, levels as i128, strength as i128]
            },
            FilterParams::Watercolor { blur, bleed, edge, saturation, strength } => {
                seq![
                    blur as i128,
                    bleed as i128,
                    edge as i128,
                    saturation as i128,
                    strength as i128,
                ]
            },
            FilterParams::Pencil { detail, darkness, grain, strength } => {
                seq![
                    detail as i128,
                    darkness as i128,
                    grain as i128,
                    strength as i128,
                ]
            },
            FilterParams::Pastel { softness, chalk, lighten, strength } => {
                seq![
                    softness as i128,
                    chalk as i128,
                    lighten as i128,
                    strength as i128,
                ]
            },
            FilterParams::PaperTexture { amount, scale, roughness, warm } => {
                seq![amount as i128, scale as i128, roughness as i128, warm as i128]
            },
            FilterParams::NeonGlow { radius, intensity, threshold, color, core } => {
                seq![radius as i128, intensity as i128, threshold as i128] + colour_values(color) + seq![core as i128]
            },
            FilterParams::LightRays {
                amount,
                length,
                center_x,
                center_y,
                decay,
                tint,
                color,
            } => {
                seq![
                    amount as i128,
                    length as i128,
                    center_x as i128,
                    center_y as i128,
                    decay as i128,
                    flag(tint),
                ] + colour_values(color)
            },
            FilterParams::LensFlare { amount, center_x, center_y, size, streak, color } => {
                seq![
                    amount as i128,
                    center_x as i128,
                    center_y as i128,
                    size as i128,
                    streak as i128,
                ] + colour_values(color)
            },
            FilterParams::DropShadow { angle, distance, blur, opacity, color } => {
                seq![angle as i128, distance as i128, blur as i128, opacity as i128] + colour_values(color)
            },
            FilterParams::BevelEmboss { depth, soft, angle, elevation, mode, strength } => {
                seq![
                    depth as i128,
                    soft as i128,
                    angle as i128,
                    elevation as i128,
                    mode.ord() as i128,
                    strength as i128,
                ]
            },
            FilterParams::Scanlines { spacing, thickness, opacity, color, vertical, soft } => {
                seq![spacing as i128, thickness as i128, opacity as i128] + colour_values(color) + seq![flag(vertical), flag(soft)]
            },
            FilterParams::LiquidGlass {
                mode,
                radius,
                center_x,
                center_y,
                spacing,
                angle,
                refraction,
                specular,
                rim,
                softness,
                chroma,
                tint,
                tint_amount,
            } => {
                seq![
                    mode.ord() as i128,
                    radius as i128,
                    center_x as i128,
                    center_y as i128,
                    spacing as i128,
                    angle as i128,
                    refraction as i128,
                    specular as i128,
                    rim as i128,
                    softness as i128,
                    chroma as i128,
                ] + colour_values(tint) + seq![tint_amount as i128]
            },
            FilterParams::Gradient {
                shape,
                angle,
                spread,
                center_x,
                center_y,
                color_a,
                color_b,
                opacity_a,
                opacity_b,
                amount,
                blend,
                reverse,
            } => {
                seq![
                    shape.ord() as i128,
                    angle as i128,
                    spread as i128,
                    center_x as i128,
                    center_y as i128,
                ] + colour_values(color_a) + colour_values(color_b) + seq![
                    opacity_a as i128,
                    opacity_b as i128,
                    amount as i128,
                    blend.ord() as i128,
                    flag(reverse),
                ]
            },
            FilterParams::ImageOverlay {
                path,
                rgba,
                tex_w,
                tex_h,
                blend,
                opacity,
                scale,
                rotation,
                offset_x,
                offset_y,
                tile,
            } => {
                path_values(path) + seq![
                    tex_w as i128,
                    tex_h as i128,
                    pixel_count(rgba),
                    blend.ord() as i128,
                    opacity as i128,
                    scale as i128,
                    rotation as i128,
                    offset_x as i128,
                    offset_y as i128,
                    flag(tile),
                ]
            },
        }
    }

    /// The numbers that the filter's effect depends on.
    pub fn value_list(&self) -> (r: Vec<i128>)
        ensures
            r@ == self.values(),
    {
        match self {
            FilterParams::Gaussian { radius } => {
                list1(*radius as i128)
            },
            FilterParams::Motion { length, angle } => {
                list2(*length as i128, *angle as i128)
            },
            FilterParams::Radial { amount, zoom_mode } => {
                list2(*amount as i128, flag_value(*zoom_mode))
            },
            FilterParams::Unsharp { amount, radius } => {
                list2(*amount as i128, *radius as i128)
            },
            FilterParams::BrightnessContrast { brightness, contrast } => {
                list2(*brightness as i128, *contrast as i128)
            },
            FilterParams::Levels { black, mid, white, red, green, blue, .. } => {
                joined(joined(joined(list3(*black as i128, *mid as i128, *white as i128), levels_list(red)), levels_list(green)), levels_list(blue))
            },
            FilterParams::Curves { rgb, red, green, blue, .. } => {
                joined(joined(joined(curve_list(rgb), curve_list(red)), curve_list(green)), curve_list(blue))
            },
            FilterParams::HueSaturation { hue, saturation, lightness, colorize } => {
                list4(
                    *hue as i128,
                    *saturation as i128,
                    *lightness as i128,
                    flag_value(*colorize),
                )
            },
            FilterParams::ColorBalance { cyan_red, magenta_green, yellow_blue } => {
                list3(*cyan_red as i128, *magenta_green as i128, *yellow_blue as i128)
            },
            FilterParams::Invert => Vec::new(),
            FilterParams::Pixelize { method, block, soft_amount } => {
                list3(method.ordinal(), *block as i128, *soft_amount as i128)
            },
            FilterParams::HexPixelize { size } => {
                list1(*size as i128)
            },
            FilterParams::TriPixelize { size } => {
                list1(*size as i128)
            },
            FilterParams::HexDots { size, fill_pct, soft_edge } => {
                list3(*size as i128, *fill_pct as i128, flag_value(*soft_edge))
            },
            FilterParams::Posterize { levels } => {
                list1(*levels as i128)
            },
            FilterParams::Crystallize { size } => {
                list1(*size as i128)
            },
            FilterParams::Pointillize { size, density, bg } => {
                joined(list2(*size as i128, *density as i128), colour_list(bg))
            },
            FilterParams::ColorHalftone {
                size,
                angle,
                mode,
                paper,
                bg,
                strength,
                softness,
                contrast,
                angle_c,
                angle_m,
                angle_y,
                angle_k,
            } => {
                joined(joined(list4(*size as i128, *angle as i128, mode.ordinal(), paper.ordinal()), colour_list(bg)), list7(
                    *strength as i128,
                    *softness as i128,
                    *contrast as i128,
                    *angle_c as i128,
                    *angle_m as i128,
                    *angle_y as i128,
                    *angle_k as i128,
                ))
            },
            FilterParams::Fisheye { model, amount, radius, center_x, center_y } => {
                list5(
                    model.ordinal(),
                    *amount as i128,
                    *radius as i128,
                    *center_x as i128,
                    *center_y as i128,
                )
            },
            FilterParams::SphericalLens { amount, radius, center_x, center_y } => {
                list4(
                    *amount as i128,
                    *radius as i128,
                    *center_x as i128,
                    *center_y as i128,
                )
            },
            FilterParams::Ripple { mode, amount, wavelength, angle, center_x, center_y } => {
                list6(
                    mode.ordinal(),
                    *amount as i128,
                    *wavelength as i128,
                    *angle as i128,
                    *center_x as i128,
                    *center_y as i128,
                )
            },
            FilterParams::Twist { amount, radius, center_x, center_y } => {
                list4(
                    *amount as i128,
                    *radius as i128,
                    *center_x as i128,
                    *center_y as i128,
                )
            },
            FilterParams::ChromaticAberration {
                mode,
                amount,
                angle,
                center_atten,
                red_scale,
                blue_scale,
            } => {
                list6(
                    mode.ordinal(),
                    *amount as i128,
                    *angle as i128,
                    *center_atten as i128,
                    *red_scale as i128,
                    *blue_scale as i128,
                )
            },
            FilterParams::Noise { method, amount, monochrome } => {
                list3(method.ordinal(), *amount as i128, flag_value(*monochrome))
            },
            FilterParams::Glitch { method, amount, slice_height, max_shift } => {
                list4(
                    method.ordinal(),
                    *amount as i128,
                    *slice_height as i128,
                    *max_shift as i128,
                )
            },
            FilterParams::Vignette { shape, amount, softness, roundness, color } => {
                joined(list4(
                    shape.ordinal(),
                    *amount as i128,
                    *softness as i128,
                    *roundness as i128,
                ), colour_list(color))
            },
            FilterParams::Glow { radius, intensity, tint, color } => {
                joined(list3(*radius as i128, *intensity as i128, flag_value(*tint)), colour_list(color))
            },
            FilterParams::Sepia { amount, warmth } => {
                list2(*amount as i128, *warmth as i128)
            },
            FilterParams::FilmGrain { amount, size, roughness, monochrome, shadow_bias } => {
                list5(
                    *amount as i128,
                    *size as i128,
                    *roughness as i128,
                    flag_value(*monochrome),
                    *shadow_bias as i128,
                )
            },
            FilterParams::Dither {
                method,
                levels,
                amount,
                serpentine,
                pattern_size,
                monochrome,
            } => {
                list6(
                    method.ordinal(),
                    *levels as i128,
                    *amount as i128,
                    flag_value(*serpentine),
                    *pattern_size as i128,
                    flag_value(*monochrome),
                )
            },
            FilterParams::ReplaceColor { from, to, tolerance, softness, affect, amount } => {
                joined(joined(colour_list(from), colour_list(to)), list4(
                    *tolerance as i128,
                    *softness as i128,
                    affect.ordinal(),
                    *amount as i128,
                ))
            },
            FilterParams::Outline {
                thickness,
                threshold,
                softness,
                color,
                opacity,
                mode,
                use_luma,
            } => {
                joined(joined(list3(*thickness as i128, *threshold as i128, *softness as i128), colour_list(color)), list3(*opacity as i128, mode.ordinal(), flag_value(*use_luma)))
            },
            FilterParams::OilPaint { radius, levels, strength } => {
                list3(*radius as i128, *levels as i128, *strength as i128)
            },
            FilterParams::Watercolor { blur, bleed, edge, saturation, strength } => {
                list5(
                    *blur as i128,
                    *bleed as i128,
                    *edge as i128,
                    *saturation as i128,
                    *strength as i128,
                )
            },
            FilterParams::Pencil { detail, darkness, grain, strength } => {
                list4(
                    *detail as i128,
                    *darkness as i128,
                    *grain as i128,
                    *strength as i128,
                )
            },
            FilterParams::Pastel { softness, chalk, lighten, strength } => {
                list4(
                    *softness as i128,
                    *chalk as i128,
                    *lighten as i128,
                    *strength as i128,
                )
            },
            FilterParams::PaperTexture { amount, scale, roughness, warm } => {
                list4(
                    *amount as i128,
                    *scale as i128,
                    *roughness as i128,
                    *warm as i128,
                )
            },
            FilterParams::NeonGlow { radius, intensity, threshold, color, core } => {
                joined(joined(list3(*radius as i128, *intensity as i128, *threshold as i128), colour_list(color)), list1(*core as i128))
            },
            FilterParams::LightRays {
                amount,
                length,
                center_x,
                center_y,
                decay,
                tint,
                color,
            } => {
                joined(list6(
                    *amount as i128,
                    *length as i128,
                    *center_x as i128,
                    *center_y as i128,
                    *decay as i128,
                    flag_value(*tint),
                ), colour_list(color))
            },
            FilterParams::LensFlare { amount, center_x, center_y, size, streak, color } => {
                joined(list5(
                    *amount as i128,
                    *center_x as i128,
                    *center_y as i128,
                    *size as i128,
                    *streak as i128,
                ), colour_list(color))
            },
            FilterParams::DropShadow { angle, distance, blur, opacity, color } => {
                joined(list4(
                    *angle as i128,
                    *distance as i128,
                    *blur as i128,
                    *opacity as i128,
                ), colour_list(color))
            },
            FilterParams::BevelEmboss { depth, soft, angle, elevation, mode, strength } => {
                list6(
                    *depth as i128,
                    *soft as i128,
                    *angle as i128,
                    *elevation as i128,
                    mode.ordinal(),
                    *strength as i128,
                )
            },
            FilterParams::Scanlines { spacing, thickness, opacity, color, vertical, soft } => {
                joined(joined(list3(*spacing as i128, *thickness as i128, *opacity as i128), colour_list(color)), list2(flag_value(*vertical), flag_value(*soft)))
            },
            FilterParams::LiquidGlass {
                mode,
                radius,
                center_x,
                center_y,
                spacing,
                angle,
                refraction,
                specular,
                rim,
                softness,
                chroma,
                tint,
                tint_amount,
            } => {
                joined(joined(list11(
                    mode.ordinal(),
                    *radius as i128,
                    *center_x as i128,
                    *center_y as i128,
                    *spacing as i128,
                    *angle as i128,
                    *refraction as i128,
                    *specular as i128,
                    *rim as i128,
                    *softness as i128,
                    *chroma as i128,
                ), colour_list(tint)), list1(*tint_amount as i128))
            },
            FilterParams::Gradient {
                shape,
                angle,
                spread,
                center_x,
                center_y,
                color_a,
                color_b,
                opacity_a,
                opacity_b,
                amount,
                blend,
                reverse,
            } => {
                joined(joined(joined(list5(
                    shape.ordinal(),
                    *angle as i128,
                    *spread as i128,
                    *center_x as i128,
                    *center_y as i128,
                ), colour_list(color_a)), colour_list(color_b)), list5(
                    *opacity_a as i128,
                    *opacity_b as i128,
                    *amount as i128,
                    blend.ordinal(),
                    flag_value(*reverse),
                ))
            },
            FilterParams::ImageOverlay {
                path,
                rgba,
                tex_w,
                tex_h,
                blend,
                opacity,
                scale,
                rotation,
                offset_x,
                offset_y,
                tile,
            } => {
                joined(
                    path_list(path),
                    list10(
                        *tex_w as i128,
                        *tex_h as i128,
                        count_pixels(rgba),
                        blend.ordinal(),
                        *opacity as i128,
                        *scale as i128,
                        *rotation as i128,
                        *offset_x as i128,
                        *offset_y as i128,
                        flag_value(*tile),
                    ),
                )
            },
        }
    }

    /// The filter and its numbers, the count of them between, so that a list of
    /// filters can be told from its numbers.
    pub open spec fn feed(self) -> Seq<i128> {
        seq![self.spec_kind().ord() as i128, self.values().len() as i128] + self.values()
    }
}

} // verus!
