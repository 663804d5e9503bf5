//! The tabs of the tone filters: levels and curves of each channel, and the
//! presets of hue and saturation.
use vstd::prelude::*;
use crate::filters::choice::{LevelsChannel, ToneChannel, TransferCurve, identity_levels};
use crate::filters::params::FilterParams;

verus! {

/// The levels of a channel.
pub open spec fn levels_of(p: FilterParams, ch: ToneChannel) -> LevelsChannel {
    match p {
        FilterParams::Levels { black, mid, white, red, green, blue, edit } => match ch {
            ToneChannel::Rgb => LevelsChannel { black, mid, white },
            ToneChannel::Red => red,
            ToneChannel::Green => green,
            ToneChannel::Blue => blue,
        },
        _ => identity_levels(),
    }
}

/// A levels filter with other levels of one channel. Any other filter stays.
pub open spec fn with_levels(p: FilterParams, ch: ToneChannel, c: LevelsChannel) -> FilterParams {
    match p {
        FilterParams::Levels { black, mid, white, red, green, blue, edit } => match ch {
            ToneChannel::Rgb => FilterParams::Levels {
                black: c.black,
                mid: c.mid,
                white: c.white,
                red,
                green,
                blue,
                edit,
            },
            ToneChannel::Red => FilterParams::Levels { black, mid, white, red: c, green, blue, edit },
            ToneChannel::Green => FilterParams::Levels {
                black,
                mid,
                white,
                red,
                green: c,
                blue,
                edit,
            },
            ToneChannel::Blue => FilterParams::Levels { black, mid, white, red, green, blue: c, edit },
        },
        _ => p,
    }
}

/// The channel whose tab shows.
pub open spec fn shown_channel(p: FilterParams) -> ToneChannel {
    match p {
        FilterParams::Levels { edit, .. } => edit,
        FilterParams::Curves { edit, .. } => edit,
        _ => ToneChannel::Rgb,
    }
}

/// A tone filter with another channel's tab.
pub open spec fn with_tab(p: FilterParams, ch: ToneChannel) -> FilterParams {
    match p {
        FilterParams::Levels { black, mid, white, red, green, blue, edit } => FilterParams::Levels {
            black,
            mid,
            white,
            red,
            green,
            blue,
            edit: ch,
        },
        FilterParams::Curves { rgb, red, green, blue, edit } => FilterParams::Curves {
            rgb,
            red,
            green,
            blue,
            edit: ch,
        },
        _ => p,
    }
}

/// The points of a channel's curve.
pub open spec fn curve_of(p: FilterParams, ch: ToneChannel) -> Seq<(i32, i32)> {
    match p {
        FilterParams::Curves { rgb, red, green, blue, edit } => match ch {
            ToneChannel::Rgb => rgb.points@,
            ToneChannel::Red => red.points@,
            ToneChannel::Green => green.points@,
            ToneChannel::Blue => blue.points@,
        },
        _ => TransferCurve::identity_points(),
    }
}

/// Sets the levels of a channel.
pub fn set_levels(p: FilterParams, ch: ToneChannel, c: LevelsChannel) -> (r: FilterParams)
    ensures
        r == with_levels(p, ch, c),
{
    match p {
        FilterParams::Levels { black, mid, white, red, green, blue, edit } => match ch {
            ToneChannel::Rgb => FilterParams::Levels {
                black: c.black,
                mid: c.mid,
                white: c.white,
                red,
                green,
                blue,
                edit,
            },
            ToneChannel::Red => FilterParams::Levels { black, mid, white, red: c, green, blue, edit },
            ToneChannel::Green => FilterParams::Levels {
                black,
                mid,
                white,
                red,
                green: c,
                blue,
                edit,
            },
            ToneChannel::Blue => FilterParams::Levels { black, mid, white, red, green, blue: c, edit },
        },
        other => other,
    }
}

/// Shows another channel's tab.
pub fn show_tab(p: FilterParams, ch: ToneChannel) -> (r: FilterParams)
    ensures
        r == with_tab(p, ch),
{
    match p {
        FilterParams::Levels { black, mid, white, red, green, blue, edit } => FilterParams::Levels {
            black,
            mid,
            white,
            red,
            green,
            blue,
            edit: ch,
        },
        FilterParams::Curves { rgb, red, green, blue, edit } => FilterParams::Curves {
            rgb,
            red,
            green,
            blue,
            edit: ch,
        },
        other => other,
    }
}

/// Puts the levels or the curve of the channel that shows back to where they
/// change nothing.
pub fn reset_channel(p: FilterParams) -> (r: FilterParams)
    ensures
        p is Levels ==> r == with_levels(p, shown_channel(p), identity_levels()),
        p is Curves ==> r is Curves && shown_channel(r) == shown_channel(p) && forall|ch: ToneChannel|
            #[trigger] curve_of(r, ch) == (if ch == shown_channel(p) {
                TransferCurve::identity_points()
            } else {
                curve_of(p, ch)
            }),
        !(p is Levels) && !(p is Curves) ==> r == p,
{
    match p {
        FilterParams::Levels { black, mid, white, red, green, blue, edit } => {
            let all = FilterParams::Levels { black, mid, white, red, green, blue, edit };
            set_levels(all, edit, identity_levels())
        },
        FilterParams::Curves { rgb, red, green, blue, edit } => {
            let flat = TransferCurve::identity();
            match edit {
                ToneChannel::Rgb => FilterParams::Curves { rgb: flat, red, green, blue, edit },
                ToneChannel::Red => FilterParams::Curves { rgb, red: flat, green, blue, edit },
                ToneChannel::Green => FilterParams::Curves { rgb, red, green: flat, blue, edit },
                ToneChannel::Blue => FilterParams::Curves { rgb, red, green, blue: flat, edit },
            }
        },
        other => other,
    }
}

/// Puts all channels back to where they change nothing; the tab stays.
pub fn reset_all(p: FilterParams) -> (r: FilterParams)
    ensures
        p is Levels ==> r is Levels,
        p is Curves ==> r is Curves,
        p is Levels || p is Curves ==> shown_channel(r) == shown_channel(p) && forall|
            ch: ToneChannel,
        |
            levels_of(r, ch) == identity_levels() && #[trigger] curve_of(r, ch)
                == TransferCurve::identity_points(),
        !(p is Levels) && !(p is Curves) ==> r == p,
{
    match p {
        FilterParams::Levels { edit, .. } => FilterParams::Levels {
            black: 0,
            mid: 500,
            white: 255_000,
            red: identity_levels(),
            green: identity_levels(),
            blue: identity_levels(),
            edit,
        },
        FilterParams::Curves { edit, .. } => FilterParams::Curves {
            rgb: TransferCurve::identity(),
            red: TransferCurve::identity(),
            green: TransferCurve::identity(),
            blue: TransferCurve::identity(),
            edit,
        },
        other => other,
    }
}

/// Levels of one channel are changed without touching another's.
pub proof fn law_channels_are_separate(
    p: FilterParams,
    ch: ToneChannel,
    other: ToneChannel,
    c: LevelsChannel,
)
    requires
        p is Levels,
        ch != other,
    ensures
        levels_of(with_levels(p, ch, c), ch) == c,
        levels_of(with_levels(p, ch, c), other) == levels_of(p, other),
        shown_channel(with_levels(p, ch, c)) == shown_channel(p),
{
}

/// Going to another tab keeps all channels.
pub proof fn law_tabs_keep_channels(p: FilterParams, tab: ToneChannel, ch: ToneChannel)
    ensures
        levels_of(with_tab(p, tab), ch) == levels_of(p, ch),
        curve_of(with_tab(p, tab), ch) == curve_of(p, ch),
        with_tab(with_tab(p, tab), shown_channel(p)) == with_tab(p, shown_channel(p)),
{
}

/// A preset of hue and saturation.
pub struct HslPreset {
    pub name: &'static str,
    pub hue: i32,
    pub saturation: i32,
    pub lightness: i32,
    pub colorize: bool,
}

/// What a preset sets, under its name.
pub struct Shade {
    pub name: Seq<char>,
    pub hue: int,
    pub saturation: int,
    pub lightness: int,
    pub colorize: bool,
}

pub open spec fn shade(name: Seq<char>, hue: int, saturation: int, lightness: int, colorize: bool) -> Shade {
    Shade { name, hue, saturation, lightness, colorize }
}

pub open spec fn shades(v: Seq<HslPreset>) -> Seq<Shade> {
    v.map_values(
        |p: HslPreset|
            shade(
                p.name@,
                p.hue as int,
                p.saturation as int,
                p.lightness as int,
                p.colorize,
            ),
    )
}

/// The presets of hue and saturation, in the order of their list.
pub open spec fn preset_shades() -> Seq<Shade> {
    seq![
        shade("Reset"@, 0, 0, 0, false),
        shade("Grayscale"@, 0, -100_000, 0, false),
        shade("Vivid"@, 0, 40_000, 0, false),
        shade("Faded"@, 0, -35_000, 8_000, false),
        shade("Warm"@, 18_000, 20_000, 0, false),
        shade("Cool"@, -25_000, 15_000, 0, false),
        shade("Sepia tone"@, 30_000, 35_000, 0, true),
        shade("Cyanotype"@, 200_000, 45_000, -5_000, true),
        shade("Magenta"@, 310_000, 50_000, 0, true),
    ]
}

fn hsl(name: &'static str, hue: i32, saturation: i32, lightness: i32, colorize: bool) -> (r: HslPreset)
    ensures
        r == (HslPreset { name, hue, saturation, lightness, colorize }),
{
    HslPreset { name, hue, saturation, lightness, colorize }
}

/// The presets of hue and saturation.
pub fn hsl_presets() -> (r: Vec<HslPreset>)
    ensures
        shades(r@) == preset_shades(),
{
    let list = vec![
        hsl("Reset", 0, 0, 0, false),
        hsl("Grayscale", 0, -100_000, 0, false),
        hsl("Vivid", 0, 40_000, 0, false),
        hsl("Faded", 0, -35_000, 8_000, false),
        hsl("Warm", 18_000, 20_000, 0, false),
        hsl("Cool", -25_000, 15_000, 0, false),
        hsl("Sepia tone", 30_000, 35_000, 0, true),
        hsl("Cyanotype", 200_000, 45_000, -5_000, true),
        hsl("Magenta", 310_000, 50_000, 0, true),
    ];
    assert(shades(list@) =~= preset_shades());
    list
}

/// Takes over a preset. Any other filter stays.
pub fn choose_hsl(p: FilterParams, preset: &HslPreset) -> (r: FilterParams)
    ensures
        r == (if p is HueSaturation {
            FilterParams::HueSaturation {
                hue: preset.hue,
                saturation: preset.saturation,
                lightness: preset.lightness,
                colorize: preset.colorize,
            }
        } else {
            p
        }),
{
    match p {
        FilterParams::HueSaturation { .. } => FilterParams::HueSaturation {
            hue: preset.hue,
            saturation: preset.saturation,
            lightness: preset.lightness,
            colorize: preset.colorize,
        },
        other => other,
    }
}

/// A saturation that colours: from 25 to 100.
pub open spec fn colouring(saturation: i32) -> i32 {
    if saturation < 25_000 {
        25_000
    } else if saturation > 100_000 {
        100_000
    } else {
        saturation
    }
}

/// A hue and saturation filter with colouring switched. Switched on, the hue is
/// brought into one turn, and the saturation to one that colours.
pub open spec fn colorize_toggled(p: FilterParams) -> FilterParams {
    match p {
        FilterParams::HueSaturation { hue, saturation, lightness, colorize } => if colorize {
            FilterParams::HueSaturation { hue, saturation, lightness, colorize: false }
        } else {
            FilterParams::HueSaturation {
                hue: (hue as int % 360_000) as i32,
                saturation: colouring(saturation),
                lightness,
                colorize: true,
            }
        },
        _ => p,
    }
}

/// Switches colouring.
pub fn toggle_colorize(p: FilterParams) -> (r: FilterParams)
    ensures
        r == colorize_toggled(p),
{
    match p {
        FilterParams::HueSaturation { hue, saturation, lightness, colorize } => {
            if colorize {
                return FilterParams::HueSaturation { hue, saturation, lightness, colorize: false };
            }
            FilterParams::HueSaturation {
                hue: within_a_turn(hue),
                saturation: if saturation < 25_000 {
                    25_000
                } else if saturation > 100_000 {
                    100_000
                } else {
                    saturation
                },
                lightness,
                colorize: true,
            }
        },
        other => other,
    }
}

fn within_a_turn(hue: i32) -> (r: i32)
    ensures
        r == hue as int % 360_000,
{
    if hue >= 0 {
        hue % 360_000
    } else {
        let below: i64 = -(hue as i64);
        let rest: i64 = below % 360_000;
        assert(below as int == 360_000 * (below as int / 360_000) + rest);
        if rest == 0 {
            0
        } else {
            (360_000 - rest) as i32
        }
    }
}

/// Switching colouring on lands in the ranges of its sliders, and off again
/// keeps what is there.
pub proof fn law_colorize(p: FilterParams)
    requires
        p matches FilterParams::HueSaturation { colorize, .. } && !colorize,
    ensures
        colorize_toggled(p) matches FilterParams::HueSaturation { hue, saturation, colorize, .. }
            && 0 <= hue < 360_000 && 25_000 <= saturation <= 100_000 && colorize,
        colorize_toggled(colorize_toggled(p)) matches FilterParams::HueSaturation {
            hue: h2,
            saturation: s2,
            lightness: l2,
            colorize: c2,
        } && colorize_toggled(p) == (FilterParams::HueSaturation {
            hue: h2,
            saturation: s2,
            lightness: l2,
            colorize: true,
        }) && !c2,
{
}

} // verus!
