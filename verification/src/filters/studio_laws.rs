//! What the studio does to stacks, sliders, colours and pixels.
use vstd::prelude::*;
use crate::filters::choice::{LevelsChannel, Rgb, ToneChannel, TransferCurve};
use crate::filters::cover::{
    Selection, byte_or_zero, composited, covered, law_mix_between, outline_spill, punched,
    sampled, widest_outline,
};
use crate::filters::eyedrop::{colour_at, replacing};
use crate::filters::flow::{Flow, Task, pace, plain_preview, turn};
use crate::filters::key::StackEntry;
use crate::filters::kind::{StudioFilterKind, StudioVisibility};
use crate::filters::params::FilterParams;
use crate::filters::pixels::{block_mean, block_sum, lod_from, reduced, row_sum};
use crate::filters::presets::FilterPreset;
use crate::filters::range::{SliderSpan, fitted_count, fitted_range};
use crate::filters::render::{reusable, workable, worked_on};
use crate::filters::session::{preset_place, shelved};
use crate::filters::setting::ControlValue;
use crate::filters::studio::{BasePlate, FilterStudioState, kept_prefix, swapped};
use crate::filters::tone::{colorize_toggled, levels_of, preset_shades, shade, shown_channel};
use crate::filters::window::{first_visibility, kind_count, spec_chip_label};
use crate::text::decimal;

verus! {

/// After a filter was taken out, the filter that was selected still is; where it
/// was the one taken out, the next one is, or the last.
pub proof fn law_selection_after_remove(stack: Seq<StackEntry>, s: usize, i: usize)
    requires
        i < stack.len(),
        s < stack.len(),
        stack.len() <= usize::MAX,
    ensures
        ({
            let rest = stack.remove(i as int);
            let now = FilterStudioState::selected_after_remove(Some(s), i, rest.len());
            &&& s != i ==> now is Some && now->0 < rest.len() && rest[now->0 as int]
                == stack[s as int]
            &&& s == i && i + 1 < stack.len() ==> now is Some && rest[now->0 as int] == stack[i + 1]
            &&& s == i && i + 1 == stack.len() && i > 0 ==> now is Some && rest[now->0 as int]
                == stack[i - 1]
            &&& stack.len() == 1 ==> now is None
        }),
        FilterStudioState::selected_after_remove(None, i, stack.remove(i as int).len()) is None,
{
}

/// Two filters that change places are each where the other was; the rest stay.
pub proof fn law_swapped(stack: Seq<StackEntry>, i: int, j: int, k: int)
    requires
        0 <= i < stack.len(),
        0 <= j < stack.len(),
        0 <= k < stack.len(),
    ensures
        swapped(stack, i, j).len() == stack.len(),
        swapped(stack, i, j)[i] == stack[j],
        swapped(stack, i, j)[j] == stack[i],
        k != i && k != j ==> swapped(stack, i, j)[k] == stack[k],
{
}

/// Of the plates those before the change are kept, or none.
pub proof fn law_kept_prefix(cache: Seq<(u64, Vec<u8>)>, n: usize)
    ensures
        kept_prefix(cache, None).len() == 0,
        kept_prefix(cache, Some(n)).is_prefix_of(cache),
        n <= cache.len() ==> kept_prefix(cache, Some(n)).len() == n,
        n > cache.len() ==> kept_prefix(cache, Some(n)) == cache,
{
}

proof fn lemma_preset_place(list: Seq<FilterPreset>, name: Seq<char>)
    ensures
        0 <= preset_place(list, name) <= list.len(),
        preset_place(list, name) < list.len() ==> list[preset_place(list, name)].name@ == name,
        forall|k: int| 0 <= k < preset_place(list, name) ==> (#[trigger] list[k]).name@ != name,
    decreases list.len(),
{
    if list.len() > 0 && list[0].name@ != name {
        let t = list.drop_first();
        lemma_preset_place(t, name);
        assert forall|k: int| 0 <= k < preset_place(list, name) implies (#[trigger] list[k]).name@
            != name by {
            if k > 0 {
                assert(t[k - 1] == list[k]);
            }
        }
    }
}

/// A preset takes the place of the first one of its name, or comes last; the
/// others stay as they are.
pub proof fn law_shelved(list: Seq<FilterPreset>, p: FilterPreset, k: int)
    ensures
        ({
            let at = preset_place(list, p.name@);
            let r = shelved(list, at, p);
            &&& 0 <= at < r.len()
            &&& r[at] == p
            &&& 0 <= k < list.len() && k != at ==> r[k] == list[k]
            &&& at < list.len() ==> r.len() == list.len() && list[at].name@ == p.name@
            &&& at == list.len() ==> r.len() == list.len() + 1
            &&& (forall|j: int| 0 <= j < list.len() ==> (#[trigger] list[j]).name@ != p.name@) ==> at
                == list.len()
        }),
{
    lemma_preset_place(list, p.name@);
}

/// How often a filter is in the stack: once more for each one added, and not for
/// any other.
pub proof fn law_kind_count(stack: Seq<StackEntry>, e: StackEntry, kind: StudioFilterKind)
    ensures
        kind_count(Seq::empty(), kind) == 0,
        e.params.spec_kind() == kind ==> kind_count(stack.push(e), kind) == kind_count(stack, kind)
            + 1,
        e.params.spec_kind() != kind ==> kind_count(stack.push(e), kind) == kind_count(stack, kind),
{
    assert(stack.push(e).drop_last() =~= stack);
}

/// A filter in the stack is ticked, with its number from two on.
pub proof fn law_chip_label(kind: StudioFilterKind, n: usize)
    ensures
        spec_chip_label(kind, 0) == kind.spec_label()@,
        spec_chip_label(kind, 1) == "✓ "@ + kind.spec_label()@,
        n >= 2 ==> spec_chip_label(kind, n) == "✓ "@ + kind.spec_label()@ + " ×"@ + decimal(
            n as nat,
        ),
{
}

/// A single layer with something selected is shown alone at first; anything else
/// among all layers.
pub proof fn law_first_visibility(layers: nat, has_selection: bool)
    ensures
        first_visibility(1, true) is ThisLayer,
        first_visibility(layers, false) is AllLayers,
        layers >= 2 ==> first_visibility(layers, has_selection) is AllLayers,
{
}

/// Clicking through the spans goes from fine to normal to wide and round again.
pub proof fn law_spans()
    ensures
        SliderSpan::Fine.spec_next() is Normal,
        SliderSpan::Normal.spec_next() is Wide,
        SliderSpan::Wide.spec_next() is Fine,
{
}

/// A slider of percents has a range that gets wider from fine to normal to
/// wide, and an angle goes to a quarter, a half and a full turn.
pub proof fn law_spans_widen(hi: int)
    requires
        8_000 < hi <= 250_000,
    ensures
        fitted_range(0, hi, SliderSpan::Normal) == (0int, hi),
        fitted_range(0, hi, SliderSpan::Fine).0 == 0,
        fitted_range(0, hi, SliderSpan::Fine).1 <= hi,
        fitted_range(0, hi, SliderSpan::Wide).0 == 0,
        fitted_range(0, hi, SliderSpan::Wide).1 >= hi,
        fitted_range(-180_000, 180_000, SliderSpan::Fine) == (-90_000int, 90_000int),
        fitted_range(-180_000, 180_000, SliderSpan::Normal) == (-180_000int, 180_000int),
        fitted_range(-180_000, 180_000, SliderSpan::Wide) == (-360_000int, 360_000int),
        fitted_range(0, 360_000, SliderSpan::Fine) == (0int, 180_000int),
        fitted_range(0, 360_000, SliderSpan::Wide) == (0int, 360_000int),
        fitted_range(0, 255_000, SliderSpan::Fine) == (0int, 128_000int),
        fitted_range(0, 255_000, SliderSpan::Wide) == (0int, 255_000int),
        fitted_range(0, 100_000, SliderSpan::Wide) == (0int, 1_000_000int),
        fitted_range(-100_000, 100_000, SliderSpan::Fine) == (-50_000int, 50_000int),
        fitted_range(-100_000, 100_000, SliderSpan::Wide) == (-500_000int, 500_000int),
{
}

/// A count begins at the same number in every span, and reaches half as far when
/// fine and up to four times as far when wide.
pub proof fn law_count_spans(lo: u32, hi: u32)
    requires
        2 * lo + 2 <= hi,
    ensures
        fitted_count(lo, hi, SliderSpan::Normal) == (lo as int, hi as int),
        fitted_count(lo, hi, SliderSpan::Fine) == (lo as int, hi as int / 2),
        hi <= 1024 ==> fitted_count(lo, hi, SliderSpan::Wide) == (lo as int, 4 * hi as int),
        hi > 1024 && hi <= 4096 ==> fitted_count(lo, hi, SliderSpan::Wide) == (lo as int, 4096int),
{
}

/// The eyedropper sets the colour to be replaced and nothing else.
pub proof fn law_replacing(p: FilterParams, c: Rgb)
    ensures
        (p matches FilterParams::ReplaceColor { from, to, tolerance, softness, affect, amount }
            ==> replacing(p, c) == (FilterParams::ReplaceColor {
            from: c,
            to,
            tolerance,
            softness,
            affect,
            amount,
        })),
        !(p is ReplaceColor) ==> replacing(p, c) == p,
{
}

/// A pixel's colour is its first three bytes: red, green and blue.
pub proof fn law_colour_at(before: Seq<u8>, r: u8, g: u8, b: u8, a: u8, i: int)
    requires
        before.len() == 4 * i,
    ensures
        colour_at(before + seq![r, g, b, a], i) == (Rgb { r, g, b }),
{
}

/// Where nothing is covered the picture stays, where all is it is the filtered
/// one, and in between each byte lies between the two.
pub proof fn law_composited(original: Seq<u8>, filtered: Seq<u8>, n: int, cover: Seq<u8>, i: int)
    requires
        n >= 0,
        original.len() == 4 * n,
        filtered.len() == 4 * n,
        cover.len() == n,
        0 <= i < 4 * n,
    ensures
        composited(original, filtered, n, None) == filtered,
        composited(original, filtered, n, Some(cover)).len() == 4 * n,
        cover[i / 4] == 0 ==> composited(original, filtered, n, Some(cover))[i] == original[i],
        cover[i / 4] == 255 ==> composited(original, filtered, n, Some(cover))[i] == filtered[i],
        original[i] <= filtered[i] ==> original[i] <= composited(
            original,
            filtered,
            n,
            Some(cover),
        )[i] <= filtered[i],
        original[i] >= filtered[i] ==> original[i] >= composited(
            original,
            filtered,
            n,
            Some(cover),
        )[i] >= filtered[i],
{
    law_mix_between(original[i], filtered[i], cover[i / 4]);
    assert(byte_or_zero(original, i) == original[i]);
    assert(filtered.take(4 * n) =~= filtered);
}

/// Cutting a picture out by a cover thins the opacity of each pixel and leaves
/// its colours.
pub proof fn law_punched(rgba: Seq<u8>, n: int, cover: Seq<u8>, i: int)
    requires
        n >= 0,
        rgba.len() == 4 * n,
        cover.len() == n,
        0 <= i < 4 * n,
    ensures
        punched(rgba, n, None) == rgba,
        punched(rgba, n, Some(cover)).len() == rgba.len(),
        i % 4 != 3 ==> punched(rgba, n, Some(cover))[i] == rgba[i],
        i % 4 == 3 && cover[i / 4] == 255 ==> punched(rgba, n, Some(cover))[i] == rgba[i],
        i % 4 == 3 && cover[i / 4] == 0 ==> punched(rgba, n, Some(cover))[i] == 0,
        i % 4 == 3 ==> 255 * punched(rgba, n, Some(cover))[i] <= rgba[i] * cover[i / 4] < 255 * (
        punched(rgba, n, Some(cover))[i] + 1),
{
    let (a, c) = (rgba[i] as int, cover[i / 4] as int);
    assert(0 <= a * c <= 255 * 255) by (nonlinear_arith)
        requires
            0 <= a <= 255,
            0 <= c <= 255,
    ;
    assert(c == 255 ==> a * c / 255 == a) by (nonlinear_arith);
    assert(0 <= a * c / 255 <= 255);
}

/// Which pixels a rectangle covers: those whose centres are inside of it, edges
/// at the left and top included. With nothing selected a layer covers as much as
/// it is opaque, and a mask says for itself.
pub proof fn law_covered(
    rgba: Seq<u8>,
    w: int,
    left: int,
    top: int,
    x0: i64,
    y0: i64,
    x1: i64,
    y1: i64,
    mask: Vec<u8>,
    x: int,
    y: int,
)
    requires
        0 <= x < w,
        0 <= y,
        4 * (y * w + x) + 3 < rgba.len(),
    ensures
        ({
            let inside = x0 <= 1000 * (left + x) + 500 && 1000 * (left + x) + 500 < x1 && y0 <= 1000 * (
            top + y) + 500 && 1000 * (top + y) + 500 < y1;
            let area = Selection::Area { x0, y0, x1, y1 };
            &&& covered(rgba, w, left, top, area, x, y) == (if inside {
                255u8
            } else {
                0
            })
            &&& covered(rgba, w, left, top, Selection::Nothing, x, y) == rgba[4 * (y * w + x) + 3]
            &&& covered(rgba, w, left, top, Selection::Mask(mask), x, y) == mask@[y * w + x]
            &&& sampled(left, top, 1, w, area, x, y) == (if inside {
                255u8
            } else {
                0
            })
            &&& sampled(left, top, 1, w, Selection::Nothing, x, y) == 255
        }),
{
    assert(x * 1 == x && y * 1 == y);
    assert(y * w + x >= 0) by (nonlinear_arith)
        requires
            0 <= x < w,
            0 <= y,
    ;
}

/// The widest outline is at least as wide as each outline that goes outwards,
/// and as wide as one of them; one that goes inwards does not count.
pub proof fn law_widest_outline(stack: Seq<StackEntry>)
    ensures
        widest_outline(stack) >= 0,
        forall|i: int|
            0 <= i < stack.len() ==> ((#[trigger] stack[i]).params matches FilterParams::Outline {
                thickness,
                mode,
                ..
            } ==> (mode is Outer || mode is Center) ==> thickness <= widest_outline(stack)),
        widest_outline(stack) > 0 ==> exists|i: int|
            0 <= i < stack.len() && ((#[trigger] stack[i]).params matches FilterParams::Outline {
                thickness,
                mode,
                ..
            } && (mode is Outer || mode is Center) && thickness == widest_outline(stack)),
    decreases stack.len(),
{
    if stack.len() > 0 {
        let t = stack.drop_last();
        law_widest_outline(t);
        let w = widest_outline(stack);
        assert forall|i: int| 0 <= i < stack.len() implies ((
        #[trigger] stack[i]).params matches FilterParams::Outline { thickness, mode, .. } ==> (
        mode is Outer || mode is Center) ==> thickness <= w) by {
            if i < t.len() {
                assert(t[i] == stack[i]);
            }
        }
        if w > 0 {
            if w == widest_outline(t) {
                let i = choose|i: int|
                    0 <= i < t.len() && ((#[trigger] t[i]).params matches FilterParams::Outline {
                        thickness,
                        mode,
                        ..
                    } && (mode is Outer || mode is Center) && thickness == widest_outline(t));
                assert(t[i] == stack[i]);
            } else {
                assert(stack[stack.len() - 1] == stack.last());
            }
        }
    }
}

/// A picture is made larger around an outline by as many whole pixels as it is
/// wide and one more, up to 64; not for one of less than half a pixel.
pub proof fn law_outline_spill(stack: Seq<StackEntry>)
    ensures
        0 <= outline_spill(stack) <= 64,
        widest_outline(stack) < 500 ==> outline_spill(stack) == 0,
        500 <= widest_outline(stack) <= 63_000 ==> 1000 * (outline_spill(stack) - 1)
            >= widest_outline(stack) > 1000 * (outline_spill(stack) - 2),
        widest_outline(stack) > 63_000 ==> outline_spill(stack) == 64,
{
}

/// A preview is made smaller by the least power of two that makes it fit, or by
/// 32; a side that is made smaller still holds all of the picture.
pub proof fn law_made_smaller(side: int, n: u32, factor: u32)
    requires
        1 <= side,
        1 <= n,
        1 <= factor,
    ensures
        side <= 1600 ==> lod_from(side, 1) == 1,
        1600 < side <= 3200 ==> lod_from(side, 1) == 2,
        3200 < side <= 6400 ==> lod_from(side, 1) == 4,
        side > 25_600 ==> lod_from(side, 1) == 32,
        reduced(n, factor) * factor >= n,
        (reduced(n, factor) - 1) * factor < n,
        reduced(n, 1) == n,
{
    reveal_with_fuel(lod_from, 7);
    let (a, f) = (n as int, factor as int);
    let q = (a + f - 1) / f;
    assert(q >= 1 && q * f >= a && (q - 1) * f < a) by (nonlinear_arith)
        requires
            q == (a + f - 1) / f,
            f >= 1,
            a >= 1,
    ;
}

proof fn lemma_row(src: Seq<u8>, w: int, y: int, x0: int, x1: int, v: u8)
    requires
        0 <= x0 <= x1,
        forall|x: int| x0 <= x < x1 ==> #[trigger] src[y * w + x] == v,
    ensures
        row_sum(src, w, y, x0, x1) == v * (x1 - x0),
    decreases x1 - x0,
{
    if x1 > x0 {
        lemma_row(src, w, y, x0, x1 - 1, v);
        let x = x1 - 1;
        assert(src[y * w + x] == v);
        assert(y * w + x1 - 1 == y * w + x);
        assert(v * (x1 - 1 - x0) + v == v * (x1 - x0)) by (nonlinear_arith);
    } else {
        assert(v * 0 == 0);
    }
}

proof fn lemma_block(src: Seq<u8>, w: int, x0: int, x1: int, y0: int, y1: int, v: u8)
    requires
        0 <= x0 <= x1,
        0 <= y0 <= y1,
        forall|x: int, y: int| x0 <= x < x1 && y0 <= y < y1 ==> #[trigger] src[y * w + x] == v,
    ensures
        block_sum(src, w, x0, x1, y0, y1) == v * ((x1 - x0) * (y1 - y0)),
    decreases y1 - y0,
{
    if y1 > y0 {
        lemma_block(src, w, x0, x1, y0, y1 - 1, v);
        assert forall|x: int| x0 <= x < x1 implies #[trigger] src[(y1 - 1) * w + x] == v by {
            let y = y1 - 1;
            assert(src[y * w + x] == v);
        }
        lemma_row(src, w, y1 - 1, x0, x1, v);
        assert(v * ((x1 - x0) * (y1 - 1 - y0)) + v * (x1 - x0) == v * ((x1 - x0) * (y1 - y0)))
            by (nonlinear_arith);
    } else {
        assert(v * ((x1 - x0) * 0) == 0) by (nonlinear_arith);
    }
}

/// A block of one value has that value as its mean, at the edges too.
pub proof fn law_plain_block(src: Seq<u8>, w: int, h: int, factor: int, x: int, y: int, v: u8)
    requires
        1 <= factor,
        0 <= x * factor < w,
        0 <= y * factor < h,
        forall|i: int, j: int|
            x * factor <= i < (x + 1) * factor && i < w && y * factor <= j < (y + 1) * factor && j < h
                ==> #[trigger] src[j * w + i] == v,
    ensures
        block_mean(src, w, h, factor, x, y) == v,
{
    let x0 = x * factor;
    let y0 = y * factor;
    assert((x + 1) * factor == x0 + factor && (y + 1) * factor == y0 + factor)
        by (nonlinear_arith)
        requires
            x0 == x * factor,
            y0 == y * factor,
    ;
    let x1 = if x0 + factor < w {
        x0 + factor
    } else {
        w
    };
    let y1 = if y0 + factor < h {
        y0 + factor
    } else {
        h
    };
    lemma_block(src, w, x0, x1, y0, y1, v);
    let n = (x1 - x0) * (y1 - y0);
    assert(n >= 1) by (nonlinear_arith)
        requires
            n == (x1 - x0) * (y1 - y0),
            x1 - x0 >= 1,
            y1 - y0 >= 1,
    ;
    assert(v * n / n == v) by (nonlinear_arith)
        requires
            n >= 1,
    ;
}

/// With no filter the layer is shown as it is, alone or among the others.
pub proof fn law_plain_preview(base: BasePlate)
    requires
        base.cover is None,
    ensures
        plain_preview(base, StudioVisibility::ThisLayer) == base.original@,
        plain_preview(base, StudioVisibility::AllLayers) == base.context@,
{
}

/// While nothing changed and nothing is at work, nothing happens; soon after a
/// change nothing is begun yet.
pub proof fn law_quiet_turn(f: Flow, task: Task, now: u64, until: u64)
    requires
        f.rgba is Some,
    ensures
        task.key == f.key && f.inflight is None ==> {
            let t = turn(f, task, None, false, now, until);
            t.flow == f && !t.starts && t.wait is None
        },
        task.key != f.key && now < until ==> {
            let t = turn(f, task, None, false, now, until);
            t.flow == f && !t.starts && t.wait is Some
        },
        task.key != f.key && now >= until && task.base is Some && task.filters > 0 && f.inflight
            != Some(task.gen) ==> turn(f, task, None, false, now, until).starts,
{
}

/// The next look comes no sooner than after 16 milliseconds, no later than after
/// 80, and in between when the waiting ends.
pub proof fn law_pace(until: u64, now: u64)
    ensures
        16 <= pace(until, now) <= 80,
        now >= until ==> pace(until, now) == 16,
        16 <= until - now <= 80 ==> pace(until, now) == until - now,
        until - now > 80 ==> pace(until, now) == 80,
{
}

/// The sliders of levels set the points of the channel that is shown, and of no
/// other.
pub proof fn law_set_levels(p: FilterParams, x: i32, other: ToneChannel)
    requires
        p is Levels,
    ensures
        ({
            let ch = shown_channel(p);
            let c = levels_of(p, ch);
            let b = p.labelled("Black"@, ControlValue::Slider(x));
            let g = p.labelled("Gamma"@, ControlValue::Slider(x));
            let w = p.labelled("White"@, ControlValue::Slider(x));
            &&& levels_of(b, ch) == (LevelsChannel { black: x, mid: c.mid, white: c.white })
            &&& levels_of(g, ch) == (LevelsChannel { black: c.black, mid: x, white: c.white })
            &&& levels_of(w, ch) == (LevelsChannel { black: c.black, mid: c.mid, white: x })
            &&& other != ch ==> levels_of(b, other) == levels_of(p, other) && levels_of(g, other)
                == levels_of(p, other) && levels_of(w, other) == levels_of(p, other)
            &&& shown_channel(b) == ch && shown_channel(g) == ch && shown_channel(w) == ch
        }),
{
    reveal_strlit("Black");
    reveal_strlit("Gamma");
    reveal_strlit("White");
    assert("Black"@[0] == 'B' && "Gamma"@[0] == 'G' && "White"@[0] == 'W');
}

/// The sliders of hue and saturation set what they name; the switch colours.
pub proof fn law_set_hue(hue: i32, saturation: i32, lightness: i32, colorize: bool, x: i32)
    ensures
        ({
            let p = FilterParams::HueSaturation { hue, saturation, lightness, colorize };
            &&& p.labelled("Hue"@, ControlValue::Slider(x)) == (FilterParams::HueSaturation {
                hue: x,
                saturation,
                lightness,
                colorize,
            })
            &&& p.labelled("Saturation"@, ControlValue::Slider(x)) == (FilterParams::HueSaturation {
                hue,
                saturation: x,
                lightness,
                colorize,
            })
            &&& p.labelled("Lightness"@, ControlValue::Slider(x)) == (FilterParams::HueSaturation {
                hue,
                saturation,
                lightness: x,
                colorize,
            })
            &&& p.labelled("Colorize"@, ControlValue::Switch(colorize)) == p
            &&& p.labelled("Colorize"@, ControlValue::Switch(!colorize)) == colorize_toggled(p)
        }),
{
    reveal_strlit("Hue");
    reveal_strlit("Saturation");
    reveal_strlit("Lightness");
    reveal_strlit("Colorize");
    assert("Hue"@.len() == 3 && "Saturation"@.len() == 10 && "Lightness"@.len() == 9);
    assert("Colorize"@.len() == 8);
}

/// Two settings are the same where all of their values are; that of a filter
/// without lists is plain equality, and nothing is the same as a setting of
/// another filter.
pub proof fn law_same(p: FilterParams, q: FilterParams)
    ensures
        p.same(p),
        p.same(q) == q.same(p),
        !(p is Curves) && !(p is ImageOverlay) ==> (p.same(q) <==> p == q),
        p.same(q) ==> p.spec_kind() == q.spec_kind(),
        p.same(q) ==> (p matches FilterParams::Curves { rgb, red, green, blue, edit } ==> q matches FilterParams::Curves {
            rgb: rgb2,
            red: red2,
            green: green2,
            blue: blue2,
            edit: edit2,
        } && rgb.points@ == rgb2.points@ && red.points@ == red2.points@ && green.points@
            == green2.points@ && blue.points@ == blue2.points@ && edit == edit2),
{
}

/// Every filter runs, but for an overlay without its picture.
pub proof fn law_runs(p: FilterParams)
    ensures
        !(p is ImageOverlay) ==> p.spec_runs(),
        (p matches FilterParams::ImageOverlay { rgba, .. } ==> p.spec_runs() == (rgba is Some)),
{
}

/// The shades that come with hue and saturation do what they are called.
pub proof fn law_shades()
    ensures
        preset_shades().len() == 9,
        preset_shades()[0] == shade("Reset"@, 0, 0, 0, false),
        preset_shades()[1] == shade("Grayscale"@, 0, -100_000, 0, false),
        preset_shades()[2].name == "Vivid"@ && preset_shades()[2].saturation > 0,
        preset_shades()[3].name == "Faded"@ && preset_shades()[3].saturation < 0
            && preset_shades()[3].lightness > 0,
        preset_shades()[4].name == "Warm"@ && 0 < preset_shades()[4].hue < 60_000,
        preset_shades()[5].name == "Cool"@ && preset_shades()[5].hue < 0,
        preset_shades()[6].name == "Sepia tone"@ && preset_shades()[6].colorize,
        preset_shades()[7].name == "Cyanotype"@ && preset_shades()[7].colorize,
        preset_shades()[8].name == "Magenta"@ && preset_shades()[8].colorize,
        forall|i: int| 0 <= i < 6 ==> !(#[trigger] preset_shades()[i]).colorize,
{
}

/// A curve that changes nothing goes from corner to corner.
pub proof fn law_identity_curve()
    ensures
        TransferCurve::identity_points() == seq![(0i32, 0i32), (1000i32, 1000i32)],
{
}

/// A plate is used again only where it was made under the same key and is of the
/// same size.
pub proof fn law_reusable(cache: Seq<(u64, Vec<u8>)>, i: int, key: u64, bytes: int)
    requires
        0 <= i,
    ensures
        reusable(cache, i, key, bytes) ==> i < cache.len() && cache[i].0 == key && cache[i].1@.len()
            == bytes,
        i >= cache.len() ==> !reusable(cache, i, key, bytes),
        i < cache.len() && cache[i].0 != key ==> !reusable(cache, i, key, bytes),
        i < cache.len() && cache[i].1@.len() != bytes ==> !reusable(cache, i, key, bytes),
{
}

/// Filters work on layers that are there and are no folders.
pub proof fn law_worked_on(targets: Seq<usize>, folders: Seq<bool>, t: usize)
    ensures
        workable(folders, t) == (t < folders.len() && !folders[t as int]),
        (forall|i: int| 0 <= i < targets.len() ==> workable(folders, #[trigger] targets[i]))
            ==> worked_on(targets, folders) == targets,
    decreases targets.len(),
{
    reveal(Seq::filter);
    if targets.len() > 0 {
        let rest = targets.drop_last();
        if forall|i: int| 0 <= i < targets.len() ==> workable(folders, #[trigger] targets[i]) {
            assert forall|i: int| 0 <= i < rest.len() implies workable(folders, #[trigger] rest[i]) by {
                assert(rest[i] == targets[i]);
            }
            assert(workable(folders, targets[targets.len() - 1]));
        }
        law_worked_on(rest, folders, t);
        assert(rest.push(targets.last()) =~= targets);
    }
}

/// Where the worker is gone without an answer, the work is begun anew.
pub proof fn law_worker_gone(f: Flow, task: Task, now: u64, until: u64)
    requires
        task.base is Some,
        task.filters > 0,
    ensures
        turn(f, task, None, true, now, until).starts,
        turn(f, task, None, true, now, until).flow.inflight == Some(task.gen),
        turn(f, task, None, true, now, until).flow.rgba == f.rgba,
{
}

} // verus!
