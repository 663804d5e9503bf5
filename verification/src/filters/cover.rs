//! Selections around a filter stack: where filtered pixels show, and how far
//! an outline may spill.
use vstd::prelude::*;
use crate::filters::choice::OutlineMode;
use crate::filters::key::StackEntry;
use crate::filters::params::FilterParams;

verus! {

/// A filtered value laid over the original one by coverage.
pub open spec fn mixed(original: u8, filtered: u8, cover: u8) -> int {
    (filtered * cover + original * (255 - cover)) / 255
}

fn mix(original: u8, filtered: u8, cover: u8) -> (r: u8)
    ensures
        r == mixed(original, filtered, cover),
{
    let f: u32 = filtered as u32;
    let o: u32 = original as u32;
    let c: u32 = cover as u32;
    proof {
        assert(0 <= f * c <= 255 * 255) by (nonlinear_arith)
            requires
                f <= 255,
                c <= 255,
        ;
        assert(0 <= o * (255 - c) <= 255 * 255) by (nonlinear_arith)
            requires
                o <= 255,
                c <= 255,
        ;
        law_mix_between(original, filtered, cover);
    }
    ((f * c + o * (255 - c)) / 255) as u8
}

/// Coverage none keeps the original, full coverage gives the filtered value,
/// and any other coverage gives one between the two.
pub proof fn law_mix_between(original: u8, filtered: u8, cover: u8)
    ensures
        cover == 0 ==> mixed(original, filtered, cover) == original,
        cover == 255 ==> mixed(original, filtered, cover) == filtered,
        original <= filtered ==> original <= mixed(original, filtered, cover) <= filtered,
        filtered <= original ==> filtered <= mixed(original, filtered, cover) <= original,
{
    let o = original as int;
    let f = filtered as int;
    let c = cover as int;
    let t = f * c + o * (255 - c);
    assert(cover == 0 ==> t == 255 * o) by (nonlinear_arith)
        requires
            t == f * c + o * (255 - c),
            c == cover,
    ;
    assert(cover == 255 ==> t == 255 * f) by (nonlinear_arith)
        requires
            t == f * c + o * (255 - c),
            c == cover,
    ;
    if o <= f {
        assert(255 * o <= t <= 255 * f) by (nonlinear_arith)
            requires
                t == f * c + o * (255 - c),
                0 <= c <= 255,
                o <= f,
        ;
    } else {
        assert(255 * f <= t <= 255 * o) by (nonlinear_arith)
            requires
                t == f * c + o * (255 - c),
                0 <= c <= 255,
                f <= o,
        ;
    }
}

/// The byte at `i`, or 0 past the end.
pub open spec fn byte_or_zero(s: Seq<u8>, i: int) -> u8 {
    if 0 <= i < s.len() {
        s[i]
    } else {
        0
    }
}

fn prefix(s: &Vec<u8>, n: usize) -> (r: Vec<u8>)
    requires
        n <= s.len(),
    ensures
        r@ == s@.take(n as int),
{
    let mut out: Vec<u8> = Vec::new();
    let mut i: usize = 0;
    while i < n
        invariant
            i <= n <= s.len(),
            out@ == s@.take(i as int),
        decreases n - i,
    {
        out.push(s[i]);
        i += 1;
        assert(out@ =~= s@.take(i as int));
    }
    out
}

/// The preview of a filtered layer of `n` pixels: without a selection the
/// filtered pixels, within one mixed by its coverage. A filtered plate that is
/// too short is not used.
pub open spec fn composited(
    original: Seq<u8>,
    filtered: Seq<u8>,
    n: int,
    cover: Option<Seq<u8>>,
) -> Seq<u8> {
    if filtered.len() < 4 * n {
        if original.len() < 4 * n {
            original
        } else {
            original.take(4 * n)
        }
    } else {
        match cover {
            None => filtered.take(4 * n),
            Some(c) => Seq::new(
                (4 * n) as nat,
                |i: int| mixed(byte_or_zero(original, i), filtered[i], c[i / 4]) as u8,
            ),
        }
    }
}

pub open spec fn opt_view(c: Option<Vec<u8>>) -> Option<Seq<u8>> {
    match c {
        Some(v) => Some(v@),
        None => None,
    }
}

pub fn composite_filtered_preview(
    original: &Vec<u8>,
    filtered: &Vec<u8>,
    n: usize,
    cover: &Option<Vec<u8>>,
) -> (r: Vec<u8>)
    requires
        4 * n <= usize::MAX,
        cover matches Some(c) ==> c.len() >= n,
    ensures
        r@ == composited(original@, filtered@, n as int, opt_view(*cover)),
{
    let need: usize = 4 * n;
    if filtered.len() < need {
        let k: usize = if original.len() < need {
            original.len()
        } else {
            need
        };
        let r = prefix(original, k);
        assert(original@.take(original@.len() as int) =~= original@);
        return r;
    }
    match cover {
        None => prefix(filtered, need),
        Some(c) => {
            let ghost target = composited(original@, filtered@, n as int, Some(c@));
            let mut out: Vec<u8> = Vec::new();
            let mut i: usize = 0;
            while i < need
                invariant
                    i <= need,
                    need == 4 * n,
                    need <= filtered.len(),
                    n <= c.len(),
                    target == composited(original@, filtered@, n as int, Some(c@)),
                    target.len() == need,
                    out@ == target.take(i as int),
                decreases need - i,
            {
                let o: u8 = if i < original.len() {
                    original[i]
                } else {
                    0
                };
                proof {
                    law_mix_between(o, filtered@[i as int], c@[i as int / 4]);
                }
                out.push(mix(o, filtered[i], c[i / 4]));
                i += 1;
                assert(out@ =~= target.take(i as int));
            }
            assert(target.take(need as int) =~= target);
            out
        },
    }
}

/// A picture of `n` pixels with its alpha scaled by a selection's coverage.
pub open spec fn punched(rgba: Seq<u8>, n: int, cover: Option<Seq<u8>>) -> Seq<u8> {
    match cover {
        Some(c) => {
            if rgba.len() < 4 * n {
                rgba
            } else {
                Seq::new(
                    rgba.len(),
                    |i: int|
                        if i < 4 * n && i % 4 == 3 {
                            (rgba[i] * c[i / 4] / 255) as u8
                        } else {
                            rgba[i]
                        },
                )
            }
        },
        None => rgba,
    }
}

/// Fades a preview out beyond the selection.
pub fn punch_selection_alpha(rgba: Vec<u8>, n: usize, cover: &Option<Vec<u8>>) -> (r: Vec<u8>)
    requires
        4 * n <= usize::MAX,
        cover matches Some(c) ==> c.len() >= n,
    ensures
        r@ == punched(rgba@, n as int, opt_view(*cover)),
{
    let mut out = rgba;
    match cover {
        None => out,
        Some(c) => {
            if out.len() < 4 * n {
                return out;
            }
            let ghost start = rgba@;
            let mut i: usize = 0;
            while i < n
                invariant
                    i <= n <= c.len(),
                    4 * n <= usize::MAX,
                    4 * n <= out.len(),
                    out@.len() == start.len(),
                    forall|j: int|
                        0 <= j < start.len() ==> #[trigger] out@[j] == (if j < 4 * i && j % 4 == 3 {
                            (start[j] * c@[j / 4] / 255) as u8
                        } else {
                            start[j]
                        }),
                decreases n - i,
            {
                let k: usize = 4 * i + 3;
                let a: u32 = out[k] as u32;
                let m: u32 = c[i] as u32;
                assert(0 <= a * m <= 255 * 255) by (nonlinear_arith)
                    requires
                        a <= 255,
                        m <= 255,
                ;
                out.set(k, (a * m / 255) as u8);
                i += 1;
            }
            assert(out@ =~= punched(start, n as int, Some(c@)));
            out
        },
    }
}

/// What limits filters to a part of the picture.
pub enum Selection {
    /// Nothing is selected.
    Nothing,
    /// A rectangle, in thousandths of a pixel.
    Area { x0: i64, y0: i64, x1: i64, y1: i64 },
    /// The coverage of each pixel of the region.
    Mask(Vec<u8>),
}

/// Whether the centre of a pixel is in the rectangle.
pub open spec fn centre_inside(dx: int, dy: int, x0: i64, y0: i64, x1: i64, y1: i64) -> bool {
    &&& x0 <= 1000 * dx + 500 < x1
    &&& y0 <= 1000 * dy + 500 < y1
}

/// The coverage of the pixel at (x, y) of a region that starts at (left, top).
/// Without a selection the layer's own alpha is its silhouette.
pub open spec fn covered(
    rgba: Seq<u8>,
    w: int,
    left: int,
    top: int,
    sel: Selection,
    x: int,
    y: int,
) -> u8 {
    match sel {
        Selection::Nothing => byte_or_zero(rgba, 4 * (y * w + x) + 3),
        Selection::Area { x0, y0, x1, y1 } => {
            if centre_inside(left + x, top + y, x0, y0, x1, y1) {
                255
            } else {
                0
            }
        },
        Selection::Mask(samples) => samples@[y * w + x],
    }
}

/// The coverage of every pixel of a region.
pub fn bake_selection_coverage(
    rgba: &Vec<u8>,
    w: u32,
    h: u32,
    left: u32,
    top: u32,
    sel: &Selection,
) -> (r: Vec<u8>)
    requires
        4 * (w * h) + 3 <= usize::MAX,
        sel matches Selection::Mask(samples) ==> samples.len() >= w * h,
    ensures
        r@.len() == w * h,
        forall|x: int, y: int|
            0 <= x < w && 0 <= y < h ==> #[trigger] r@[y * w + x] == covered(
                rgba@,
                w as int,
                left as int,
                top as int,
                *sel,
                x,
                y,
            ),
{
    let mut out: Vec<u8> = Vec::new();
    let mut y: u32 = 0;
    assert(0 * w == 0) by (nonlinear_arith);
    while y < h
        invariant
            y <= h,
            4 * (w * h) + 3 <= usize::MAX,
            *sel matches Selection::Mask(samples) ==> samples.len() >= w * h,
            out@.len() == y * w,
            forall|i: int, j: int|
                0 <= i < w && 0 <= j < y ==> #[trigger] out@[j * w + i] == covered(
                    rgba@,
                    w as int,
                    left as int,
                    top as int,
                    *sel,
                    i,
                    j,
                ),
        decreases h - y,
    {
        assert(y * w + w <= w * h) by (nonlinear_arith)
            requires
                y < h,
                0 <= w,
        ;
        assert(y * w >= 0) by (nonlinear_arith)
            requires
                0 <= y,
                0 <= w,
        ;
        let mut x: u32 = 0;
        while x < w
            invariant
                x <= w,
                y < h,
                4 * (w * h) + 3 <= usize::MAX,
                *sel matches Selection::Mask(samples) ==> samples.len() >= w * h,
                y * w + w <= w * h,
                y * w >= 0,
                out@.len() == y * w + x,
                forall|i: int, j: int|
                    0 <= i < w && 0 <= j < y ==> #[trigger] out@[j * w + i] == covered(
                        rgba@,
                        w as int,
                        left as int,
                        top as int,
                        *sel,
                        i,
                        j,
                    ),
                forall|i: int|
                    0 <= i < x ==> #[trigger] out@[y * w + i] == covered(
                        rgba@,
                        w as int,
                        left as int,
                        top as int,
                        *sel,
                        i,
                        y as int,
                    ),
            decreases w - x,
        {
            let at: usize = out.len();
            let ghost before = out@;
            let c: u8 = match sel {
                Selection::Nothing => {
                    if 4 * at + 3 < rgba.len() {
                        rgba[4 * at + 3]
                    } else {
                        0
                    }
                },
                Selection::Area { x0, y0, x1, y1 } => {
                    let px: i64 = 1000 * (left as i64 + x as i64) + 500;
                    let py: i64 = 1000 * (top as i64 + y as i64) + 500;
                    if *x0 <= px && px < *x1 && *y0 <= py && py < *y1 {
                        255
                    } else {
                        0
                    }
                },
                Selection::Mask(samples) => samples[at],
            };
            out.push(c);
            assert forall|i: int, j: int| 0 <= i < w && 0 <= j < y implies #[trigger] out@[j * w + i]
                == covered(rgba@, w as int, left as int, top as int, *sel, i, j) by {
                assert(0 <= j * w && j * w + i < y * w) by (nonlinear_arith)
                    requires
                        0 <= i < w,
                        0 <= j < y,
                ;
                assert(out@[j * w + i] == before[j * w + i]);
            }
            assert forall|i: int| 0 <= i < x + 1 implies #[trigger] out@[y * w + i] == covered(
                rgba@,
                w as int,
                left as int,
                top as int,
                *sel,
                i,
                y as int,
            ) by {
                if i < x {
                    assert(out@[y * w + i] == before[y * w + i]);
                }
            }
            x += 1;
        }
        assert(y * w + w == (y + 1) * w) by (nonlinear_arith);
        assert forall|i: int, j: int| 0 <= i < w && 0 <= j < y + 1 implies #[trigger] out@[j * w + i]
            == covered(rgba@, w as int, left as int, top as int, *sel, i, j) by {
            if j == y {
                assert(out@[y * w + i] == covered(
                    rgba@,
                    w as int,
                    left as int,
                    top as int,
                    *sel,
                    i,
                    y as int,
                ));
            }
        }
        y += 1;
    }
    assert(h * w == w * h) by (nonlinear_arith);
    out
}

/// How many pixels of a region a pixel of its preview stands for: at least one.
pub open spec fn lod_step(lod: u32) -> int {
    if lod == 0 {
        1
    } else {
        lod as int
    }
}

/// The coverage of the pixel at (x, y) of a reduced preview of a region that is
/// `full` pixels wide and starts at (left, top): that of the pixel of the region
/// at its upper left corner.
pub open spec fn sampled(
    left: int,
    top: int,
    step: int,
    full: int,
    sel: Selection,
    x: int,
    y: int,
) -> u8 {
    match sel {
        Selection::Nothing => 255,
        Selection::Area { x0, y0, x1, y1 } => {
            if centre_inside(left + x * step, top + y * step, x0, y0, x1, y1) {
                255
            } else {
                0
            }
        },
        Selection::Mask(samples) => byte_or_zero(samples@, y * step * full + x * step),
    }
}

/// The coverage of every pixel of a reduced preview, row by row; none where
/// nothing is selected.
pub fn sampled_coverage(
    w: u32,
    h: u32,
    left: u32,
    top: u32,
    lod: u32,
    full: u32,
    sel: &Selection,
) -> (r: Option<Vec<u8>>)
    requires
        w * h <= usize::MAX,
    ensures
        r is None <==> *sel is Nothing,
        r matches Some(c) ==> c@ == Seq::new(
            (w * h) as nat,
            |i: int|
                sampled(
                    left as int,
                    top as int,
                    lod_step(lod),
                    full as int,
                    *sel,
                    i % (w as int),
                    i / (w as int),
                ),
        ),
{
    if let Selection::Nothing = sel {
        return None;
    }
    let step: i128 = if lod == 0 {
        1
    } else {
        lod as i128
    };
    proof {
        assert(w * h <= 0xffff_ffff * 0xffff_ffff) by (nonlinear_arith)
            requires
                0 <= w <= 0xffff_ffff,
                0 <= h <= 0xffff_ffff,
        ;
    }
    let n: u64 = w as u64 * h as u64;
    let mut out: Vec<u8> = Vec::new();
    let mut i: u64 = 0;
    while i < n
        invariant
            i <= n,
            n == w * h,
            n <= usize::MAX,
            step == lod_step(lod),
            1 <= step <= 0xffff_ffff,
            out@.len() == i,
            forall|k: int|
                0 <= k < i ==> #[trigger] out@[k] == sampled(
                    left as int,
                    top as int,
                    lod_step(lod),
                    full as int,
                    *sel,
                    k % (w as int),
                    k / (w as int),
                ),
        decreases n - i,
    {
        assert(w > 0) by (nonlinear_arith)
            requires
                w * h > 0,
                w >= 0,
        ;
        let x: i128 = (i % w as u64) as i128;
        let y: i128 = (i / w as u64) as i128;
        proof {
            assert(y <= 0xffff_ffff) by (nonlinear_arith)
                requires
                    y == i / (w as u64),
                    i < w * h,
                    0 < w,
                    h <= 0xffff_ffff,
            ;
            assert(0 <= x * step <= 0xffff_ffff * 0xffff_ffff) by (nonlinear_arith)
                requires
                    0 <= x <= 0xffff_ffff,
                    1 <= step <= 0xffff_ffff,
            ;
            assert(0 <= y * step <= 0xffff_ffff * 0xffff_ffff) by (nonlinear_arith)
                requires
                    0 <= y <= 0xffff_ffff,
                    1 <= step <= 0xffff_ffff,
            ;
        }
        let sx: i128 = x * step;
        let sy: i128 = y * step;
        let c: u8 = match sel {
            Selection::Nothing => 255,
            Selection::Area { x0, y0, x1, y1 } => {
                let px: i128 = 1000 * (left as i128 + sx) + 500;
                let py: i128 = 1000 * (top as i128 + sy) + 500;
                if *x0 as i128 <= px && px < *x1 as i128 && *y0 as i128 <= py && py < *y1 as i128 {
                    255
                } else {
                    0
                }
            },
            Selection::Mask(samples) => {
                assert(0 <= sy * full <= 0xffff_ffff * 0xffff_ffff * 0xffff_ffff) by (nonlinear_arith)
                    requires
                        0 <= sy <= 0xffff_ffff * 0xffff_ffff,
                        0 <= full <= 0xffff_ffff,
                ;
                let at: i128 = sy * full as i128 + sx;
                if at < samples.len() as i128 {
                    samples[at as usize]
                } else {
                    0
                }
            },
        };
        out.push(c);
        i += 1;
    }
    proof {
        assert(out@ =~= Seq::new(
            (w * h) as nat,
            |i: int|
                sampled(
                    left as int,
                    top as int,
                    lod_step(lod),
                    full as int,
                    *sel,
                    i % (w as int),
                    i / (w as int),
                ),
        ));
    }
    Some(out)
}

/// The thickest outline of a stack that draws beyond its silhouette; 0 without
/// one.
pub open spec fn widest_outline(stack: Seq<StackEntry>) -> i32
    decreases stack.len(),
{
    if stack.len() == 0 {
        0
    } else {
        let rest = widest_outline(stack.drop_last());
        match stack.last().params {
            FilterParams::Outline { thickness, mode, .. } => {
                if (mode is Outer || mode is Center) && thickness > rest {
                    thickness
                } else {
                    rest
                }
            },
            _ => rest,
        }
    }
}

/// How many pixels an outline may spill past a selection: its thickness rounded
/// up and one more, at most 64; none below half a pixel.
pub open spec fn outline_spill(stack: Seq<StackEntry>) -> int {
    let e = widest_outline(stack);
    if e < 500 {
        0
    } else if (e + 999) / 1000 + 1 > 64 {
        64
    } else {
        (e + 999) / 1000 + 1
    }
}

pub fn stack_outline_expand(stack: &Vec<StackEntry>) -> (r: u32)
    ensures
        r == outline_spill(stack@),
        r <= 64,
{
    let n: usize = stack.len();
    let mut e: i32 = 0;
    let mut i: usize = 0;
    while i < n
        invariant
            i <= n,
            n == stack.len(),
            e == widest_outline(stack@.take(i as int)),
        decreases n - i,
    {
        match &stack[i].params {
            FilterParams::Outline { thickness, mode, .. } => {
                if matches!(*mode, OutlineMode::Outer | OutlineMode::Center) && *thickness > e {
                    e = *thickness;
                }
            },
            _ => {},
        }
        i += 1;
        assert(stack@.take(i as int).drop_last() =~= stack@.take(i - 1));
        assert(stack@.take(i as int).last() == stack@[i - 1]);
    }
    assert(stack@.take(n as int) =~= stack@);
    if e < 500 {
        0
    } else {
        let up: i64 = (e as i64 + 999) / 1000 + 1;
        if up > 64 {
            64
        } else {
            up as u32
        }
    }
}

/// How far applying a stack has come, in percent: from 12 to 92 over all
/// filters on all layers.
pub fn apply_progress(layer: u32, filter: u32, filters: u32, layers: u32) -> (r: u8)
    requires
        layer * filters + filter <= 0x100_0000,
        filters * layers <= 0x100_0000,
    ensures
        r == ({
            let all = if layers < 1 {
                filters as int
            } else {
                filters * layers
            };
            let n = if all < 1 {
                1
            } else {
                all
            };
            let pct = 12 + (layer * filters + filter) * 80 / n;
            if pct > 92 {
                92
            } else {
                pct
            }
        }),
{
    assert(0 <= layer * filters) by (nonlinear_arith)
        requires
            0 <= layer,
            0 <= filters,
    ;
    let step: u64 = layer as u64 * filters as u64 + filter as u64;
    let all: u64 = if layers < 1 {
        filters as u64
    } else {
        filters as u64 * layers as u64
    };
    let n: u64 = if all < 1 {
        1
    } else {
        all
    };
    assert(step * 80 / (n as int) <= step * 80) by (nonlinear_arith)
        requires
            n >= 1,
            step >= 0,
    ;
    let pct: u64 = 12 + step * 80 / n;
    if pct > 92 {
        92
    } else {
        pct as u8
    }
}

} // verus!
