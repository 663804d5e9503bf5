//! Pixel work around a filter stack: how much a preview is reduced, and how
//! filtered pixels are laid over the picture within a selection.
use vstd::prelude::*;

verus! {

/// A preview is reduced until no side is longer than this.
pub const PREVIEW_MAX_SIDE: u32 = 1600;

pub const MAX_LOD: u32 = 32;

/// `n / d` rounded up.
pub open spec fn ceil_div(n: int, d: int) -> int {
    (n + d - 1) / d
}

/// The first of `lod`, twice that, and so on, that reduces `side` to the
/// preview's limit; 32 where none below it does.
pub open spec fn lod_from(side: int, lod: int) -> int
    decreases most(MAX_LOD - lod, 0),
{
    if lod <= 0 || lod >= MAX_LOD || ceil_div(side, lod) <= PREVIEW_MAX_SIDE {
        lod
    } else {
        lod_from(side, 2 * lod)
    }
}

pub open spec fn longer(w: u32, h: u32) -> int {
    if w < h {
        h as int
    } else {
        w as int
    }
}

fn divide_up(n: u32, d: u32) -> (r: u32)
    requires
        d > 0,
    ensures
        r == ceil_div(n as int, d as int),
{
    let x: u64 = (n as u64 + (d as u64 - 1)) / (d as u64);
    assert(x <= n) by (nonlinear_arith)
        requires
            x == (n as int + (d as int - 1)) / (d as int),
            d > 0,
            0 <= n,
            n <= 0xffff_ffff,
    ;
    x as u32
}

/// By how much a preview of a region is reduced.
pub fn preview_lod_factor(w: u32, h: u32) -> (r: u32)
    ensures
        r == lod_from(longer(w, h), 1),
        1 <= r <= MAX_LOD,
{
    let side: u32 = if w < h {
        h
    } else {
        w
    };
    let mut lod: u32 = 1;
    while lod < MAX_LOD && divide_up(side, lod) > PREVIEW_MAX_SIDE
        invariant
            1 <= lod <= MAX_LOD,
            lod == 1 || lod == 2 || lod == 4 || lod == 8 || lod == 16 || lod == 32,
            side == longer(w, h),
            lod_from(side as int, 1) == lod_from(side as int, lod as int),
        decreases MAX_LOD - lod,
    {
        lod = lod * 2;
    }
    lod
}

/// A region of up to 51200 pixels a side is reduced to the preview's limit, and
/// one within the limit is not reduced at all.
pub proof fn law_preview_fits(side: int)
    requires
        0 <= side,
    ensures
        side <= 51_200 ==> ceil_div(side, lod_from(side, 1)) <= PREVIEW_MAX_SIDE,
        side <= PREVIEW_MAX_SIDE ==> lod_from(side, 1) == 1,
{
    assert(lod_from(side, 32) == 32);
    assert(lod_from(side, 16) == if ceil_div(side, 16) <= PREVIEW_MAX_SIDE {
        16
    } else {
        32int
    });
    assert(lod_from(side, 8) == if ceil_div(side, 8) <= PREVIEW_MAX_SIDE {
        8
    } else {
        lod_from(side, 16)
    });
    assert(lod_from(side, 4) == if ceil_div(side, 4) <= PREVIEW_MAX_SIDE {
        4
    } else {
        lod_from(side, 8)
    });
    assert(lod_from(side, 2) == if ceil_div(side, 2) <= PREVIEW_MAX_SIDE {
        2
    } else {
        lod_from(side, 4)
    });
    assert(ceil_div(side, 32) == (side + 31) / 32);
}

/// The sum of coverage over the pixels `x0..x1` of row `y`.
pub open spec fn row_sum(src: Seq<u8>, w: int, y: int, x0: int, x1: int) -> int
    decreases x1 - x0,
{
    if x1 <= x0 {
        0
    } else {
        row_sum(src, w, y, x0, x1 - 1) + src[y * w + x1 - 1]
    }
}

/// The sum of coverage over a block.
pub open spec fn block_sum(src: Seq<u8>, w: int, x0: int, x1: int, y0: int, y1: int) -> int
    decreases y1 - y0,
{
    if y1 <= y0 {
        0
    } else {
        block_sum(src, w, x0, x1, y0, y1 - 1) + row_sum(src, w, y1 - 1, x0, x1)
    }
}

pub open spec fn least(a: int, b: int) -> int {
    if a < b {
        a
    } else {
        b
    }
}

pub open spec fn most(a: int, b: int) -> int {
    if a < b {
        b
    } else {
        a
    }
}

/// The mean coverage of the block that a reduced pixel stands for; the blocks
/// at the right and bottom may be smaller.
pub open spec fn block_mean(src: Seq<u8>, w: int, h: int, factor: int, x: int, y: int) -> int {
    let x0 = x * factor;
    let y0 = y * factor;
    let x1 = least(x0 + factor, w);
    let y1 = least(y0 + factor, h);
    let n = if x1 > x0 && y1 > y0 {
        (x1 - x0) * (y1 - y0)
    } else {
        0
    };
    block_sum(src, w, x0, x1, y0, y1) / most(n, 1)
}

proof fn lemma_row_bound(src: Seq<u8>, w: int, y: int, x0: int, x1: int)
    ensures
        0 <= row_sum(src, w, y, x0, x1) <= 255 * most(x1 - x0, 0),
    decreases x1 - x0,
{
    if x1 > x0 {
        lemma_row_bound(src, w, y, x0, x1 - 1);
    }
}

proof fn lemma_block_bound(src: Seq<u8>, w: int, x0: int, x1: int, y0: int, y1: int)
    requires
        x0 <= x1,
    ensures
        0 <= block_sum(src, w, x0, x1, y0, y1) <= 255 * ((x1 - x0) * most(y1 - y0, 0)),
    decreases y1 - y0,
{
    if y1 > y0 {
        lemma_block_bound(src, w, x0, x1, y0, y1 - 1);
        lemma_row_bound(src, w, y1 - 1, x0, x1);
        assert((x1 - x0) * (y1 - y0) == (x1 - x0) * (y1 - 1 - y0) + (x1 - x0)) by (nonlinear_arith);
    } else {
        assert((x1 - x0) * 0 == 0) by (nonlinear_arith);
    }
}

/// The mean coverage of a block.
fn mean_of(src: &Vec<u8>, w: u64, x0: u64, x1: u64, y0: u64, y1: u64) -> (r: u8)
    requires
        x0 <= x1 <= w <= u32::MAX,
        y0 <= y1 <= u32::MAX,
        w * y1 <= src.len(),
    ensures
        r == block_sum(src@, w as int, x0 as int, x1 as int, y0 as int, y1 as int) / most(
            (x1 - x0) * (y1 - y0),
            1,
        ),
{
    let mut sum: u128 = 0;
    let mut y: u64 = y0;
    while y < y1
        invariant
            x0 <= x1 <= w <= u32::MAX,
            y0 <= y <= y1 <= u32::MAX,
            w * y1 <= src.len(),
            sum == block_sum(src@, w as int, x0 as int, x1 as int, y0 as int, y as int),
            sum <= 255 * ((x1 - x0) * (y - y0)),
        decreases y1 - y,
    {
        let ghost before = sum as int;
        proof {
            lemma_block_bound(src@, w as int, x0 as int, x1 as int, y0 as int, y as int);
            assert((x1 - x0) * (y - y0) <= 0xffff_ffff * 0xffff_ffff) by (nonlinear_arith)
                requires
                    0 <= x1 - x0 <= 0xffff_ffff,
                    0 <= y - y0 <= 0xffff_ffff,
            ;
            assert(0 <= y * w && y * w + w <= w * y1) by (nonlinear_arith)
                requires
                    0 <= y < y1,
                    0 <= w,
            ;
        }
        let mut x: u64 = x0;
        while x < x1
            invariant
                x0 <= x <= x1 <= w <= u32::MAX,
                y < y1,
                before <= 255 * (0xffff_ffff * 0xffff_ffff),
                0 <= y * w,
                y * w + w <= src.len(),
                sum == before + row_sum(src@, w as int, y as int, x0 as int, x as int),
                sum <= before + 255 * (x - x0),
            decreases x1 - x,
        {
            sum = sum + src[(y * w + x) as usize] as u128;
            x += 1;
        }
        y += 1;
        assert((x1 - x0) * (y - y0) == (x1 - x0) * (y - 1 - y0) + (x1 - x0)) by (nonlinear_arith);
    }
    proof {
        assert(0 <= (x1 - x0) * (y1 - y0) <= 0xffff_ffff * 0xffff_ffff) by (nonlinear_arith)
            requires
                0 <= x1 - x0 <= 0xffff_ffff,
                0 <= y1 - y0 <= 0xffff_ffff,
        ;
    }
    let n: u128 = ((x1 - x0) * (y1 - y0)) as u128;
    let d: u128 = if n < 1 {
        1
    } else {
        n
    };
    assert(sum / d <= 255) by (nonlinear_arith)
        requires
            sum <= 255 * n,
            d >= 1,
            d >= n,
    ;
    (sum / d) as u8
}

/// The width or height of a reduced region.
pub open spec fn reduced(n: u32, factor: u32) -> int {
    most(ceil_div(n as int, factor as int), 1)
}

/// Coverage reduced by a factor: each pixel is the mean of its block.
pub fn downscale_cov(src: &Vec<u8>, sw: u32, sh: u32, factor: u32) -> (r: Vec<u8>)
    requires
        sw * sh <= src.len(),
    ensures
        factor <= 1 ==> r@ == src@,
        factor > 1 ==> ({
            let dw = reduced(sw, factor);
            let dh = reduced(sh, factor);
            &&& r@.len() == dw * dh
            &&& forall|x: int, y: int|
                0 <= x < dw && 0 <= y < dh ==> #[trigger] r@[y * dw + x] == block_mean(
                    src@,
                    sw as int,
                    sh as int,
                    factor as int,
                    x,
                    y,
                )
        }),
{
    if factor <= 1 {
        let r = src.clone();
        assert(r@ =~= src@);
        return r;
    }
    let up_w: u32 = divide_up(sw, factor);
    let up_h: u32 = divide_up(sh, factor);
    let dw: u32 = if up_w < 1 {
        1
    } else {
        up_w
    };
    let dh: u32 = if up_h < 1 {
        1
    } else {
        up_h
    };
    proof {
        lemma_reduced(sw as int, factor as int);
        lemma_reduced(sh as int, factor as int);
    }
    let mut out: Vec<u8> = Vec::new();
    let mut y: u32 = 0;
    while y < dh
        invariant
            y <= dh,
            dw == reduced(sw, factor),
            dh == reduced(sh, factor),
            2 <= factor,
            sw * sh <= src.len(),
            dw == 1 || (dw - 1) * factor < sw,
            dh == 1 || (dh - 1) * factor < sh,
            out@.len() == y * dw,
            forall|i: int, j: int|
                0 <= i < dw && 0 <= j < y ==> #[trigger] out@[j * dw + i] == block_mean(
                    src@,
                    sw as int,
                    sh as int,
                    factor as int,
                    i,
                    j,
                ),
        decreases dh - y,
    {
        proof {
            assert(y * factor <= (dh - 1) * factor) by (nonlinear_arith)
                requires
                    y <= dh - 1,
                    0 < factor,
            ;
            assert(0 * factor == 0) by (nonlinear_arith);
        }
        let y0: u64 = y as u64 * factor as u64;
        let y1: u64 = if y0 + (factor as u64) < sh as u64 {
            y0 + factor as u64
        } else {
            sh as u64
        };
        let mut x: u32 = 0;
        while x < dw
            invariant
                x <= dw,
                y < dh,
                dw == reduced(sw, factor),
                2 <= factor,
                sw * sh <= src.len(),
                dw == 1 || (dw - 1) * factor < sw,
                y0 == y * factor,
                y0 <= sh,
                y1 == least(y0 + factor, sh as int),
                out@.len() == y * dw + x,
                forall|i: int, j: int|
                    0 <= i < dw && 0 <= j < y ==> #[trigger] out@[j * dw + i] == block_mean(
                        src@,
                        sw as int,
                        sh as int,
                        factor as int,
                        i,
                        j,
                    ),
                forall|i: int|
                    0 <= i < x ==> #[trigger] out@[y * dw + i] == block_mean(
                        src@,
                        sw as int,
                        sh as int,
                        factor as int,
                        i,
                        y as int,
                    ),
            decreases dw - x,
        {
            proof {
                assert(x * factor <= (dw - 1) * factor) by (nonlinear_arith)
                    requires
                        x <= dw - 1,
                        0 < factor,
                ;
                assert(0 * factor == 0) by (nonlinear_arith);
                assert(sw * y1 <= sw * sh) by (nonlinear_arith)
                    requires
                        0 <= y1 <= sh,
                        0 <= sw,
                ;
            }
            let x0: u64 = x as u64 * factor as u64;
            let x1: u64 = if x0 + (factor as u64) < sw as u64 {
                x0 + factor as u64
            } else {
                sw as u64
            };
            let ghost before = out@;
            let mean: u8 = mean_of(src, sw as u64, x0, x1, y0, y1);
            assert((x1 - x0) * (y1 - y0) >= 0) by (nonlinear_arith)
                requires
                    x1 >= x0,
                    y1 >= y0,
            ;
            assert(!(x1 > x0 && y1 > y0) ==> (x1 - x0) * (y1 - y0) == 0) by (nonlinear_arith)
                requires
                    x1 >= x0,
                    y1 >= y0,
            ;
            assert(mean == block_mean(src@, sw as int, sh as int, factor as int, x as int, y as int));
            out.push(mean);
            assert forall|i: int, j: int| 0 <= i < dw && 0 <= j < y implies #[trigger] out@[j * dw
                + i] == block_mean(src@, sw as int, sh as int, factor as int, i, j) by {
                assert(j * dw + i < y * dw) by (nonlinear_arith)
                    requires
                        0 <= i < dw,
                        0 <= j < y,
                ;
                assert(j * dw >= 0) by (nonlinear_arith)
                    requires
                        0 <= j,
                        0 <= dw,
                ;
                assert(out@[j * dw + i] == before[j * dw + i]);
            }
            assert forall|i: int| 0 <= i < x + 1 implies #[trigger] out@[y * dw + i] == block_mean(
                src@,
                sw as int,
                sh as int,
                factor as int,
                i,
                y as int,
            ) by {
                assert(y * dw >= 0) by (nonlinear_arith)
                    requires
                        0 <= y,
                        0 <= dw,
                ;
                if i < x {
                    assert(out@[y * dw + i] == before[y * dw + i]);
                }
            }
            x += 1;
        }
        assert(y * dw + dw == (y + 1) * dw) by (nonlinear_arith);
        assert forall|i: int, j: int| 0 <= i < dw && 0 <= j < y + 1 implies #[trigger] out@[j * dw
            + i] == block_mean(src@, sw as int, sh as int, factor as int, i, j) by {
            if j == y {
                assert(out@[y * dw + i] == block_mean(
                    src@,
                    sw as int,
                    sh as int,
                    factor as int,
                    i,
                    y as int,
                ));
            }
        }
        y += 1;
    }
    assert(dh * dw == dw * dh) by (nonlinear_arith);
    out
}

proof fn lemma_reduced(n: int, factor: int)
    requires
        0 <= n,
        factor >= 1,
    ensures
        ({
            let d = most(ceil_div(n, factor), 1);
            d == 1 || (d - 1) * factor < n
        }),
{
    let d = ceil_div(n, factor);
    assert((d - 1) * factor < n || d <= 1) by (nonlinear_arith)
        requires
            d == (n + factor - 1) / factor,
            factor >= 1,
            n >= 0,
    ;
}

} // verus!
