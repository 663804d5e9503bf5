//! Frames made small enough to show, and short texts about a recording.
use vstd::prelude::*;
use crate::numbers::{
    SINGLE, fit_side, fitted_side, fixed, fixed_text, law_fixed, law_single_floor,
    lemma_exact_float, lemma_fitted_fits, lemma_nearest_bound, nearest_float, round_to_float,
    single_floor, single_floor_of,
};
use crate::text::{decimal, decimal_text, glue, glue3, padded, padded_text};

verus! {

/// The longest side that a frame is computed for.
pub const MAX_SIDE: u32 = 0x40_0000;

/// A frame: its sides and its pixels.
pub struct Frame {
    pub w: u32,
    pub h: u32,
    pub rgba: Vec<u8>,
}

pub open spec fn longer(w: u32, h: u32) -> u32 {
    let side = if w > h {
        w
    } else {
        h
    };
    if side == 0 {
        1
    } else {
        side
    }
}

/// Where a place along a side comes from: the place times the old side over the
/// new one, each step in single precision, cut to a whole number, and inside
/// the old side.
pub open spec fn source_place(place: nat, old_side: nat, new_side: nat) -> nat {
    let k = single_floor(nearest_float(place * old_side, SINGLE as nat), new_side);
    if k >= old_side {
        (old_side - 1) as nat
    } else {
        k
    }
}

/// The byte at a place of a frame that was made smaller.
pub open spec fn sampled(src: Seq<u8>, w: u32, h: u32, nw: nat, nh: nat, i: int) -> u8 {
    let y = (i / 4) / nw as int;
    let x = (i / 4) % nw as int;
    let sy = source_place(y as nat, h as nat, nh);
    let sx = source_place(x as nat, w as nat, nw);
    src[4 * (sy * w + sx) + i % 4]
}

/// A frame no side of which is longer than `max_side`. One with too few pixels
/// stays as it is.
pub open spec fn downsampled(src: Seq<u8>, w: u32, h: u32, max_side: u32) -> (int, int, Seq<u8>) {
    if longer(w, h) <= max_side || src.len() < 4 * w * h {
        (w as int, h as int, src)
    } else {
        let nw = fitted_side(w as nat, longer(w, h) as nat, max_side as nat);
        let nh = fitted_side(h as nat, longer(w, h) as nat, max_side as nat);
        (
            nw as int,
            nh as int,
            Seq::new(4 * nw * nh, |i: int| sampled(src, w, h, nw, nh, i)),
        )
    }
}

fn copy_bytes(v: &Vec<u8>) -> (r: Vec<u8>)
    ensures
        r@ == v@,
{
    let mut out: Vec<u8> = Vec::new();
    let mut i: usize = 0;
    while i < v.len()
        invariant
            i <= v.len(),
            out@ == v@.take(i as int),
        decreases v.len() - i,
    {
        out.push(v[i]);
        i += 1;
        assert(out@ =~= v@.take(i as int));
    }
    assert(v@.take(v.len() as int) =~= v@);
    out
}

proof fn lemma_small_product(a: int, b: int, m: int, n: int)
    requires
        0 <= a <= m,
        0 <= b <= n,
    ensures
        0 <= a * b <= m * n,
{
    assert(0 <= a * b <= m * n) by (nonlinear_arith)
        requires
            0 <= a <= m,
            0 <= b <= n,
    ;
}

fn source_of(place: u32, old_side: u32, new_side: u32) -> (r: u32)
    requires
        1 <= new_side <= old_side <= MAX_SIDE,
        place < new_side,
    ensures
        r == source_place(place as nat, old_side as nat, new_side as nat),
        r < old_side,
{
    proof {
        lemma_small_product(place as int, old_side as int, 0x40_0000, 0x40_0000);
        assert(place * old_side < new_side * old_side) by (nonlinear_arith)
            requires
                0 <= place < new_side,
                1 <= old_side,
        ;
        assert(2 * (place * old_side) < 0x100_0000 * new_side) by (nonlinear_arith)
            requires
                place * old_side < new_side * old_side,
                old_side <= 0x40_0000,
                1 <= new_side,
        ;
    }
    let product: u64 = place as u64 * old_side as u64;
    let n: u128 = round_to_float(product, SINGLE);
    proof {
        lemma_nearest_bound(product as nat, SINGLE as nat);
    }
    let k: u64 = single_floor_of(n as u64, new_side as u64);
    if k >= old_side as u64 {
        old_side - 1
    } else {
        k as u32
    }
}

/// Makes a frame smaller by taking single pixels of it.
pub fn downsample(src: &Vec<u8>, w: u32, h: u32, max_side: u32) -> (r: Frame)
    requires
        w <= MAX_SIDE && h <= MAX_SIDE,
        max_side >= 1,
        (longer(w, h) <= max_side || src.len() < 4 * w * h) || (w >= 1 && h >= 1 && w * h
            <= 0x1_0000_0000),
    ensures
        (r.w as int, r.h as int, r.rgba@) == downsampled(src@, w, h, max_side),
{
    proof {
        lemma_small_product(w as int, h as int, 0x40_0000, 0x40_0000);
        assert(4 * w * h == 4 * (w * h)) by (nonlinear_arith);
    }
    let side: u32 = if w > h {
        w
    } else {
        h
    };
    let side: u32 = if side == 0 {
        1
    } else {
        side
    };
    if side <= max_side || (src.len() as u64) < 4 * (w as u64 * h as u64) {
        return Frame { w, h, rgba: copy_bytes(src) };
    }
    let nw: u32 = fit_side(w, side, max_side);
    let nh: u32 = fit_side(h, side, max_side);
    let ghost want = downsampled(src@, w, h, max_side).2;
    proof {
        assert(nw * nh <= w * h) by (nonlinear_arith)
            requires
                0 <= nw <= w,
                0 <= nh <= h,
        ;
        assert(4 * nw * nh == 4 * (nw * nh)) by (nonlinear_arith);
    }
    let count: u64 = 4 * (nw as u64 * nh as u64);
    assert(want.len() == count);
    let mut out: Vec<u8> = Vec::new();
    let mut i: u64 = 0;
    while i < count
        invariant
            i <= count,
            count == 4 * (nw * nh) <= 4 * (w * h) <= src.len(),
            w * h <= 0x1_0000_0000,
            1 <= nw <= w <= MAX_SIDE,
            1 <= nh <= h <= MAX_SIDE,
            want.len() == count,
            forall|j: int|
                0 <= j < want.len() ==> #[trigger] want[j] == sampled(
                    src@,
                    w,
                    h,
                    nw as nat,
                    nh as nat,
                    j,
                ),
            out@ == want.take(i as int),
        decreases count - i,
    {
        let p: u64 = i / 4;
        let y: u64 = p / nw as u64;
        let x: u64 = p % nw as u64;
        proof {
            assert(y < nh) by (nonlinear_arith)
                requires
                    p < nw * nh,
                    y == p / nw as u64,
                    1 <= nw,
            ;
        }
        let sy: u32 = source_of(y as u32, h, nh);
        let sx: u32 = source_of(x as u32, w, nw);
        proof {
            assert(0 <= sy * w && sy * w + sx < w * h) by (nonlinear_arith)
                requires
                    0 <= sy < h,
                    0 <= sx < w,
            ;
            assert(sy as nat * w + sx == sy * w + sx);
        }
        let at: u64 = 4 * (sy as u64 * w as u64 + sx as u64) + i % 4;
        out.push(src[at as usize]);
        assert(want[i as int] == src@[at as int]);
        assert(out@ =~= want.take(i + 1));
        i += 1;
    }
    assert(want.take(count as int) =~= want);
    Frame { w: nw, h: nh, rgba: out }
}

/// A size in the largest unit that it reaches.
pub open spec fn bytes_words(n: u64) -> Seq<char> {
    if n < 0x400 {
        decimal(n as nat) + " B"@
    } else if n < 0x10_0000 {
        fixed(n, 0x400, 1) + " KB"@
    } else {
        fixed(n, 0x10_0000, 2) + " MB"@
    }
}

/// A size in words.
pub fn format_bytes(n: u64) -> (r: String)
    ensures
        r@ == bytes_words(n),
{
    if n < 0x400 {
        let t = decimal_text(n);
        glue(t.as_str(), " B")
    } else if n < 0x10_0000 {
        let t = fixed_text(n, 0x400, 1);
        glue(t.as_str(), " KB")
    } else {
        let t = fixed_text(n, 0x10_0000, 2);
        glue(t.as_str(), " MB")
    }
}

/// Seconds as minutes and seconds, each of two digits or more.
pub open spec fn clock_words(secs: nat) -> Seq<char> {
    padded(secs / 60) + ":"@ + padded(secs % 60)
}

/// Whole seconds as minutes and seconds.
pub fn format_mmss(secs: u32) -> (r: String)
    ensures
        r@ == clock_words(secs as nat),
{
    let m = padded_text((secs / 60) as u64);
    let s = padded_text((secs % 60) as u64);
    glue3(m.as_str(), ":", s.as_str())
}

/// A frame that is small enough comes out as it went in.
pub proof fn law_small_frame(src: Seq<u8>, w: u32, h: u32, max_side: u32)
    requires
        w <= max_side && h <= max_side,
        max_side >= 1,
    ensures
        downsampled(src, w, h, max_side) == (w as int, h as int, src),
{
}

/// A frame that was made smaller has no side longer than it may be.
pub proof fn law_frame_fits(src: Seq<u8>, w: u32, h: u32, max_side: u32)
    requires
        w <= MAX_SIDE && h <= MAX_SIDE,
        max_side >= 1,
        src.len() >= 4 * w * h,
    ensures
        downsampled(src, w, h, max_side).0 <= max_side,
        downsampled(src, w, h, max_side).1 <= max_side,
{
    lemma_fitted_fits(w as nat, longer(w, h) as nat, max_side as nat);
    lemma_fitted_fits(h as nat, longer(w, h) as nat, max_side as nat);
}

/// A frame of one colour keeps it, and has as many bytes as its new sides ask
/// for.
pub proof fn law_plain_frame(src: Seq<u8>, w: u32, h: u32, max_side: u32, i: int)
    requires
        1 <= w && 1 <= h,
        max_side >= 1,
        src.len() == 4 * w * h,
        forall|j: int| 4 <= j < src.len() ==> #[trigger] src[j] == src[j % 4],
        0 <= i < downsampled(src, w, h, max_side).2.len(),
    ensures
        downsampled(src, w, h, max_side).2[i] == src[i % 4],
        downsampled(src, w, h, max_side).2.len() == 4 * downsampled(src, w, h, max_side).0
            * downsampled(src, w, h, max_side).1,
{
    let small = downsampled(src, w, h, max_side);
    if longer(w, h) <= max_side {
        if i >= 4 {
            assert(src[i] == src[i % 4]);
        }
    } else {
        let nw = fitted_side(w as nat, longer(w, h) as nat, max_side as nat);
        let nh = fitted_side(h as nat, longer(w, h) as nat, max_side as nat);
        let y = (i / 4) / nw as int;
        let x = (i / 4) % nw as int;
        let sy = source_place(y as nat, h as nat, nh);
        let sx = source_place(x as nat, w as nat, nw);
        assert(sy < h && sx < w);
        assert(0 <= sy * w + sx < w * h) by (nonlinear_arith)
            requires
                0 <= sy < h,
                0 <= sx < w,
        ;
        assert(4 * w * h == 4 * (w * h)) by (nonlinear_arith);
        let at = 4 * (sy * w + sx) + i % 4;
        assert(small.2[i] == src[at]);
        assert(at % 4 == i % 4);
        if at >= 4 {
            assert(src[at] == src[at % 4]);
        }
    }
}

/// A time is shown as minutes and seconds.
pub proof fn law_clock_words(minutes: nat, seconds: nat)
    requires
        seconds < 60,
    ensures
        clock_words((60 * minutes + seconds) as nat) == padded(minutes) + ":"@ + padded(seconds),
{
    let n = (60 * minutes + seconds) as nat;
    assert(n / 60 == minutes && n % 60 == seconds);
}

/// A size is told in bytes, in tenths of kilobytes or in hundredths of megabytes.
pub proof fn law_bytes_words(n: u64, k: nat)
    ensures
        n < 1024 ==> bytes_words(n) == decimal(n as nat) + " B"@,
        1 <= k < 1024 ==> bytes_words((k * 0x400) as u64) == decimal(k) + "."@ + "0"@ + " KB"@,
        1 <= k < 0x10_0000 ==> bytes_words((k * 0x10_0000) as u64) == decimal(k) + "."@ + "00"@
            + " MB"@,
{
    if 1 <= k < 1024 {
        law_fixed(k, 0x400);
    }
    if 1 <= k < 0x10_0000 {
        law_fixed(k, 0x10_0000);
    }
}

/// A picture that is made smaller by a whole factor takes every so manieth pixel,
/// beginning with the first, in the same order.
pub proof fn law_source_place(place: nat, new_side: nat, factor: nat)
    requires
        place < new_side,
        factor >= 1,
        new_side * factor * new_side < 0x100_0000,
    ensures
        source_place(place, new_side * factor, new_side) == place * factor,
        source_place(0, new_side * factor, new_side) == 0,
{
    let old = new_side * factor;
    let n = place * old;
    assert(0 <= n < 0x100_0000) by (nonlinear_arith)
        requires
            n == place * old,
            place < new_side,
            old == new_side * factor,
            new_side * factor * new_side < 0x100_0000,
    ;
    lemma_exact_float(n, SINGLE as nat);
    lemma_exact_float(0, SINGLE as nat);
    assert(n == (place * factor) * new_side) by (nonlinear_arith)
        requires
            n == place * old,
            old == new_side * factor,
    ;
    law_single_floor(place * factor, new_side);
    law_single_floor(0, new_side);
    assert(0 * new_side == 0 && 0 * old == 0);
    assert(place * factor < old) by (nonlinear_arith)
        requires
            place < new_side,
            old == new_side * factor,
            factor >= 1,
    ;
    assert(old >= 1);
}

/// Each pixel of a smaller picture is one of the larger one, all four bytes of
/// it, from the row and the column that go with its place.
pub proof fn law_sampled(src: Seq<u8>, w: u32, h: u32, nw: nat, nh: nat, x: int, y: int, c: int)
    requires
        0 <= x < nw,
        0 <= y,
        0 <= c < 4,
    ensures
        sampled(src, w, h, nw, nh, 4 * (y * nw + x) + c) == src[4 * (source_place(
            y as nat,
            h as nat,
            nh,
        ) * w + source_place(x as nat, w as nat, nw)) + c],
{
    let n = nw as int;
    let k = y * n + x;
    assert(k >= 0) by (nonlinear_arith)
        requires
            k == y * n + x,
            0 <= x < n,
            0 <= y,
    ;
    assert((4 * k + c) / 4 == k && (4 * k + c) % 4 == c);
    assert(k / n == y && k % n == x) by (nonlinear_arith)
        requires
            k == y * n + x,
            0 <= x < n,
            0 <= y,
    ;
}

} // verus!
