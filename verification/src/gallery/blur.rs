//! The frosted strip under a card: the lower third of a picture, made small,
//! blurred and made large again.
use vstd::prelude::*;

verus! {

/// The sides of the small picture.
pub const SMALL_W: usize = 48;

pub const SMALL_H: usize = 18;

/// The sides of the strip.
pub const STRIP_W: usize = 160;

pub const STRIP_H: usize = 64;

pub open spec fn at_most_int(a: int, b: int) -> int {
    if a < b {
        a
    } else {
        b
    }
}

/// The height of the lower part that is taken: a third, and at least twelve
/// rows.
pub open spec fn strip_rows(h: int) -> int {
    if h / 3 < 12 {
        12
    } else {
        h / 3
    }
}

/// The first row that is taken.
pub open spec fn strip_top(h: int) -> int {
    if h < strip_rows(h) {
        0
    } else {
        h - strip_rows(h)
    }
}

/// The column of the picture under a column of the small one.
pub open spec fn source_x(w: int, sx: int) -> int {
    at_most_int(sx * w / 48, w - 1)
}

/// The row of the picture under a row of the small one.
pub open spec fn source_y(h: int, sy: int) -> int {
    at_most_int(strip_top(h) + sy * strip_rows(h) / 18, h - 1)
}

/// A byte of the small picture.
pub open spec fn small_byte(rgba: Seq<u8>, w: int, h: int, i: int) -> u8 {
    rgba[4 * (source_y(h, i / 4 / 48) * w + source_x(w, i / 4 % 48)) + i % 4]
}

/// The small picture: 18 rows of 48 pixels.
pub open spec fn small_picture(rgba: Seq<u8>, w: int, h: int) -> Seq<u8> {
    Seq::new(3456, |i: int| small_byte(rgba, w, h, i))
}

/// The mean of a byte and its eight neighbours' in a picture 48 pixels wide.
pub open spec fn mean(s: Seq<u8>, x: int, y: int, c: int) -> int {
    (s[4 * ((y - 1) * 48 + x - 1) + c] + s[4 * ((y - 1) * 48 + x) + c] + s[4 * ((y - 1) * 48 + x + 1)
        + c] + s[4 * (y * 48 + x - 1) + c] + s[4 * (y * 48 + x) + c] + s[4 * (y * 48 + x + 1) + c]
        + s[4 * ((y + 1) * 48 + x - 1) + c] + s[4 * ((y + 1) * 48 + x) + c] + s[4 * ((y + 1) * 48 + x
        + 1) + c]) / 9
}

/// A byte of the blurred picture: the edge stays, inside each colour is the
/// mean of its surroundings, without transparency.
pub open spec fn blurred_byte(s: Seq<u8>, i: int) -> u8 {
    let x = i / 4 % 48;
    let y = i / 4 / 48;
    if 1 <= x < 47 && 1 <= y < 17 {
        if i % 4 == 3 {
            255
        } else {
            mean(s, x, y, i % 4) as u8
        }
    } else {
        s[i]
    }
}

pub open spec fn blurred_picture(s: Seq<u8>) -> Seq<u8> {
    Seq::new(3456, |i: int| blurred_byte(s, i))
}

/// A byte of the strip, which enlarges the blurred picture.
pub open spec fn strip_byte(b: Seq<u8>, i: int) -> u8 {
    let x = i / 4 % 160;
    let y = i / 4 / 160;
    b[4 * (y * 18 / 64 * 48 + x * 48 / 160) + i % 4]
}

/// The strip of a picture: 64 rows of 160 pixels.
pub open spec fn strip_of(rgba: Seq<u8>, w: int, h: int) -> Seq<u8> {
    Seq::new(
        40_960,
        |i: int| strip_byte(blurred_picture(small_picture(rgba, w, h)), i),
    )
}

proof fn lemma_source(w: int, h: int, sx: int, sy: int)
    requires
        w >= 1,
        h >= 1,
        0 <= sx < 48,
        0 <= sy < 18,
    ensures
        0 <= source_x(w, sx) < w,
        0 <= source_y(h, sy) < h,
        0 <= source_y(h, sy) * w + source_x(w, sx) < w * h,
{
    assert(sx * w >= 0) by (nonlinear_arith)
        requires
            sx >= 0,
            w >= 1,
    ;
    assert(sy * strip_rows(h) >= 0) by (nonlinear_arith)
        requires
            sy >= 0,
            strip_rows(h) >= 0,
    ;
    let x = source_x(w, sx);
    let y = source_y(h, sy);
    assert(y * w + x < w * h && y * w >= 0) by (nonlinear_arith)
        requires
            0 <= y <= h - 1,
            0 <= x <= w - 1,
    ;
}

proof fn lemma_pixel(p: int)
    ensures
        4 * p / 4 == p && 4 * p % 4 == 0,
        (4 * p + 1) / 4 == p && (4 * p + 1) % 4 == 1,
        (4 * p + 2) / 4 == p && (4 * p + 2) % 4 == 2,
        (4 * p + 3) / 4 == p && (4 * p + 3) % 4 == 3,
{
}

fn make_small(rgba: &Vec<u8>, w: u32, h: u32) -> (r: Vec<u8>)
    requires
        w >= 1,
        h >= 1,
        rgba.len() == 4 * w * h,
    ensures
        r@ == small_picture(rgba@, w as int, h as int),
{
    let fh: u64 = if h as u64 / 3 < 12 {
        12
    } else {
        h as u64 / 3
    };
    let y0: u64 = if (h as u64) < fh {
        0
    } else {
        h as u64 - fh
    };
    let ghost s = small_picture(rgba@, w as int, h as int);
    let mut out: Vec<u8> = Vec::new();
    let mut p: usize = 0;
    while p < 864
        invariant
            p <= 864,
            w >= 1,
            h >= 1,
            rgba.len() == 4 * w * h,
            fh == strip_rows(h as int),
            y0 == strip_top(h as int),
            s == small_picture(rgba@, w as int, h as int),
            out@ == s.take(4 * p),
        decreases 864 - p,
    {
        let sx: u64 = (p % 48) as u64;
        let sy: u64 = (p / 48) as u64;
        assert(sx * w <= 47 * 0xffff_ffff) by (nonlinear_arith)
            requires
                0 <= sx <= 47,
                w <= 0xffff_ffff,
        ;
        assert(sy * fh <= 17 * 0xffff_ffff) by (nonlinear_arith)
            requires
                0 <= sy <= 17,
                0 <= fh <= 0xffff_ffff,
        ;
        let mut x: u64 = sx * w as u64 / 48;
        if x > w as u64 - 1 {
            x = w as u64 - 1;
        }
        let mut y: u64 = y0 + sy * fh / 18;
        if y > h as u64 - 1 {
            y = h as u64 - 1;
        }
        proof {
            lemma_source(w as int, h as int, sx as int, sy as int);
            assert(x == source_x(w as int, sx as int));
            assert(y == source_y(h as int, sy as int));
            let k = y * w + x;
            assert(4 * k + 3 < rgba.len()) by (nonlinear_arith)
                requires
                    rgba.len() == 4 * w * h,
                    k < w * h,
            ;
        }
        let at: usize = ((y as u128 * w as u128 + x as u128) * 4) as usize;
        let ghost before = out@;
        out.push(rgba[at]);
        out.push(rgba[at + 1]);
        out.push(rgba[at + 2]);
        out.push(rgba[at + 3]);
        proof {
            lemma_pixel(p as int);
            assert(s[4 * p] == rgba@[at as int]);
            assert(s[4 * p + 1] == rgba@[at + 1]);
            assert(s[4 * p + 2] == rgba@[at + 2]);
            assert(s[4 * p + 3] == rgba@[at + 3]);
            assert(out@ =~= s.take(4 * (p + 1)));
        }
        p += 1;
    }
    assert(s.take(3456) =~= s);
    out
}

fn mean_of(s: &Vec<u8>, x: usize, y: usize, c: usize) -> (r: u8)
    requires
        s.len() == 3456,
        1 <= x < 47,
        1 <= y < 17,
        c < 3,
    ensures
        r == mean(s@, x as int, y as int, c as int),
{
    let up: usize = 4 * ((y - 1) * 48 + x) + c;
    let here: usize = 4 * (y * 48 + x) + c;
    let down: usize = 4 * ((y + 1) * 48 + x) + c;
    let sum: u32 = s[up - 4] as u32 + s[up] as u32 + s[up + 4] as u32 + s[here - 4] as u32 + s[here]
        as u32 + s[here + 4] as u32 + s[down - 4] as u32 + s[down] as u32 + s[down + 4] as u32;
    (sum / 9) as u8
}

fn blur_small(s: &Vec<u8>) -> (r: Vec<u8>)
    requires
        s.len() == 3456,
    ensures
        r@ == blurred_picture(s@),
{
    let mut out: Vec<u8> = Vec::new();
    let mut i: usize = 0;
    while i < 3456
        invariant
            i <= 3456,
            s.len() == 3456,
            out@ == blurred_picture(s@).take(i as int),
        decreases 3456 - i,
    {
        let x: usize = i / 4 % 48;
        let y: usize = i / 4 / 48;
        let v: u8 = if 1 <= x && x < 47 && 1 <= y && y < 17 {
            if i % 4 == 3 {
                255
            } else {
                mean_of(s, x, y, i % 4)
            }
        } else {
            s[i]
        };
        out.push(v);
        assert(v == blurred_byte(s@, i as int));
        assert(out@ =~= blurred_picture(s@).take(i + 1));
        i += 1;
    }
    assert(blurred_picture(s@).take(3456) =~= blurred_picture(s@));
    out
}

/// The frosted strip of a picture, 160 pixels by 64.
pub fn make_footer_blur(rgba: &Vec<u8>, w: u32, h: u32) -> (r: Vec<u8>)
    requires
        w >= 1,
        h >= 1,
        rgba.len() == 4 * w * h,
    ensures
        r@ == strip_of(rgba@, w as int, h as int),
{
    let small = make_small(rgba, w, h);
    let blurred = blur_small(&small);
    let ghost s = strip_of(rgba@, w as int, h as int);
    let mut out: Vec<u8> = Vec::new();
    let mut i: usize = 0;
    while i < 40_960
        invariant
            i <= 40_960,
            blurred.len() == 3456,
            blurred@ == blurred_picture(small_picture(rgba@, w as int, h as int)),
            s == strip_of(rgba@, w as int, h as int),
            out@ == s.take(i as int),
        decreases 40_960 - i,
    {
        let x: usize = i / 4 % 160;
        let y: usize = i / 4 / 160;
        let at: usize = 4 * (y * 18 / 64 * 48 + x * 48 / 160) + i % 4;
        out.push(blurred[at]);
        assert(blurred@[at as int] == strip_byte(blurred@, i as int));
        assert(out@ =~= s.take(i + 1));
        i += 1;
    }
    assert(s.take(40_960) =~= s);
    out
}

/// Whether all bytes of one channel have a value.
pub open spec fn plain(s: Seq<u8>, c: int, v: u8) -> bool {
    forall|j: int| 0 <= j < s.len() && j % 4 == c ==> #[trigger] s[j] == v
}

proof fn lemma_plain_small(rgba: Seq<u8>, w: int, h: int, c: int, v: u8)
    requires
        w >= 1,
        h >= 1,
        rgba.len() == 4 * w * h,
        0 <= c < 3,
        plain(rgba, c, v),
    ensures
        plain(small_picture(rgba, w, h), c, v),
{
    let s = small_picture(rgba, w, h);
    assert forall|j: int| 0 <= j < s.len() && j % 4 == c implies #[trigger] s[j] == v by {
        lemma_source(w, h, j / 4 % 48, j / 4 / 48);
        let k = source_y(h, j / 4 / 48) * w + source_x(w, j / 4 % 48);
        assert(4 * (w * h) == rgba.len()) by (nonlinear_arith)
            requires
                rgba.len() == 4 * w * h,
        ;
        assert((4 * k + c) % 4 == c);
        assert(rgba[4 * k + c] == v);
    }
}

proof fn lemma_plain_blurred(s: Seq<u8>, c: int, v: u8)
    requires
        s.len() == 3456,
        0 <= c < 3,
        plain(s, c, v),
    ensures
        plain(blurred_picture(s), c, v),
{
    let b = blurred_picture(s);
    assert forall|j: int| 0 <= j < b.len() && j % 4 == c implies #[trigger] b[j] == v by {
        let x = j / 4 % 48;
        let y = j / 4 / 48;
        if 1 <= x < 47 && 1 <= y < 17 {
            lemma_plain_mean(s, x, y, c, v);
        }
    }
}

proof fn lemma_plain_mean(s: Seq<u8>, x: int, y: int, c: int, v: u8)
    requires
        s.len() == 3456,
        0 <= c < 3,
        1 <= x < 47,
        1 <= y < 17,
        plain(s, c, v),
    ensures
        mean(s, x, y, c) == v,
{
    assert(s[4 * ((y - 1) * 48 + x - 1) + c] == v);
    assert(s[4 * ((y - 1) * 48 + x) + c] == v);
    assert(s[4 * ((y - 1) * 48 + x + 1) + c] == v);
    assert(s[4 * (y * 48 + x - 1) + c] == v);
    assert(s[4 * (y * 48 + x) + c] == v);
    assert(s[4 * (y * 48 + x + 1) + c] == v);
    assert(s[4 * ((y + 1) * 48 + x - 1) + c] == v);
    assert(s[4 * ((y + 1) * 48 + x) + c] == v);
    assert(s[4 * ((y + 1) * 48 + x + 1) + c] == v);
}

/// Where a picture has one value of red, green or blue everywhere, so has its
/// strip.
pub proof fn law_plain_picture(rgba: Seq<u8>, w: int, h: int, c: int, v: u8)
    requires
        w >= 1,
        h >= 1,
        rgba.len() == 4 * w * h,
        0 <= c < 3,
        plain(rgba, c, v),
    ensures
        plain(strip_of(rgba, w, h), c, v),
{
    lemma_plain_small(rgba, w, h, c, v);
    let small = small_picture(rgba, w, h);
    lemma_plain_blurred(small, c, v);
    let b = blurred_picture(small);
    let r = strip_of(rgba, w, h);
    assert forall|i: int| 0 <= i < r.len() && i % 4 == c implies #[trigger] r[i] == v by {
        let x = i / 4 % 160;
        let y = i / 4 / 160;
        let at = 4 * (y * 18 / 64 * 48 + x * 48 / 160) + c;
        assert(0 <= at < 3456);
        assert(at % 4 == c);
        assert(b[at] == v);
    }
}

/// The strip is taken from the lowest third of the picture, over its whole
/// width, from left to right and from top to bottom.
pub proof fn law_source(w: int, h: int, x: int, y: int)
    requires
        w >= 1,
        h >= 1,
        0 <= x < 48,
        0 <= y < 18,
    ensures
        0 <= source_x(w, x) < w,
        0 <= source_y(h, y) < h,
        h >= 36 ==> 3 * source_y(h, y) >= 2 * h,
        source_x(w, 0) == 0,
        x < 47 ==> source_x(w, x) <= source_x(w, x + 1),
        y < 17 ==> source_y(h, y) <= source_y(h, y + 1),
        w >= 48 ==> source_x(w, 47) * 48 >= 47 * w - 47,
{
    assert(0 <= x * w / 48 && x * w / 48 <= (x + 1) * w / 48) by (nonlinear_arith)
        requires
            0 <= x,
            w >= 1,
    ;
    let r = strip_rows(h);
    assert(0 <= y * r / 18 && y * r / 18 <= (y + 1) * r / 18) by (nonlinear_arith)
        requires
            0 <= y,
            r >= 12,
    ;
    assert(0 * w / 48 == 0);
    assert(47 * w / 48 <= w - 1) by (nonlinear_arith)
        requires
            w >= 1,
    ;
}

/// A blurred value lies between the least and the greatest of the nine that it
/// is made of.
pub proof fn law_mean(s: Seq<u8>, x: int, y: int, c: int, lo: int, hi: int)
    requires
        forall|i: int, j: int|
            -1 <= i <= 1 && -1 <= j <= 1 ==> lo <= #[trigger] s[4 * ((y + j) * 48 + (x + i)) + c] <= hi,
    ensures
        lo <= mean(s, x, y, c) <= hi,
{
    assert(s[4 * ((y + (-1)) * 48 + (x + (-1))) + c] >= lo);
    assert(s[4 * ((y + (-1)) * 48 + (x + 0)) + c] >= lo);
    assert(s[4 * ((y + (-1)) * 48 + (x + 1)) + c] >= lo);
    assert(s[4 * ((y + 0) * 48 + (x + (-1))) + c] >= lo);
    assert(s[4 * ((y + 0) * 48 + (x + 0)) + c] >= lo);
    assert(s[4 * ((y + 0) * 48 + (x + 1)) + c] >= lo);
    assert(s[4 * ((y + 1) * 48 + (x + (-1))) + c] >= lo);
    assert(s[4 * ((y + 1) * 48 + (x + 0)) + c] >= lo);
    assert(s[4 * ((y + 1) * 48 + (x + 1)) + c] >= lo);
}

/// Each pixel of the small picture is the one of the picture that goes with its
/// place, all four bytes of it; the strip begins and ends with the corners of the
/// blurred picture.
pub proof fn law_places(rgba: Seq<u8>, b: Seq<u8>, w: int, h: int, x: int, y: int, c: int)
    requires
        0 <= x < 48,
        0 <= y < 18,
        0 <= c < 4,
    ensures
        small_byte(rgba, w, h, 4 * (y * 48 + x) + c) == rgba[4 * (source_y(h, y) * w + source_x(w, x))
            + c],
        strip_byte(b, c) == b[c],
        strip_byte(b, 4 * 159 + c) == b[4 * 47 + c],
        strip_byte(b, 4 * (63 * 160) + c) == b[4 * (17 * 48) + c],
        strip_byte(b, 4 * (63 * 160 + 159) + c) == b[4 * (17 * 48 + 47) + c],
{
    let k = y * 48 + x;
    assert((4 * k + c) / 4 == k && (4 * k + c) % 4 == c);
    assert(k / 48 == y && k % 48 == x);
}

} // verus!
