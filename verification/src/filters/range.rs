//! The ranges of sliders, which can be made finer or wider.
use vstd::prelude::*;

verus! {

/// How far a slider reaches.
#[derive(Clone, Copy, Debug, PartialEq, Eq, Structural)]
pub enum SliderSpan {
    Fine,
    Normal,
    Wide,
}

impl Default for SliderSpan {
    fn default() -> (r: SliderSpan)
        ensures
            r == SliderSpan::Normal,
    {
        SliderSpan::Normal
    }
}

impl SliderSpan {
    pub open spec fn spec_next(self) -> SliderSpan {
        match self {
            SliderSpan::Fine => SliderSpan::Normal,
            SliderSpan::Normal => SliderSpan::Wide,
            SliderSpan::Wide => SliderSpan::Fine,
        }
    }

    /// The span after a click on its button.
    pub fn next(self) -> (r: SliderSpan)
        ensures
            r == self.spec_next(),
    {
        match self {
            SliderSpan::Fine => SliderSpan::Normal,
            SliderSpan::Normal => SliderSpan::Wide,
            SliderSpan::Wide => SliderSpan::Fine,
        }
    }

    pub fn label(self) -> (r: &'static str)
        ensures
            r == (match self {
                SliderSpan::Fine => "Fine",
                SliderSpan::Normal => "Normal",
                SliderSpan::Wide => "Wide",
            }),
    {
        match self {
            SliderSpan::Fine => "Fine",
            SliderSpan::Normal => "Normal",
            SliderSpan::Wide => "Wide",
        }
    }
}

/// Three clicks bring a slider's span back.
pub proof fn law_span_cycles(s: SliderSpan)
    ensures
        s.spec_next().spec_next().spec_next() == s,
        s.spec_next() != s,
        s.spec_next().spec_next() != s,
{
}

pub open spec fn magnitude(x: int) -> int {
    if x < 0 {
        -x
    } else {
        x
    }
}

pub open spec fn larger(a: int, b: int) -> int {
    if a < b {
        b
    } else {
        a
    }
}

pub open spec fn smaller(a: int, b: int) -> int {
    if a < b {
        a
    } else {
        b
    }
}

/// Whether two values in thousandths are within half a unit of each other.
pub open spec fn about(a: int, b: int) -> bool {
    magnitude(a - b) < 510
}

/// The range of a slider for a span other than the normal one. Angles, hues and
/// tones keep their natural limits; small ranges halve or triple; other ranges
/// shrink to five eighths or grow to a thousand and beyond.
pub open spec fn span_range(lo: int, hi: int, fine: bool) -> (int, int) {
    let signed = lo < 0 && hi > 0;
    let mag = larger(magnitude(hi), magnitude(lo));
    let from_zero = magnitude(lo) < 10;
    if about(mag, 180_000) && signed {
        if fine {
            (-90_000, 90_000)
        } else {
            (-360_000, 360_000)
        }
    } else if from_zero && about(hi, 360_000) {
        (
            0,
            if fine {
                180_000
            } else {
                360_000
            },
        )
    } else if from_zero && about(hi, 255_000) {
        (
            0,
            if fine {
                128_000
            } else {
                255_000
            },
        )
    } else if mag <= 8000 {
        if fine {
            if signed {
                (lo / 2, hi / 2)
            } else {
                (lo, larger(lo + (hi - lo) / 2, lo + 50))
            }
        } else {
            if signed {
                (3 * lo, 3 * hi)
            } else {
                (lo, larger(3 * hi, hi + 1000))
            }
        }
    } else if !signed && lo >= 0 {
        if fine {
            (
                if 0 < lo <= 1000 {
                    100
                } else {
                    lo
                },
                hi * 5 / 8,
            )
        } else {
            (
                if 0 < lo <= 1000 {
                    0
                } else {
                    lo
                },
                if hi <= 250_000 {
                    1_000_000
                } else {
                    smaller(4 * hi, 4_096_000)
                },
            )
        }
    } else {
        if fine {
            (-(mag / 2), mag / 2)
        } else {
            (-smaller(5 * mag, 1_000_000), smaller(5 * mag, 1_000_000))
        }
    }
}

/// The range of a slider.
pub open spec fn fitted_range(lo: int, hi: int, span: SliderSpan) -> (int, int) {
    match span {
        SliderSpan::Normal => (lo, hi),
        SliderSpan::Fine => span_range(lo, hi, true),
        SliderSpan::Wide => span_range(lo, hi, false),
    }
}

fn half(x: i64) -> (r: i64)
    requires
        -0x1_0000_0000 <= x <= 0x1_0000_0000,
    ensures
        r == x as int / 2,
{
    if x >= 0 {
        x / 2
    } else {
        -((1 - x) / 2)
    }
}

fn abs_i64(x: i64) -> (r: i64)
    requires
        -0x1_0000_0000 <= x <= 0x1_0000_0000,
    ensures
        r == magnitude(x as int),
{
    if x < 0 {
        -x
    } else {
        x
    }
}

fn max_i64(a: i64, b: i64) -> (r: i64)
    ensures
        r == larger(a as int, b as int),
{
    if a < b {
        b
    } else {
        a
    }
}

fn min_i64(a: i64, b: i64) -> (r: i64)
    ensures
        r == smaller(a as int, b as int),
{
    if a < b {
        a
    } else {
        b
    }
}

/// The range of a slider over real values, for a span.
pub fn fit_range(base_lo: i32, base_hi: i32, span: SliderSpan) -> (r: (i64, i64))
    ensures
        (r.0 as int, r.1 as int) == fitted_range(base_lo as int, base_hi as int, span),
{
    let lo: i64 = base_lo as i64;
    let hi: i64 = base_hi as i64;
    let fine: bool = match span {
        SliderSpan::Normal => {
            return (lo, hi);
        },
        SliderSpan::Fine => true,
        SliderSpan::Wide => false,
    };
    let signed: bool = lo < 0 && hi > 0;
    let mag: i64 = max_i64(abs_i64(hi), abs_i64(lo));
    let from_zero: bool = abs_i64(lo) < 10;
    if abs_i64(mag - 180_000) < 510 && signed {
        if fine {
            (-90_000, 90_000)
        } else {
            (-360_000, 360_000)
        }
    } else if from_zero && abs_i64(hi - 360_000) < 510 {
        if fine {
            (0, 180_000)
        } else {
            (0, 360_000)
        }
    } else if from_zero && abs_i64(hi - 255_000) < 510 {
        if fine {
            (0, 128_000)
        } else {
            (0, 255_000)
        }
    } else if mag <= 8000 {
        if fine {
            if signed {
                (half(lo), half(hi))
            } else {
                (lo, max_i64(lo + half(hi - lo), lo + 50))
            }
        } else {
            if signed {
                (3 * lo, 3 * hi)
            } else {
                (lo, max_i64(3 * hi, hi + 1000))
            }
        }
    } else if !signed && lo >= 0 {
        let tiny: bool = 0 < lo && lo <= 1000;
        if fine {
            let new_hi: i64 = if hi >= 0 {
                hi * 5 / 8
            } else {
                -((-(hi * 5) + 7) / 8)
            };
            (
                if tiny {
                    100
                } else {
                    lo
                },
                new_hi,
            )
        } else {
            (
                if tiny {
                    0
                } else {
                    lo
                },
                if hi <= 250_000 {
                    1_000_000
                } else {
                    min_i64(4 * hi, 4_096_000)
                },
            )
        }
    } else {
        let m: i64 = if fine {
            half(mag)
        } else {
            min_i64(5 * mag, 1_000_000)
        };
        (-m, m)
    }
}

/// A range stretched so that it holds a value.
pub fn expand_range(range: (i64, i64), v: i64) -> (r: (i64, i64))
    ensures
        r.0 == smaller(range.0 as int, v as int),
        r.1 == larger(range.1 as int, v as int),
{
    (min_i64(range.0, v), max_i64(range.1, v))
}

/// The range of a slider over whole numbers.
pub open spec fn fitted_count(lo: u32, hi: u32, span: SliderSpan) -> (int, int) {
    match span {
        SliderSpan::Normal => (lo as int, hi as int),
        SliderSpan::Fine => (lo as int, larger(hi as int / 2, smaller(lo + 1, u32::MAX as int))),
        SliderSpan::Wide => (lo as int, larger(smaller(4 * hi, 4096), hi as int)),
    }
}

pub fn fit_u32_range(lo: u32, hi: u32, span: SliderSpan) -> (r: (u32, u32))
    ensures
        (r.0 as int, r.1 as int) == fitted_count(lo, hi, span),
{
    match span {
        SliderSpan::Normal => (lo, hi),
        SliderSpan::Fine => {
            let least: u32 = lo.saturating_add(1);
            let top: u32 = hi / 2;
            (
                lo,
                if top < least {
                    least
                } else {
                    top
                },
            )
        },
        SliderSpan::Wide => {
            let top: u32 = if hi > 1024 {
                4096
            } else {
                4 * hi
            };
            (
                lo,
                if top < hi {
                    hi
                } else {
                    top
                },
            )
        },
    }
}

/// A range of whole numbers stretched so that it holds a value.
pub fn expand_u32_range(range: (u32, u32), v: u32) -> (r: (u32, u32))
    ensures
        r.0 == smaller(range.0 as int, v as int),
        r.1 == larger(range.1 as int, v as int),
{
    (
        if v < range.0 {
            v
        } else {
            range.0
        },
        if v > range.1 {
            v
        } else {
            range.1
        },
    )
}

/// A stretched range holds what it held and the value.
pub proof fn law_expanded_holds(lo: int, hi: int, v: int, x: int)
    ensures
        smaller(lo, v) <= v <= larger(hi, v),
        lo <= x <= hi ==> smaller(lo, v) <= x <= larger(hi, v),
{
}

/// The wide span of a slider holds every value of the normal one, as long as
/// the normal one stays inside the largest wide range and does not stick out of
/// the natural range of a hue or a tone that it almost is.
pub proof fn law_wide_holds_normal(lo: int, hi: int, x: int)
    requires
        lo <= hi,
        0 <= lo ==> hi <= 4_096_000,
        lo < 0 ==> -1_000_000 <= lo && hi <= 1_000_000,
        magnitude(lo) < 10 && about(hi, 360_000) ==> 0 <= lo && hi <= 360_000,
        magnitude(lo) < 10 && about(hi, 255_000) ==> 0 <= lo && hi <= 255_000,
        lo <= x <= hi,
    ensures
        fitted_range(lo, hi, SliderSpan::Wide).0 <= x <= fitted_range(lo, hi, SliderSpan::Wide).1,
{
}

} // verus!
