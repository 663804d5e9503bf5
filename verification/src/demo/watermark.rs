//! The mark that an exported video carries.
//!
//! Places, sizes and opacities are thousandths; angles are thousandths of a
//! degree.
use vstd::prelude::*;
use crate::demo::pixels::{MAX_SIDE, downsample, downsampled, longer};

verus! {

/// How a mark is laid over a frame.
#[derive(Clone, Copy, Debug, PartialEq, Eq, Structural)]
pub enum MarkBlend {
    Normal,
    Multiply,
    Screen,
    Overlay,
    SoftLight,
}

/// A mark: its picture, and where and how it lies on a frame.
pub struct Watermark {
    pub path: String,
    pub rgba: Vec<u8>,
    pub w: u32,
    pub h: u32,
    pub x: i32,
    pub y: i32,
    pub scale: i32,
    pub angle: i32,
    pub opacity: i32,
    pub blend: MarkBlend,
}

/// A mark as a value.
pub struct Mark {
    pub path: Seq<char>,
    pub rgba: Seq<u8>,
    pub w: u32,
    pub h: u32,
    pub x: i32,
    pub y: i32,
    pub scale: i32,
    pub angle: i32,
    pub opacity: i32,
    pub blend: MarkBlend,
}

impl View for Watermark {
    type V = Mark;

    open spec fn view(&self) -> Mark {
        Mark {
            path: self.path@,
            rgba: self.rgba@,
            w: self.w,
            h: self.h,
            x: self.x,
            y: self.y,
            scale: self.scale,
            angle: self.angle,
            opacity: self.opacity,
            blend: self.blend,
        }
    }
}

/// The longest side of a mark's picture.
pub const MARK_SIDE: u32 = 2048;

/// A place of a pointer over a frame, kept away from the edges.
pub open spec fn kept_inside(v: i32) -> i32 {
    between(v, 20, 980)
}

/// A value kept between two limits.
pub open spec fn between(v: i32, lo: i32, hi: i32) -> i32 {
    if v < lo {
        lo
    } else if v > hi {
        hi
    } else {
        v
    }
}

/// A size of a mark: from a twentieth to four fifths of the frame's width.
pub open spec fn kept_scale(v: i32) -> i32 {
    between(v, 50, 800)
}

/// An angle of a mark: half a turn either way.
pub open spec fn kept_angle(v: i32) -> i32 {
    between(v, (-180_000) as i32, 180_000)
}

/// An opacity of a mark: from a twentieth up.
pub open spec fn kept_opacity(v: i32) -> i32 {
    between(v, 50, 1000)
}

/// The five places that a mark can be put to by a button.
#[derive(Clone, Copy, Debug, PartialEq, Eq, Structural)]
pub enum Corner {
    TopLeft,
    TopRight,
    Middle,
    BottomLeft,
    BottomRight,
}

impl Corner {
    pub open spec fn place(self) -> (i32, i32) {
        match self {
            Corner::TopLeft => (140, 120),
            Corner::TopRight => (860, 120),
            Corner::Middle => (500, 500),
            Corner::BottomLeft => (140, 880),
            Corner::BottomRight => (860, 880),
        }
    }
}

impl Mark {
    /// A mark as it is when its picture was just chosen: low on the right,
    /// upright, at seven tenths of its strength.
    pub open spec fn fresh(self, path: Seq<char>, src: Seq<u8>, w: u32, h: u32) -> bool {
        &&& self.path == path
        &&& (self.w as int, self.h as int, self.rgba) == downsampled(src, w, h, MARK_SIDE)
        &&& self.x == 860
        &&& self.y == 880
        &&& self.scale == 220
        &&& self.angle == 0
        &&& self.opacity == 700
        &&& self.blend is Normal
    }
}

impl Watermark {
    /// A mark of a picture that was opened.
    pub fn load_watermark(path: String, src: &Vec<u8>, w: u32, h: u32) -> (r: Watermark)
        requires
            1 <= w <= MAX_SIDE && 1 <= h <= MAX_SIDE,
            longer(w, h) <= MARK_SIDE || w * h <= 0x1_0000_0000,
            src.len() == 4 * w * h,
        ensures
            r@.fresh(path@, src@, w, h),
    {
        let small = downsample(src, w, h, MARK_SIDE);
        Watermark {
            path,
            rgba: small.rgba,
            w: small.w,
            h: small.h,
            x: 860,
            y: 880,
            scale: 220,
            angle: 0,
            opacity: 700,
            blend: MarkBlend::Normal,
        }
    }

    /// The same mark once more.
    pub fn copy(&self) -> (r: Watermark)
        ensures
            r@ == self@,
    {
        let rgba = self.rgba.clone();
        assert(rgba@ =~= self.rgba@);
        Watermark {
            path: self.path.as_str().to_owned(),
            rgba,
            w: self.w,
            h: self.h,
            x: self.x,
            y: self.y,
            scale: self.scale,
            angle: self.angle,
            opacity: self.opacity,
            blend: self.blend,
        }
    }

    /// Moves the mark under the pointer.
    pub fn drag_to(&mut self, x: i32, y: i32)
        ensures
            final(self)@ == (Mark { x: kept_inside(x), y: kept_inside(y), ..old(self)@ }),
    {
        self.x = keep_between(x, 20, 980);
        self.y = keep_between(y, 20, 980);
    }

    /// Changes the size; tells whether it was another.
    pub fn set_scale(&mut self, scale: i32) -> (r: bool)
        ensures
            final(self)@ == (Mark { scale: kept_scale(scale), ..old(self)@ }),
            r == (old(self)@.scale != kept_scale(scale)),
    {
        let before: i32 = self.scale;
        self.scale = keep_between(scale, 50, 800);
        before != self.scale
    }

    /// Changes the angle; tells whether it was another.
    pub fn set_angle(&mut self, angle: i32) -> (r: bool)
        ensures
            final(self)@ == (Mark { angle: kept_angle(angle), ..old(self)@ }),
            r == (old(self)@.angle != kept_angle(angle)),
    {
        let before: i32 = self.angle;
        self.angle = keep_between(angle, -180_000, 180_000);
        before != self.angle
    }

    /// Changes the opacity; tells whether it was another.
    pub fn set_opacity(&mut self, opacity: i32) -> (r: bool)
        ensures
            final(self)@ == (Mark { opacity: kept_opacity(opacity), ..old(self)@ }),
            r == (old(self)@.opacity != kept_opacity(opacity)),
    {
        let before: i32 = self.opacity;
        self.opacity = keep_between(opacity, 50, 1000);
        before != self.opacity
    }

    /// Moves the mark to a corner.
    pub fn put_to(&mut self, corner: Corner)
        ensures
            final(self)@ == (Mark { x: corner.place().0, y: corner.place().1, ..old(self)@ }),
    {
        let (x, y) = match corner {
            Corner::TopLeft => (140, 120),
            Corner::TopRight => (860, 120),
            Corner::Middle => (500, 500),
            Corner::BottomLeft => (140, 880),
            Corner::BottomRight => (860, 880),
        };
        self.x = x;
        self.y = y;
    }
}

fn keep_between(v: i32, lo: i32, hi: i32) -> (r: i32)
    ensures
        r == between(v, lo, hi),
{
    if v < lo {
        lo
    } else if v > hi {
        hi
    } else {
        v
    }
}

/// Settings of a watermark stay in their bounds, and within them as they are
/// set.
pub proof fn law_kept(v: i32)
    ensures
        20 <= kept_inside(v) <= 980,
        20 <= v <= 980 ==> kept_inside(v) == v,
        v < 20 ==> kept_inside(v) == 20,
        v > 980 ==> kept_inside(v) == 980,
        50 <= v <= 800 ==> kept_scale(v) == v,
        v < 50 ==> kept_scale(v) == 50,
        v > 800 ==> kept_scale(v) == 800,
        -180_000 <= v <= 180_000 ==> kept_angle(v) == v,
        v < -180_000 ==> kept_angle(v) == -180_000,
        v > 180_000 ==> kept_angle(v) == 180_000,
        50 <= v <= 1000 ==> kept_opacity(v) == v,
        v < 50 ==> kept_opacity(v) == 50,
        v > 1000 ==> kept_opacity(v) == 1000,
{
}

/// The corners are where their names say, as far from the edges on either side.
pub proof fn law_corners()
    ensures
        Corner::TopLeft.place() == (140i32, 120i32),
        Corner::TopRight.place().0 == 1000 - Corner::TopLeft.place().0,
        Corner::TopRight.place().1 == Corner::TopLeft.place().1,
        Corner::BottomLeft.place().0 == Corner::TopLeft.place().0,
        Corner::BottomLeft.place().1 == 1000 - Corner::TopLeft.place().1,
        Corner::BottomRight.place().0 == 1000 - Corner::TopLeft.place().0,
        Corner::BottomRight.place().1 == 1000 - Corner::TopLeft.place().1,
        Corner::Middle.place() == (500i32, 500i32),
{
}

} // verus!
