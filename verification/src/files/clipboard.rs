//! Copying and pasting pictures.
//!
//! A copied selection is also kept here, with the place it came from, which
//! the system clipboard does not hold. It counts only as long as the system
//! clipboard still has that copy.
use vstd::prelude::*;
use crate::files::state::{Clip, FileState, Files, SelectionClipboard, StatusToast};
use crate::text::{decimal, decimal_text, glue, glue3};

verus! {

/// The largest side of a whole canvas that goes to the system clipboard.
pub const MAX_CLIP_SIDE: u32 = 4096;

/// A picture from the system clipboard, or why there is none.
pub enum SystemPicture {
    Picture { width: u32, height: u32, rgba: Vec<u8> },
    Nothing(String),
}

/// What a paste takes.
pub enum PasteSource {
    /// The copied selection, at the place it came from.
    Selection(SelectionClipboard),
    /// Whatever the system clipboard has.
    System,
}

/// What the document said to a pasted picture.
pub enum PasteAnswer {
    Taken,
    /// It refused, with a message that is an error or not.
    Notice(String, bool),
    Refused,
}

/// What was copied.
#[derive(Clone, Copy, Debug, PartialEq, Eq, Structural)]
pub enum Copied {
    Floating,
    LayerSelection,
    Canvas,
}

impl Copied {
    pub open spec fn line(self) -> Seq<char> {
        match self {
            Copied::Floating => "Copied selection to clipboard"@,
            Copied::LayerSelection => "Copied layer selection to clipboard"@,
            Copied::Canvas => "Copied canvas to clipboard"@,
        }
    }
}

impl Files {
    /// Whether the copied selection is what the system clipboard has. Where
    /// both counts are known they decide; else the pixels do, and where there
    /// are none the selection stands.
    pub open spec fn selection_is_current(self, seq_now: Option<u32>, system: SystemPicture) -> bool {
        match self.selection_clipboard {
            None => false,
            Some(clip) => match (self.clipboard_seq, seq_now) {
                (Some(ours), Some(now)) => ours == now,
                _ => match system {
                    SystemPicture::Picture { width, height, rgba } => clip.width == width
                        && clip.height == height && clip.rgba == rgba@,
                    SystemPicture::Nothing(_) => true,
                },
            },
        }
    }
}

fn same_bytes(a: &Vec<u8>, b: &Vec<u8>) -> (r: bool)
    ensures
        r == (a@ == b@),
{
    if a.len() != b.len() {
        return false;
    }
    let n: usize = a.len();
    let mut i: usize = 0;
    while i < n
        invariant
            i <= n,
            n == a.len(),
            n == b.len(),
            forall|j: int| 0 <= j < i ==> a@[j] == b@[j],
        decreases n - i,
    {
        if a[i] != b[i] {
            return false;
        }
        i += 1;
    }
    assert(a@ =~= b@);
    true
}

/// The pixels of a region under a selection: nothing where the selection does
/// not reach, else the pixel's colour with its opacity scaled by the coverage.
pub open spec fn masked(region: Seq<u8>, cover: Seq<u8>) -> Seq<u8> {
    Seq::new(
        4 * cover.len(),
        |i: int|
            {
                let c = cover[i / 4];
                if c == 0 {
                    0
                } else if i % 4 < 3 {
                    region[i]
                } else {
                    (region[i] as int * c as int / 255) as u8
                }
            },
    )
}

/// The pixels of a region under a selection.
pub fn masked_pixels(region: &Vec<u8>, cover: &Vec<u8>) -> (r: Vec<u8>)
    requires
        region.len() == 4 * cover.len(),
    ensures
        r@ == masked(region@, cover@),
{
    let n: usize = cover.len();
    let mut out: Vec<u8> = Vec::new();
    let mut i: usize = 0;
    while i < n
        invariant
            i <= n,
            n == cover.len(),
            region.len() == 4 * n,
            out.len() == 4 * i,
            out@ == masked(region@, cover@).take(4 * i),
        decreases n - i,
    {
        let c: u8 = cover[i];
        let at: usize = 4 * i;
        let ghost before = out@;
        if c == 0 {
            out.push(0);
            out.push(0);
            out.push(0);
            out.push(0);
        } else {
            let a: u8 = region[at + 3];
            assert(a as int * c as int / 255 <= 255) by (nonlinear_arith)
                requires
                    a <= 255,
                    c <= 255,
            ;
            assert(a as int * c as int <= 255 * 255) by (nonlinear_arith)
                requires
                    a <= 255,
                    c <= 255,
            ;
            out.push(region[at]);
            out.push(region[at + 1]);
            out.push(region[at + 2]);
            out.push((a as u32 * c as u32 / 255) as u8);
        }
        proof {
            let m = masked(region@, cover@);
            assert(m[4 * i + 0] == out@[4 * i + 0]);
            assert(m[4 * i + 1] == out@[4 * i + 1]);
            assert(m[4 * i + 2] == out@[4 * i + 2]);
            assert(m[4 * i + 3] == out@[4 * i + 3]);
            assert(out@ =~= m.take(4 * (i + 1)));
        }
        i += 1;
    }
    assert(masked(region@, cover@).take(4 * n) =~= masked(region@, cover@));
    out
}

/// A number as an unsigned one: the nearest that there is.
pub open spec fn unsigned(n: int) -> int {
    if n < 0 {
        0
    } else if n > u32::MAX {
        u32::MAX as int
    } else {
        n
    }
}

fn to_unsigned(n: i64) -> (r: u32)
    ensures
        r == unsigned(n as int),
{
    if n < 0 {
        0
    } else if n > 0xffff_ffff {
        0xffff_ffff
    } else {
        n as u32
    }
}

pub open spec fn larger(a: int, b: int) -> int {
    if a < b {
        b
    } else {
        a
    }
}

pub open spec fn smaller(a: int, b: int) -> int {
    if b < a {
        b
    } else {
        a
    }
}

/// One axis of the region that a selection copies: the selection, between its
/// rounded-out edges, within the stage and the document.
pub open spec fn copy_span(from: int, to: int, stage_from: int, stage_len: int, side: int) -> (
    int,
    int,
) {
    (
        unsigned(larger(larger(from, stage_from), 0)),
        unsigned(smaller(smaller(to, stage_from + stage_len), side)),
    )
}

/// One axis of the region that a selection copies; none where it is empty.
pub fn copy_extent(from: i64, to: i64, stage_from: i32, stage_len: i32, side: u32) -> (r: Option<
    (u32, u32),
>)
    ensures
        ({
            let (a, b) = copy_span(
                from as int,
                to as int,
                stage_from as int,
                stage_len as int,
                side as int,
            );
            if a < b {
                r == Some((a as u32, b as u32))
            } else {
                r is None
            }
        }),
{
    let mut a: i64 = from;
    if a < stage_from as i64 {
        a = stage_from as i64;
    }
    if a < 0 {
        a = 0;
    }
    let mut b: i64 = to;
    let end: i64 = stage_from as i64 + stage_len as i64;
    if end < b {
        b = end;
    }
    if (side as i64) < b {
        b = side as i64;
    }
    let lo: u32 = to_unsigned(a);
    let hi: u32 = to_unsigned(b);
    if lo < hi {
        Some((lo, hi))
    } else {
        None
    }
}

impl FileState {
    /// Whether the copied selection is what the system clipboard has.
    pub fn in_app_clipboard_is_current(&self, seq_now: Option<u32>, system: &SystemPicture) -> (r:
        bool)
        ensures
            r == self@.selection_is_current(seq_now, *system),
    {
        match &self.selection_clipboard {
            None => false,
            Some(clip) => match (self.clipboard_seq, seq_now) {
                (Some(ours), Some(now)) => ours == now,
                _ => match system {
                    SystemPicture::Picture { width, height, rgba } => clip.width == *width
                        && clip.height == *height && same_bytes(&clip.rgba, rgba),
                    SystemPicture::Nothing(_) => true,
                },
            },
        }
    }

    /// Whether a paste can begin: not while a transform is under way.
    pub fn begin_paste(&mut self, transforming: bool, now: u64) -> (r: bool)
        ensures
            r == !transforming,
            final(self)@ == (if transforming {
                old(self)@.told("Finish transform (Apply/Cancel) before paste"@, true, now)
            } else {
                old(self)@
            }),
    {
        if transforming {
            self.set_status("Finish transform (Apply/Cancel) before paste".to_owned(), true, now);
        }
        !transforming
    }

    /// What to paste. A copied selection that is no longer current is
    /// forgotten.
    pub fn paste_source(&mut self, seq_now: Option<u32>, system: &SystemPicture) -> (r: PasteSource)
        ensures
            old(self)@.selection_is_current(seq_now, *system) ==> {
                &&& r matches PasteSource::Selection(c)
                &&& Some(c@) == old(self)@.selection_clipboard
                &&& final(self)@ == old(self)@
            },
            !old(self)@.selection_is_current(seq_now, *system) ==> r is System && final(self)@ == (
            Files { selection_clipboard: None, clipboard_seq: None, ..old(self)@ }),
    {
        if self.in_app_clipboard_is_current(seq_now, system) {
            match &self.selection_clipboard {
                Some(c) => {
                    return PasteSource::Selection(c.copy());
                },
                None => {},
            }
        }
        self.selection_clipboard = None;
        self.clipboard_seq = None;
        PasteSource::System
    }

    fn note_pasted(&mut self, msg: String, now: u64)
        ensures
            final(self)@ == old(self)@.told(msg@, false, now).with_toast(msg@, now),
    {
        self.set_status(msg.as_str().to_owned(), false, now);
        self.toast = Some(StatusToast { msg, error: false, started: now });
    }

    /// After the document took the copied selection, or not: tells whether the
    /// paste is done. Where it is not, the system clipboard is tried.
    pub fn pasted_selection(&mut self, width: u32, height: u32, taken: bool, now: u64) -> (r: bool)
        ensures
            r == taken,
            final(self)@ == (if taken {
                let line = "Pasted "@ + size_text(width, height) + " at selection origin"@;
                old(self)@.told(line, false, now).with_toast(line, now)
            } else {
                old(self)@
            }),
    {
        if taken {
            let size = size_line(width, height);
            self.note_pasted(glue3("Pasted ", size.as_str(), " at selection origin"), now);
        }
        taken
    }

    /// After the document was handed the system clipboard's picture: tells
    /// whether it took it.
    pub fn pasted_picture(&mut self, width: u32, height: u32, answer: PasteAnswer, now: u64) -> (r:
        bool)
        ensures
            r == answer is Taken,
            final(self)@ == (match answer {
                PasteAnswer::Taken => {
                    let line = "Pasted "@ + size_text(width, height)
                        + " as new layer (stage center)"@;
                    old(self)@.told(line, false, now).with_toast(line, now)
                },
                PasteAnswer::Notice(m, e) => old(self)@.told(m@, e, now),
                PasteAnswer::Refused => old(self)@.told("Paste refused"@, true, now),
            }),
    {
        match answer {
            PasteAnswer::Taken => {
                let size = size_line(width, height);
                self.note_pasted(
                    glue3("Pasted ", size.as_str(), " as new layer (stage center)"),
                    now,
                );
                true
            },
            PasteAnswer::Notice(m, e) => {
                self.set_status(m, e, now);
                false
            },
            PasteAnswer::Refused => {
                self.set_status("Paste refused".to_owned(), true, now);
                false
            },
        }
    }

    /// After the system clipboard had no picture.
    pub fn paste_failed(&mut self, why: String, now: u64)
        ensures
            final(self)@ == old(self)@.told(why@, true, now),
    {
        self.set_status(why, true, now);
    }

    /// Keeps a floating selection and the place it is at.
    pub fn copy_floating(&mut self, width: u32, height: u32, pixels: Vec<u8>, x: i32, y: i32)
        ensures
            final(self)@ == (Files {
                selection_clipboard: Some(
                    Clip { width, height, rgba: pixels@, origin_x: x, origin_y: y },
                ),
                ..old(self)@
            }),
    {
        self.selection_clipboard = Some(
            SelectionClipboard { width, height, rgba: pixels, origin_x: x, origin_y: y },
        );
    }

    /// Keeps what a selection covers of a layer and the place it is at:
    /// columns `x.0` to `x.1` and rows `y.0` to `y.1`. The pixels are given
    /// back for the system clipboard.
    pub fn copy_layer_selection(
        &mut self,
        x: (u32, u32),
        y: (u32, u32),
        region: &Vec<u8>,
        cover: &Vec<u8>,
    ) -> (r: Vec<u8>)
        requires
            x.0 < x.1,
            y.0 < y.1,
            cover.len() == (x.1 - x.0) * (y.1 - y.0),
            region.len() == 4 * cover.len(),
            x.0 <= i32::MAX,
            y.0 <= i32::MAX,
        ensures
            r@ == masked(region@, cover@),
            final(self)@ == (Files {
                selection_clipboard: Some(
                    Clip {
                        width: (x.1 - x.0) as u32,
                        height: (y.1 - y.0) as u32,
                        rgba: masked(region@, cover@),
                        origin_x: x.0 as i32,
                        origin_y: y.0 as i32,
                    },
                ),
                ..old(self)@
            }),
    {
        let rgba = masked_pixels(region, cover);
        let kept = masked_pixels(region, cover);
        self.selection_clipboard = Some(
            SelectionClipboard {
                width: x.1 - x.0,
                height: y.1 - y.0,
                rgba: kept,
                origin_x: x.0 as i32,
                origin_y: y.0 as i32,
            },
        );
        rgba
    }

    /// Begins to copy the whole canvas; tells whether it is small enough.
    pub fn copy_canvas(&mut self, width: u32, height: u32, now: u64) -> (r: bool)
        ensures
            r == (width <= MAX_CLIP_SIDE && height <= MAX_CLIP_SIDE),
            ({
                let cleared = Files {
                    selection_clipboard: None,
                    clipboard_seq: None,
                    ..old(self)@
                };
                final(self)@ == (if r {
                    cleared
                } else {
                    cleared.told(
                        "Copy refused: canvas larger than 4096px (use selection or export)"@,
                        true,
                        now,
                    )
                })
            }),
    {
        self.selection_clipboard = None;
        self.clipboard_seq = None;
        if width > MAX_CLIP_SIDE || height > MAX_CLIP_SIDE {
            self.set_status(
                "Copy refused: canvas larger than 4096px (use selection or export)".to_owned(),
                true,
                now,
            );
            return false;
        }
        true
    }

    /// After the system clipboard took the copy, or not. `seq_now` is its count
    /// then.
    pub fn copied(
        &mut self,
        what: Copied,
        result: Result<(), String>,
        seq_now: Option<u32>,
        now: u64,
    )
        ensures
            final(self)@ == (match result {
                Result::Ok(_) => (Files { clipboard_seq: seq_now, ..old(self)@ }).told(
                    what.line(),
                    false,
                    now,
                ),
                Result::Err(e) => (if what is Canvas {
                    old(self)@
                } else {
                    Files { clipboard_seq: None, ..old(self)@ }
                }).told("Copy failed: "@ + e@, true, now),
            }),
    {
        match result {
            Result::Ok(_) => {
                self.clipboard_seq = seq_now;
                let line = match what {
                    Copied::Floating => "Copied selection to clipboard",
                    Copied::LayerSelection => "Copied layer selection to clipboard",
                    Copied::Canvas => "Copied canvas to clipboard",
                };
                self.set_status(line.to_owned(), false, now);
            },
            Result::Err(e) => {
                if what != Copied::Canvas {
                    self.clipboard_seq = None;
                }
                self.set_status(glue("Copy failed: ", e.as_str()), true, now);
            },
        }
    }
}

impl SelectionClipboard {
    pub fn copy(&self) -> (r: SelectionClipboard)
        ensures
            r@ == self@,
    {
        let n: usize = self.rgba.len();
        let mut rgba: Vec<u8> = Vec::new();
        let mut i: usize = 0;
        while i < n
            invariant
                i <= n,
                n == self.rgba.len(),
                rgba@ == self.rgba@.take(i as int),
            decreases n - i,
        {
            rgba.push(self.rgba[i]);
            i += 1;
            assert(rgba@ =~= self.rgba@.take(i as int));
        }
        assert(rgba@ =~= self.rgba@);
        SelectionClipboard {
            width: self.width,
            height: self.height,
            rgba,
            origin_x: self.origin_x,
            origin_y: self.origin_y,
        }
    }
}

/// A size, as `width×height`.
pub open spec fn size_text(width: u32, height: u32) -> Seq<char> {
    decimal(width as nat) + "×"@ + decimal(height as nat)
}

fn size_line(width: u32, height: u32) -> (r: String)
    ensures
        r@ == size_text(width, height),
{
    let w = decimal_text(width as u64);
    let h = decimal_text(height as u64);
    glue3(w.as_str(), "×", h.as_str())
}

/// What was copied last is what a paste takes: right after the system
/// clipboard took a selection, that selection is current, until the system
/// clipboard's count moves on.
pub proof fn law_last_copy_wins(f: Files, clip: Clip, ours: u32, now: u32, system: SystemPicture)
    ensures
        (Files {
            selection_clipboard: Some(clip),
            clipboard_seq: Some(ours),
            ..f
        }).selection_is_current(Some(now), system) == (ours == now),
{
}

/// A pixel keeps its colour or vanishes, and never gains opacity; full
/// coverage leaves every pixel as it is.
pub proof fn law_masked(region: Seq<u8>, cover: Seq<u8>, i: int)
    requires
        region.len() == 4 * cover.len(),
        0 <= i < region.len(),
    ensures
        masked(region, cover)[i] <= region[i],
        cover[i / 4] == 255 ==> masked(region, cover)[i] == region[i],
        cover[i / 4] == 0 ==> masked(region, cover)[i] == 0,
{
    let c = cover[i / 4] as int;
    let a = region[i] as int;
    assert(a * c / 255 <= a && 0 <= a * c / 255) by (nonlinear_arith)
        requires
            0 <= a <= 255,
            0 <= c <= 255,
    ;
    assert(c == 255 ==> a * c / 255 == a) by (nonlinear_arith)
        requires
            0 <= a <= 255,
            0 <= c <= 255,
    ;
}

} // verus!
