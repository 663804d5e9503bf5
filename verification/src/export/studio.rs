//! The window in which an export's options are chosen, with a live preview.
//!
//! The clock counts milliseconds.
use vstd::prelude::*;
use crate::browser::state::{next_gen, step_gen};
use crate::export::options::{RasterExportOpts, mixed};
use crate::files::format::ExportFormat;
use crate::paths::{file_name_or, tells_name_or};

verus! {

/// The largest side of a preview.
pub const PREVIEW_MAX_SIDE: u32 = 1280;

/// Milliseconds for which options rest before a preview is made.
pub const DEBOUNCE: u64 = 50;

/// The window as a value.
pub struct Studio {
    pub open: bool,
    pub path: Seq<char>,
    pub format: ExportFormat,
    pub opts: RasterExportOpts,
    pub src_w: u32,
    pub src_h: u32,
    pub src_rgba: Seq<u8>,
    pub has_preview: bool,
    pub preview_key: u64,
    pub est_bytes: Option<u64>,
    pub job_gen: u64,
    pub inflight: Option<u64>,
    pub debounce_until: u64,
    pub debounce_key: u64,
}

pub struct ExportStudioState {
    pub open: bool,
    pub path: String,
    pub format: ExportFormat,
    pub opts: RasterExportOpts,
    /// The picture that previews are made of.
    pub src_w: u32,
    pub src_h: u32,
    pub src_rgba: Vec<u8>,
    pub has_preview: bool,
    /// The key of the options that the preview shows.
    pub preview_key: u64,
    pub est_bytes: Option<u64>,
    /// Counts the previews that were asked for.
    pub job_gen: u64,
    /// The key of the options that a preview is being made of.
    pub inflight: Option<u64>,
    pub debounce_until: u64,
    pub debounce_key: u64,
}

impl View for ExportStudioState {
    type V = Studio;

    open spec fn view(&self) -> Studio {
        Studio {
            open: self.open,
            path: self.path@,
            format: self.format,
            opts: self.opts,
            src_w: self.src_w,
            src_h: self.src_h,
            src_rgba: self.src_rgba@,
            has_preview: self.has_preview,
            preview_key: self.preview_key,
            est_bytes: self.est_bytes,
            job_gen: self.job_gen,
            inflight: self.inflight,
            debounce_until: self.debounce_until,
            debounce_key: self.debounce_key,
        }
    }
}

/// A preview that was made.
pub struct PreviewDone {
    pub gen: u64,
    pub key: u64,
    pub est_bytes: Option<u64>,
}

/// What a confirmed export is.
pub struct ExportStudioApply {
    pub path: String,
    pub format: ExportFormat,
    pub opts: RasterExportOpts,
}

/// What a frame asks for.
#[derive(Clone, Copy, Debug)]
pub struct FrameWork {
    /// Make a preview of this number and key.
    pub make: Option<(u64, u64)>,
    /// Draw another frame.
    pub repaint: bool,
}

impl Studio {
    /// The key of the options as the format has them.
    pub open spec fn key(self) -> u64 {
        mixed(self.opts.fitted(self.format).numbers(self.format))
    }

    /// The window open on a picture.
    pub open spec fn opened(
        self,
        path: Seq<char>,
        format: ExportFormat,
        w: u32,
        h: u32,
        rgba: Seq<u8>,
    ) -> Studio {
        Studio {
            open: true,
            path,
            format,
            opts: self.opts,
            src_w: w,
            src_h: h,
            src_rgba: rgba,
            has_preview: false,
            preview_key: 0,
            est_bytes: None,
            job_gen: next_gen(self.job_gen),
            inflight: None,
            debounce_until: 0,
            debounce_key: 0,
        }
    }

    /// After a preview came. Only the last that was asked for counts.
    pub open spec fn received(self, done: PreviewDone) -> Studio {
        if done.gen == self.job_gen {
            Studio {
                inflight: None,
                has_preview: true,
                est_bytes: done.est_bytes,
                preview_key: done.key,
                ..self
            }
        } else {
            self
        }
    }

    /// When a preview of the present options may be made.
    pub open spec fn due_at(self, now: u64) -> int {
        if self.debounce_key != self.key() {
            now + DEBOUNCE
        } else {
            self.debounce_until as int
        }
    }

    /// Whether a preview is made now: the options have changed since the last
    /// one, have rested, and are not being worked on.
    pub open spec fn makes(self, now: u64) -> bool {
        self.key() != self.preview_key && now >= self.due_at(now) && self.inflight != Some(
            self.key(),
        )
    }

    /// The state after a frame.
    pub open spec fn framed(self, now: u64) -> Studio {
        if self.key() == self.preview_key {
            self
        } else {
            let waits = Studio {
                debounce_key: self.key(),
                debounce_until: self.due_at(now) as u64,
                ..self
            };
            if self.makes(now) {
                Studio {
                    job_gen: next_gen(self.job_gen),
                    inflight: Some(self.key()),
                    ..waits
                }
            } else {
                waits
            }
        }
    }
}

impl ExportStudioState {
    /// The window before it was ever opened.
    pub fn new(opts: RasterExportOpts) -> (r: ExportStudioState)
        ensures
            !r@.open,
            r@.path.len() == 0,
            r@.format is Png,
            r@.opts == opts,
            r@.src_w == 0 && r@.src_h == 0 && r@.src_rgba.len() == 0,
            !r@.has_preview,
            r@.preview_key == 0,
            r@.est_bytes is None,
            r@.job_gen == 0,
            r@.inflight is None,
            r@.debounce_until == 0 && r@.debounce_key == 0,
    {
        ExportStudioState {
            open: false,
            path: String::new(),
            format: ExportFormat::Png,
            opts,
            src_w: 0,
            src_h: 0,
            src_rgba: Vec::new(),
            has_preview: false,
            preview_key: 0,
            est_bytes: None,
            job_gen: 0,
            inflight: None,
            debounce_until: 0,
            debounce_key: 0,
        }
    }

    pub fn is_open(&self) -> (r: bool)
        ensures
            r == self@.open,
    {
        self.open
    }

    /// Opens the window on a picture that was made small enough.
    pub fn open_for(&mut self, path: String, format: ExportFormat, w: u32, h: u32, rgba: Vec<u8>)
        ensures
            final(self)@ == old(self)@.opened(path@, format, w, h, rgba@),
    {
        self.open = true;
        self.path = path;
        self.format = format;
        self.src_w = w;
        self.src_h = h;
        self.src_rgba = rgba;
        self.has_preview = false;
        self.preview_key = 0;
        self.est_bytes = None;
        self.job_gen = step_gen(self.job_gen);
        self.inflight = None;
        self.debounce_until = 0;
        self.debounce_key = 0;
    }

    /// The options that a preview is made with.
    pub fn preview_opts(&self) -> (r: RasterExportOpts)
        ensures
            r == self@.opts.fitted(self@.format),
    {
        self.opts.fit(self.format)
    }

    /// The key of the options.
    pub fn opts_key(&self) -> (r: u64)
        ensures
            r == self@.key(),
    {
        let opts = self.preview_opts();
        opts.key(self.format)
    }

    /// Takes a preview that was made; tells whether to show it.
    pub fn receive(&mut self, done: PreviewDone) -> (r: bool)
        ensures
            final(self)@ == old(self)@.received(done),
            r == (done.gen == old(self)@.job_gen),
    {
        if done.gen != self.job_gen {
            return false;
        }
        self.inflight = None;
        self.has_preview = true;
        self.est_bytes = done.est_bytes;
        self.preview_key = done.key;
        true
    }

    /// Decides in a frame whether a preview is made.
    pub fn frame(&mut self, now: u64) -> (r: FrameWork)
        requires
            now <= u64::MAX - DEBOUNCE,
        ensures
            final(self)@ == old(self)@.framed(now),
            r.make == (if old(self)@.makes(now) {
                Some((final(self)@.job_gen, old(self)@.key()))
            } else {
                None
            }),
            r.repaint == (old(self)@.key() != old(self)@.preview_key || old(self)@.inflight
                is Some),
    {
        let key: u64 = self.opts_key();
        if key == self.preview_key {
            return FrameWork { make: None, repaint: self.inflight.is_some() };
        }
        if self.debounce_key != key {
            self.debounce_key = key;
            self.debounce_until = now + DEBOUNCE;
        }
        if now >= self.debounce_until && self.inflight != Some(key) {
            self.job_gen = step_gen(self.job_gen);
            self.inflight = Some(key);
            FrameWork { make: Some((self.job_gen, key)), repaint: true }
        } else {
            FrameWork { make: None, repaint: true }
        }
    }

    /// Closes the window without an export.
    pub fn cancel(&mut self)
        ensures
            final(self)@ == (Studio { open: false, ..old(self)@ }),
    {
        self.open = false;
    }

    /// Closes the window with the export that was chosen.
    pub fn confirm(&mut self) -> (r: ExportStudioApply)
        ensures
            final(self)@ == (Studio { open: false, ..old(self)@ }),
            r.path@ == old(self)@.path,
            r.format == old(self)@.format,
            r.opts == old(self)@.opts.fitted(old(self)@.format),
    {
        self.open = false;
        ExportStudioApply {
            path: self.path.as_str().to_owned(),
            format: self.format,
            opts: self.opts.fit(self.format),
        }
    }

    /// The name of the file to be written.
    pub fn shown_name(&self) -> (r: String)
        ensures
            tells_name_or(self@.path, "export"@, r@),
    {
        file_name_or(self.path.as_str(), "export")
    }
}

/// A preview of options that are no longer the last asked for is not shown.
pub proof fn law_only_last_preview_counts(s: Studio, now: u64, done: PreviewDone)
    requires
        s.makes(now),
        done.gen == s.job_gen,
    ensures
        s.framed(now).received(done) == s.framed(now),
{
}

/// Once the preview of the present options came, nothing is made until they
/// change.
pub proof fn law_settled_preview(s: Studio, now: u64, est: Option<u64>, later: u64)
    requires
        s.makes(now),
    ensures
        ({
            let asked = s.framed(now);
            let done = PreviewDone { gen: asked.job_gen, key: s.key(), est_bytes: est };
            &&& asked.received(done).preview_key == s.key()
            &&& !asked.received(done).makes(later)
        }),
{
    assert(s.framed(now).key() == s.key());
}

/// Options are asked for once while they are being worked on.
pub proof fn law_asked_once(s: Studio, now: u64, later: u64)
    requires
        s.makes(now),
    ensures
        !s.framed(now).makes(later),
{
    assert(s.framed(now).key() == s.key());
}

/// Opening the studio takes the path, the format and the picture that it is
/// given, keeps the options, and forgets what was shown and asked for before.
pub proof fn law_opened(
    s: Studio,
    path: Seq<char>,
    format: ExportFormat,
    w: u32,
    h: u32,
    rgba: Seq<u8>,
    done: PreviewDone,
)
    ensures
        ({
            let o = s.opened(path, format, w, h, rgba);
            &&& o.open && o.path == path && o.format == format
            &&& o.src_w == w && o.src_h == h && o.src_rgba == rgba
            &&& o.opts == s.opts
            &&& !o.has_preview && o.est_bytes is None && o.inflight is None
            &&& done.gen == s.job_gen ==> o.received(done) == o
        }),
{
}

/// A preview is made fifty milliseconds after the options were last changed, not
/// sooner; with options as they are shown none is made.
pub proof fn law_waits_for_changes(s: Studio, now: u64, later: u64)
    requires
        s.key() != s.preview_key,
        s.debounce_key != s.key(),
        s.inflight != Some(s.key()),
        now <= u64::MAX - 50,
    ensures
        !s.makes(now),
        s.framed(now).key() == s.key(),
        later >= now + 50 ==> s.framed(now).makes(later),
        later < now + 50 ==> !s.framed(now).makes(later),
        (Studio { preview_key: s.key(), ..s }).framed(now) == (Studio {
            preview_key: s.key(),
            ..s
        }),
{
}

/// A preview that is done shows what it was made of, and its size.
pub proof fn law_received(s: Studio, done: PreviewDone)
    ensures
        done.gen == s.job_gen ==> s.received(done).has_preview && s.received(done).preview_key
            == done.key && s.received(done).est_bytes == done.est_bytes && s.received(
            done,
        ).inflight is None,
        done.gen != s.job_gen ==> s.received(done) == s,
        s.received(done).opts == s.opts,
{
}

} // verus!
