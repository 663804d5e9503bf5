//! The player of a recording.
//!
//! Times are whole microseconds, the times of recorded events milliseconds, a
//! speed is in hundredths, a volume in thousandths. What draws, plays sound or
//! touches the disk stands outside: it is told what to do and tells what came
//! of it.
use vstd::prelude::*;
use crate::browser::labels::{truncate_name, truncated};
use crate::demo::watermark::{
    Corner, Mark, MarkBlend, Watermark, kept_angle, kept_inside, kept_opacity, kept_scale,
};
use crate::numbers::{
    SINGLE, float_unit, lemma_single_exact, nearest_float, round_even, single_of, through_single,
};
use crate::paths::{file_name_or, file_stem_or, tells_name_or, tells_stem_or};
use crate::text::{copy_opt, glue3, opt_view, same_text};

verus! {

/// What the player wants the user asked for.
#[derive(Clone, Copy, Debug, PartialEq, Eq, Structural)]
pub enum DemoPlayerRequest {
    PickWatermark,
    PickAudio,
    SaveVideo,
}

/// The kinds of video.
#[derive(Clone, Copy, Debug, PartialEq, Eq, Structural)]
pub enum VideoFormat {
    Mp4,
    WebM,
    Gif,
}

impl VideoFormat {
    pub open spec fn ending(self) -> Seq<char> {
        match self {
            VideoFormat::Mp4 => "mp4"@,
            VideoFormat::WebM => "webm"@,
            VideoFormat::Gif => "gif"@,
        }
    }

    /// The extension of its files.
    pub fn ext(self) -> (r: &'static str)
        ensures
            r@ == self.ending(),
    {
        match self {
            VideoFormat::Mp4 => "mp4",
            VideoFormat::WebM => "webm",
            VideoFormat::Gif => "gif",
        }
    }
}

/// How strongly a video is compressed. Presets other than the balanced one go
/// by their number.
#[derive(Clone, Copy, Debug, PartialEq, Eq, Structural)]
pub enum CompressPreset {
    Balanced,
    Other(u8),
}

/// What an export is made with.
pub struct ExportOpts {
    pub speed: u32,
    pub compress: CompressPreset,
    pub watermark: Option<Watermark>,
    pub audio_path: Option<String>,
    pub audio_volume: u32,
}

/// A recording that was read: when its events happened, whether it begins with
/// a picture, and how large it is on disk.
pub struct Recording {
    pub events: Vec<u32>,
    pub has_baseline: bool,
    pub encoded_bytes: Option<u64>,
}

/// What an export that runs has to tell.
pub enum ExportEvent {
    Saved(String),
    Failed(String),
    Nothing,
    Gone,
}

/// What a jump asks for: start the picture over, then apply what happened until
/// then.
#[derive(Clone, Copy, Debug, PartialEq, Eq, Structural)]
pub struct SeekWork {
    pub rewind: bool,
    pub until_ms: u32,
}

/// What is to be done about the sound before it follows the picture.
#[derive(Clone, Copy, Debug, PartialEq, Eq, Structural)]
pub enum SoundNeed {
    /// Nothing to do.
    Leave,
    /// Sound was ours and is no longer wanted.
    Pause,
    /// The wanted file must be opened first.
    Open,
    /// The wanted file is open.
    Ready,
}

/// How the sound follows the picture.
#[derive(Clone, Copy, Debug, PartialEq, Eq, Structural)]
pub struct SoundWork {
    pub volume: u32,
    pub seek_to: Option<u64>,
    /// Start where true, pause where false.
    pub play: Option<bool>,
}

/// The player as a value.
pub struct Player {
    pub title: Seq<char>,
    pub has_file: bool,
    pub events: Seq<u32>,
    pub applied: usize,
    pub time: u64,
    pub duration: u64,
    pub playing: bool,
    pub speed: u32,
    pub preview_dirty: bool,
    pub encoded_bytes: Option<u64>,
    pub exporting: bool,
    pub export_msg: Option<Seq<char>>,
    pub request: Option<DemoPlayerRequest>,
    pub watermark: Option<Mark>,
    pub wm_dirty: bool,
    pub wm_drag: bool,
    pub cached: bool,
    pub music_path: Option<Seq<char>>,
    pub music_volume: u32,
    pub owns_audio: bool,
    pub compress: CompressPreset,
    pub video_format: VideoFormat,
}

pub struct DemoPlayer {
    pub title: String,
    pub has_file: bool,
    pub events: Vec<u32>,
    /// How many events the picture shows.
    pub applied: usize,
    pub time: u64,
    pub duration: u64,
    pub playing: bool,
    pub speed: u32,
    pub preview_dirty: bool,
    pub encoded_bytes: Option<u64>,
    pub exporting: bool,
    pub export_msg: Option<String>,
    pub request: Option<DemoPlayerRequest>,
    pub watermark: Option<Watermark>,
    pub wm_dirty: bool,
    pub wm_drag: bool,
    /// Whether a frame is kept.
    pub cached: bool,
    pub music_path: Option<String>,
    pub music_volume: u32,
    pub owns_audio: bool,
    pub compress: CompressPreset,
    pub video_format: VideoFormat,
}

pub open spec fn mark_view(w: Option<Watermark>) -> Option<Mark> {
    match w {
        Some(m) => Some(m@),
        None => None,
    }
}

impl View for DemoPlayer {
    type V = Player;

    open spec fn view(&self) -> Player {
        Player {
            title: self.title@,
            has_file: self.has_file,
            events: self.events@,
            applied: self.applied,
            time: self.time,
            duration: self.duration,
            playing: self.playing,
            speed: self.speed,
            preview_dirty: self.preview_dirty,
            encoded_bytes: self.encoded_bytes,
            exporting: self.exporting,
            export_msg: opt_view(self.export_msg),
            request: self.request,
            watermark: mark_view(self.watermark),
            wm_dirty: self.wm_dirty,
            wm_drag: self.wm_drag,
            cached: self.cached,
            music_path: opt_view(self.music_path),
            music_volume: self.music_volume,
            owns_audio: self.owns_audio,
            compress: self.compress,
            video_format: self.video_format,
        }
    }
}

/// The longest pause, in microseconds, that is played.
pub const LONGEST_PAUSE: u64 = 300_000;

/// The longest frame, in microseconds, that counts in full.
pub const LONGEST_FRAME: u64 = 100_000;

/// How far, in microseconds, sound may stray from the picture.
pub const STRAY: u64 = 450_000;

/// The speeds that the user chooses from.
pub open spec fn speeds() -> Seq<u32> {
    seq![25u32, 50, 75, 100, 200, 400, 800]
}

/// How long a recording is: until its last event, at least a millisecond.
pub open spec fn length_of(events: Seq<u32>) -> u64 {
    if events.len() == 0 || events.last() == 0 {
        1000
    } else {
        (through_single(events.last()) * 1000) as u64
    }
}

/// When an event happens, in microseconds.
pub open spec fn event_time(ms: u32) -> int {
    through_single(ms) * 1000
}

pub open spec fn lesser(a: int, b: int) -> int {
    if a < b {
        a
    } else {
        b
    }
}

impl Player {
    /// A player that has nothing to play.
    pub open spec fn empty(title: Seq<char>) -> Player {
        Player {
            title,
            has_file: false,
            events: Seq::empty(),
            applied: 0,
            time: 0,
            duration: 1000,
            playing: false,
            speed: 400,
            preview_dirty: false,
            encoded_bytes: None,
            exporting: false,
            export_msg: None,
            request: None,
            watermark: None,
            wm_dirty: false,
            wm_drag: false,
            cached: false,
            music_path: None,
            music_volume: 800,
            owns_audio: false,
            compress: CompressPreset::Balanced,
            video_format: VideoFormat::Mp4,
        }
    }

    /// A player that starts to play a recording.
    pub open spec fn started(title: Seq<char>, events: Seq<u32>, encoded: Option<u64>) -> Player {
        Player {
            has_file: true,
            events,
            duration: length_of(events),
            playing: true,
            preview_dirty: true,
            encoded_bytes: encoded,
            ..Player::empty(title)
        }
    }

    /// A player of what was read, if anything.
    pub open spec fn opened(title: Seq<char>, found: Option<Recording>) -> Player {
        match found {
            Some(f) => if f.events.len() == 0 && !f.has_baseline {
                Player::empty(title)
            } else {
                Player::started(title, f.events@, f.encoded_bytes)
            },
            None => Player::empty(title),
        }
    }

    /// After an export began.
    pub open spec fn exporting_to(self, format: VideoFormat) -> Player {
        if self.exporting || !self.has_file {
            self
        } else {
            Player {
                video_format: format,
                exporting: true,
                export_msg: Some("Экспорт видео…"@),
                playing: false,
                ..self
            }
        }
    }

    /// After an export told something.
    pub open spec fn export_told(self, event: ExportEvent) -> Player {
        if !self.exporting {
            self
        } else {
            match event {
                ExportEvent::Saved(path) => Player {
                    exporting: false,
                    export_msg: Some("Видео сохранено"@ + " "@ + path@),
                    ..self
                },
                ExportEvent::Failed(msg) => Player {
                    exporting: false,
                    export_msg: Some(msg@),
                    ..self
                },
                ExportEvent::Nothing => self,
                ExportEvent::Gone => Player { exporting: false, ..self },
            }
        }
    }

    /// Where a jump ends.
    pub open spec fn jump(self, time: u64) -> u64 {
        lesser(time as int, self.duration as int) as u64
    }

    /// Whether a jump goes back, by more than half a millisecond.
    pub open spec fn goes_back(self, time: u64) -> bool {
        self.jump(time) + 500 < self.time
    }

    /// After a jump.
    pub open spec fn sought(self, time: u64) -> Player {
        if !self.has_file {
            self
        } else if self.goes_back(time) {
            Player { time: self.jump(time), applied: 0, preview_dirty: true, ..self }
        } else {
            Player { time: self.jump(time), ..self }
        }
    }

    /// After the picture was brought to show so many events.
    pub open spec fn showing(self, next: usize) -> Player {
        if next != self.applied {
            Player { applied: next, preview_dirty: true, ..self }
        } else {
            self
        }
    }

    /// Whether time goes on.
    pub open spec fn runs(self) -> bool {
        self.playing && self.has_file && !self.exporting
    }

    /// The time from which a frame goes on: a long pause is left out.
    pub open spec fn from_time(self) -> int {
        if self.applied < self.events.len() && event_time(self.events[self.applied as int])
            > self.time + LONGEST_PAUSE {
            event_time(self.events[self.applied as int])
        } else {
            self.time as int
        }
    }

    /// How far a frame of so many microseconds takes the recording: no frame
    /// counts for more than a tenth of a second.
    pub open spec fn step_of(self, frame: u64) -> int {
        lesser(frame as int, LONGEST_FRAME as int) * self.speed / 100
    }

    /// After a frame of so many microseconds.
    pub open spec fn advanced(self, frame: u64) -> Player {
        if !self.runs() {
            self
        } else {
            let t = lesser(self.from_time() + self.step_of(frame), self.duration as int) as u64;
            Player { time: t, playing: t < self.duration, ..self }
        }
    }

    /// The milliseconds to wait for the next frame.
    pub open spec fn wait(self) -> int {
        if self.applied < self.events.len() {
            let at = event_time(self.events[self.applied as int]);
            let speed = if self.speed < 10 {
                10
            } else {
                self.speed as int
            };
            let ms = if at <= self.time {
                0
            } else {
                (at - self.time) * 100 / speed / 1000
            };
            if ms < 8 {
                8
            } else if ms > 33 {
                33
            } else {
                ms
            }
        } else {
            33
        }
    }

    /// Where the sound should be, in microseconds.
    pub open spec fn sound_time(self) -> int {
        self.time * 100 / if self.speed < 10 {
            10
        } else {
            self.speed as int
        }
    }

    /// After the play button.
    pub open spec fn toggled(self) -> Player {
        if self.exporting {
            self
        } else if self.time >= self.duration {
            Player { playing: !self.playing, ..self.sought(0) }
        } else {
            Player { playing: !self.playing, ..self }
        }
    }

    /// After the pointer did something over the frame.
    pub open spec fn dragged(self, hit: Option<bool>, drags: bool, at: Option<(i32, i32)>, stops: bool) -> Player {
        match self.watermark {
            _ if self.exporting => self,
            None => Player { wm_drag: false, ..self },
            Some(m) => {
                let on = match hit {
                    Some(b) => b,
                    None => self.wm_drag,
                };
                let rest = Player { wm_drag: on && !stops, ..self };
                match at {
                    Some((x, y)) if on && drags => Player {
                        watermark: Some(Mark { x: kept_inside(x), y: kept_inside(y), ..m }),
                        wm_dirty: true,
                        ..rest
                    },
                    _ => rest,
                }
            },
        }
    }
}

fn last_time(events: &Vec<u32>) -> (r: u64)
    ensures
        r == length_of(events@),
{
    if events.len() == 0 {
        return 1000;
    }
    let last: u32 = events[events.len() - 1];
    if last == 0 {
        1000
    } else {
        single_of(last) as u64 * 1000
    }
}

impl DemoPlayer {
    fn empty(title: String) -> (r: DemoPlayer)
        ensures
            r@ == Player::empty(title@),
    {
        DemoPlayer {
            title,
            has_file: false,
            events: Vec::new(),
            applied: 0,
            time: 0,
            duration: 1000,
            playing: false,
            speed: 400,
            preview_dirty: false,
            encoded_bytes: None,
            exporting: false,
            export_msg: None,
            request: None,
            watermark: None,
            wm_dirty: false,
            wm_drag: false,
            cached: false,
            music_path: None,
            music_volume: 800,
            owns_audio: false,
            compress: CompressPreset::Balanced,
            video_format: VideoFormat::Mp4,
        }
    }

    /// A player of the recording that was read from a path, under the name of
    /// the file, or else "Demo".
    pub fn open(path: &str, found: Option<Recording>) -> (r: DemoPlayer)
        ensures
            tells_stem_or(path@, "Demo"@, r@.title),
            r@ == Player::opened(r@.title, found),
    {
        let title = file_stem_or(path, "Demo");
        let mut player = DemoPlayer::empty(title);
        match found {
            Some(f) => {
                if f.events.len() > 0 || f.has_baseline {
                    player.has_file = true;
                    player.duration = last_time(&f.events);
                    player.events = f.events;
                    player.playing = true;
                    player.preview_dirty = true;
                    player.encoded_bytes = f.encoded_bytes;
                }
            },
            None => {},
        }
        player
    }

    /// Takes what the player wants the user asked for.
    pub fn take_request(&mut self) -> (r: Option<DemoPlayerRequest>)
        ensures
            r == old(self)@.request,
            final(self)@ == (Player { request: None, ..old(self)@ }),
    {
        let r = self.request;
        self.request = None;
        r
    }

    /// Asks for something. While an export runs nothing is asked for.
    pub fn ask(&mut self, request: DemoPlayerRequest)
        ensures
            final(self)@ == (if old(self)@.exporting {
                old(self)@
            } else {
                Player { request: Some(request), ..old(self)@ }
            }),
    {
        if !self.exporting {
            self.request = Some(request);
        }
    }

    pub fn owns_audio(&self) -> (r: bool)
        ensures
            r == self@.owns_audio,
    {
        self.owns_audio
    }

    pub fn video_format(&self) -> (r: VideoFormat)
        ensures
            r == self@.video_format,
    {
        self.video_format
    }

    /// The name that a video gets unless the user changes it.
    pub fn suggested_video_name(&self) -> (r: String)
        ensures
            r@ == self@.title + "."@ + self@.video_format.ending(),
    {
        glue3(self.title.as_str(), ".", self.video_format.ext())
    }

    /// Takes the mark that was read, or what went wrong.
    pub fn set_watermark_file(&mut self, read: Result<Watermark, String>)
        ensures
            final(self)@ == (match read {
                Ok(m) => Player {
                    watermark: Some(m@),
                    wm_dirty: true,
                    export_msg: None,
                    ..old(self)@
                },
                Err(e) => Player { export_msg: Some(e@), ..old(self)@ },
            }),
    {
        match read {
            Ok(m) => {
                self.watermark = Some(m);
                self.wm_dirty = true;
                self.export_msg = None;
            },
            Err(e) => {
                self.export_msg = Some(e);
            },
        }
    }

    /// Takes the mark away.
    pub fn clear_watermark(&mut self)
        ensures
            final(self)@ == (if old(self)@.exporting {
                old(self)@
            } else {
                Player { watermark: None, wm_dirty: true, ..old(self)@ }
            }),
    {
        if !self.exporting {
            self.watermark = None;
            self.wm_dirty = true;
        }
    }

    /// Puts the mark to a corner.
    pub fn put_watermark(&mut self, corner: Corner)
        ensures
            final(self)@ == (match old(self)@.watermark {
                Some(m) => Player {
                    watermark: Some(Mark { x: corner.place().0, y: corner.place().1, ..m }),
                    wm_dirty: true,
                    ..old(self)@
                },
                None => old(self)@,
            }),
    {
        match self.watermark.take() {
            Some(mut m) => {
                m.put_to(corner);
                self.watermark = Some(m);
                self.wm_dirty = true;
            },
            None => {},
        }
    }

    /// Changes how the mark is laid over the frame.
    pub fn blend_watermark(&mut self, blend: MarkBlend)
        ensures
            final(self)@ == (match old(self)@.watermark {
                Some(m) => Player {
                    watermark: Some(Mark { blend, ..m }),
                    wm_dirty: old(self)@.wm_dirty || m.blend != blend,
                    ..old(self)@
                },
                None => old(self)@,
            }),
    {
        match self.watermark.take() {
            Some(mut m) => {
                if m.blend != blend {
                    self.wm_dirty = true;
                }
                m.blend = blend;
                self.watermark = Some(m);
            },
            None => {},
        }
    }

    /// Changes the mark's size, within its limits.
    pub fn scale_watermark(&mut self, scale: i32)
        ensures
            final(self)@ == (match old(self)@.watermark {
                Some(m) => Player {
                    watermark: Some(Mark { scale: kept_scale(scale), ..m }),
                    wm_dirty: old(self)@.wm_dirty || m.scale != kept_scale(scale),
                    ..old(self)@
                },
                None => old(self)@,
            }),
    {
        match self.watermark.take() {
            Some(mut m) => {
                let changed: bool = m.set_scale(scale);
                self.watermark = Some(m);
                self.wm_dirty = self.wm_dirty || changed;
            },
            None => {},
        }
    }

    /// Turns the mark, by at most half a turn either way.
    pub fn turn_watermark(&mut self, angle: i32)
        ensures
            final(self)@ == (match old(self)@.watermark {
                Some(m) => Player {
                    watermark: Some(Mark { angle: kept_angle(angle), ..m }),
                    wm_dirty: old(self)@.wm_dirty || m.angle != kept_angle(angle),
                    ..old(self)@
                },
                None => old(self)@,
            }),
    {
        match self.watermark.take() {
            Some(mut m) => {
                let changed: bool = m.set_angle(angle);
                self.watermark = Some(m);
                self.wm_dirty = self.wm_dirty || changed;
            },
            None => {},
        }
    }

    /// Changes how strongly the mark shows, within its limits.
    pub fn fade_watermark(&mut self, opacity: i32)
        ensures
            final(self)@ == (match old(self)@.watermark {
                Some(m) => Player {
                    watermark: Some(Mark { opacity: kept_opacity(opacity), ..m }),
                    wm_dirty: old(self)@.wm_dirty || m.opacity != kept_opacity(opacity),
                    ..old(self)@
                },
                None => old(self)@,
            }),
    {
        match self.watermark.take() {
            Some(mut m) => {
                let changed: bool = m.set_opacity(opacity);
                self.watermark = Some(m);
                self.wm_dirty = self.wm_dirty || changed;
            },
            None => {},
        }
    }

    /// Chooses the music.
    pub fn set_music_file(&mut self, path: String)
        ensures
            final(self)@ == (Player { music_path: Some(path@), owns_audio: false, ..old(self)@ }),
    {
        self.music_path = Some(path);
        self.owns_audio = false;
    }

    /// Takes the music away.
    pub fn clear_music(&mut self)
        ensures
            final(self)@ == (if old(self)@.exporting {
                old(self)@
            } else {
                Player { music_path: None, ..old(self)@ }
            }),
    {
        if !self.exporting {
            self.music_path = None;
        }
    }

    /// Chooses how strongly a video is compressed.
    pub fn set_compress(&mut self, compress: CompressPreset)
        ensures
            final(self)@ == (Player { compress, ..old(self)@ }),
    {
        self.compress = compress;
    }

    /// What an export is made with.
    pub fn export_opts(&self) -> (r: ExportOpts)
        ensures
            r.speed == self@.speed,
            r.compress == self@.compress,
            mark_view(r.watermark) == self@.watermark,
            opt_view(r.audio_path) == self@.music_path,
            r.audio_volume == self@.music_volume,
    {
        ExportOpts {
            speed: self.speed,
            compress: self.compress,
            watermark: match &self.watermark {
                Some(m) => Some(m.copy()),
                None => None,
            },
            audio_path: copy_opt(&self.music_path),
            audio_volume: self.music_volume,
        }
    }

    /// Begins an export; tells whether one is to run.
    pub fn start_export_to(&mut self, format: VideoFormat) -> (r: bool)
        ensures
            final(self)@ == old(self)@.exporting_to(format),
            r == (!old(self)@.exporting && old(self)@.has_file),
    {
        if self.exporting || !self.has_file {
            return false;
        }
        self.video_format = format;
        self.exporting = true;
        self.export_msg = Some("Экспорт видео…".to_owned());
        self.playing = false;
        true
    }

    /// Takes what an export has to tell.
    pub fn poll_export(&mut self, event: ExportEvent)
        ensures
            final(self)@ == old(self)@.export_told(event),
    {
        if !self.exporting {
            return;
        }
        match event {
            ExportEvent::Saved(path) => {
                self.exporting = false;
                let msg = glue3("Видео сохранено", " ", path.as_str());
                self.export_msg = Some(msg);
            },
            ExportEvent::Failed(msg) => {
                self.exporting = false;
                self.export_msg = Some(msg);
            },
            ExportEvent::Nothing => {},
            ExportEvent::Gone => {
                self.exporting = false;
            },
        }
    }

    /// Jumps to a time.
    pub fn seek(&mut self, time: u64) -> (r: Option<SeekWork>)
        requires
            old(self)@.duration <= u32::MAX * 1000,
        ensures
            final(self)@ == old(self)@.sought(time),
            r == (if old(self)@.has_file {
                Some(
                    SeekWork {
                        rewind: old(self)@.goes_back(time),
                        until_ms: (old(self)@.jump(time) / 1000) as u32,
                    },
                )
            } else {
                None
            }),
    {
        if !self.has_file {
            return None;
        }
        let t: u64 = if time < self.duration {
            time
        } else {
            self.duration
        };
        let rewind = t + 500 < self.time;
        if rewind {
            self.applied = 0;
            self.preview_dirty = true;
        }
        self.time = t;
        Some(SeekWork { rewind, until_ms: (t / 1000) as u32 })
    }

    /// Notes how many events the picture shows.
    pub fn shows(&mut self, next: usize)
        ensures
            final(self)@ == old(self)@.showing(next),
    {
        if next != self.applied {
            self.applied = next;
            self.preview_dirty = true;
        }
    }

    /// Lets the time of a frame, in microseconds, go by at the chosen speed;
    /// tells until when, in milliseconds, events are to be applied.
    pub fn advance(&mut self, frame: u64) -> (r: Option<u32>)
        requires
            old(self)@.duration <= u32::MAX * 1000,
            old(self)@.time <= old(self)@.duration,
        ensures
            final(self)@ == old(self)@.advanced(frame),
            r == (if old(self)@.runs() {
                Some((final(self)@.time / 1000) as u32)
            } else {
                None
            }),
    {
        if !self.playing || !self.has_file || self.exporting {
            return None;
        }
        let mut t: u64 = self.time;
        if self.applied < self.events.len() {
            let at: u64 = single_of(self.events[self.applied]) as u64 * 1000;
            if at > t + LONGEST_PAUSE {
                t = at;
            }
        }
        let counted: u64 = if frame < LONGEST_FRAME {
            frame
        } else {
            LONGEST_FRAME
        };
        assert(counted * self.speed <= 100_000 * 0xffff_ffff) by (nonlinear_arith)
            requires
                0 <= counted <= 100_000,
                0 <= self.speed <= 0xffff_ffff,
        ;
        let step: u64 = counted * self.speed as u64 / 100;
        let far: u64 = t.saturating_add(step);
        if far >= self.duration {
            self.playing = false;
            self.time = self.duration;
        } else {
            self.time = far;
        }
        Some((self.time / 1000) as u32)
    }

    /// The milliseconds to wait for the next frame.
    pub fn wait_ms(&self) -> (r: u64)
        ensures
            r == self@.wait(),
    {
        if self.applied < self.events.len() {
            let at: u64 = single_of(self.events[self.applied]) as u64 * 1000;
            let speed: u64 = if self.speed < 10 {
                10
            } else {
                self.speed as u64
            };
            let ms: u64 = if at <= self.time {
                0
            } else {
                (at - self.time) * 100 / speed / 1000
            };
            if ms < 8 {
                8
            } else if ms > 33 {
                33
            } else {
                ms
            }
        } else {
            33
        }
    }

    /// The play button; tells of the jump back to the start, if there is one.
    pub fn toggle_play(&mut self) -> (r: Option<SeekWork>)
        requires
            old(self)@.duration <= u32::MAX * 1000,
        ensures
            final(self)@ == old(self)@.toggled(),
            r == (if old(self)@.exporting || old(self)@.time < old(self)@.duration
                || !old(self)@.has_file {
                None
            } else {
                Some(SeekWork { rewind: old(self)@.goes_back(0), until_ms: 0 })
            }),
    {
        if self.exporting {
            return None;
        }
        let work = if self.time >= self.duration {
            self.seek(0)
        } else {
            None
        };
        self.playing = !self.playing;
        work
    }

    /// A jump by the bar; the player stops.
    pub fn scrub(&mut self, time: u64) -> (r: Option<SeekWork>)
        requires
            old(self)@.duration <= u32::MAX * 1000,
        ensures
            final(self)@ == (if old(self)@.exporting {
                old(self)@
            } else {
                (Player { playing: false, ..old(self)@ }).sought(time)
            }),
            r == (if old(self)@.exporting || !old(self)@.has_file {
                None
            } else {
                Some(
                    SeekWork {
                        rewind: old(self)@.goes_back(time),
                        until_ms: (old(self)@.jump(time) / 1000) as u32,
                    },
                )
            }),
    {
        if self.exporting {
            return None;
        }
        self.playing = false;
        self.seek(time)
    }

    /// Chooses one of the speeds.
    pub fn set_speed(&mut self, index: usize)
        requires
            index < 7,
        ensures
            final(self)@ == (Player { speed: speeds()[index as int], ..old(self)@ }),
    {
        self.speed = if index == 0 {
            25
        } else if index == 1 {
            50
        } else if index == 2 {
            75
        } else if index == 3 {
            100
        } else if index == 4 {
            200
        } else if index == 5 {
            400
        } else {
            800
        };
    }

    /// What the sound needs, given the file that is open.
    pub fn sound_need(&self, open_path: &str) -> (r: SoundNeed)
        ensures
            r == (match self@.music_path {
                None => if self@.owns_audio {
                    SoundNeed::Pause
                } else {
                    SoundNeed::Leave
                },
                Some(p) => if open_path@ != p {
                    SoundNeed::Open
                } else if self@.owns_audio {
                    SoundNeed::Ready
                } else {
                    SoundNeed::Leave
                },
            }),
    {
        match &self.music_path {
            None => if self.owns_audio {
                SoundNeed::Pause
            } else {
                SoundNeed::Leave
            },
            Some(p) => if !same_text(p.as_str(), open_path) {
                SoundNeed::Open
            } else if self.owns_audio {
                SoundNeed::Ready
            } else {
                SoundNeed::Leave
            },
        }
    }

    /// Notes that the wanted file was opened: the sound is ours.
    pub fn sound_opened(&mut self)
        ensures
            final(self)@ == (Player { owns_audio: true, ..old(self)@ }),
    {
        self.owns_audio = true;
    }

    /// How the sound follows the picture, given where it is and whether it
    /// plays.
    pub fn follow(&self, user_seek: bool, position: u64, sounding: bool) -> (r: SoundWork)
        requires
            self@.time <= u32::MAX * 1000,
        ensures
            r.volume == self@.music_volume,
            r.seek_to == (if user_seek || (self@.playing && (position > self@.sound_time() + STRAY
                || position + STRAY < self@.sound_time())) {
                Some(self@.sound_time() as u64)
            } else {
                None
            }),
            r.play == (if self@.playing && !self@.exporting {
                if sounding {
                    None
                } else {
                    Some(true)
                }
            } else if sounding {
                Some(false)
            } else {
                None
            }),
    {
        let speed: u64 = if self.speed < 10 {
            10
        } else {
            self.speed as u64
        };
        let want: u64 = self.time * 100 / speed;
        assert(want <= self.time * 100) by (nonlinear_arith)
            requires
                want == self.time * 100 / speed as int,
                speed >= 1,
        ;
        let apart: u64 = if position > want {
            position - want
        } else {
            want - position
        };
        let seek_to = if user_seek || (self.playing && apart > STRAY) {
            Some(want)
        } else {
            None
        };
        let play = if self.playing && !self.exporting {
            if sounding {
                None
            } else {
                Some(true)
            }
        } else if sounding {
            Some(false)
        } else {
            None
        };
        SoundWork { volume: self.music_volume, seek_to, play }
    }

    /// Changes the volume; tells whether the sound is ours to change.
    pub fn set_volume(&mut self, volume: u32) -> (r: bool)
        ensures
            final(self)@ == (Player { music_volume: volume, ..old(self)@ }),
            r == old(self)@.owns_audio,
    {
        self.music_volume = volume;
        self.owns_audio
    }

    /// Whether a frame must be made anew; notes that it will be.
    pub fn take_stale_frame(&mut self) -> (r: bool)
        ensures
            r == (old(self)@.preview_dirty || !old(self)@.cached),
            final(self)@ == (if r {
                Player { cached: true, preview_dirty: false, wm_dirty: true, ..old(self)@ }
            } else {
                old(self)@
            }),
    {
        if self.preview_dirty || !self.cached {
            self.cached = true;
            self.preview_dirty = false;
            self.wm_dirty = true;
            true
        } else {
            false
        }
    }

    /// Whether the shown picture must be made anew; notes that it will be.
    pub fn take_stale_picture(&mut self, shown: bool) -> (r: bool)
        ensures
            r == ((old(self)@.wm_dirty || !shown) && old(self)@.cached),
            final(self)@ == (if r {
                Player { wm_dirty: false, ..old(self)@ }
            } else {
                old(self)@
            }),
    {
        if (self.wm_dirty || !shown) && self.cached {
            self.wm_dirty = false;
            true
        } else {
            false
        }
    }

    /// What the pointer did over the frame: where a drag began, whether it hit
    /// the mark; whether it goes on, where, and whether it ends. While an export
    /// runs the mark stays. Tells whether the mark moved.
    pub fn drag_watermark(
        &mut self,
        hit: Option<bool>,
        drags: bool,
        at: Option<(i32, i32)>,
        stops: bool,
    ) -> (r: bool)
        ensures
            final(self)@ == old(self)@.dragged(hit, drags, at, stops),
            r == (!old(self)@.exporting && old(self)@.watermark is Some && drags && at is Some && (
            match hit {
                Some(b) => b,
                None => old(self)@.wm_drag,
            })),
    {
        if self.exporting {
            return false;
        }
        match self.watermark.take() {
            None => {
                self.wm_drag = false;
                false
            },
            Some(mut m) => {
                let on = match hit {
                    Some(b) => b,
                    None => self.wm_drag,
                };
                let mut moved = false;
                if on && drags {
                    if let Some((x, y)) = at {
                        m.drag_to(x, y);
                        self.wm_dirty = true;
                        moved = true;
                    }
                }
                self.watermark = Some(m);
                self.wm_drag = on && !stops;
                moved
            },
        }
    }

    /// The mark's file name, shortened.
    pub fn watermark_name(&self) -> (r: Option<String>)
        ensures
            r is Some <==> self@.watermark is Some,
            self@.watermark is Some ==> is_shown_name(self@.watermark->0.path, 28, r->0@),
    {
        match &self.watermark {
            Some(m) => Some(shown_name(m.path.as_str(), 28)),
            None => None,
        }
    }

    /// The music's file name, shortened.
    pub fn music_name(&self) -> (r: Option<String>)
        ensures
            r is Some <==> self@.music_path is Some,
            self@.music_path is Some ==> is_shown_name(self@.music_path->0, 32, r->0@),
    {
        match &self.music_path {
            Some(p) => Some(shown_name(p.as_str(), 32)),
            None => None,
        }
    }
}

/// Whether a text is the file name of a path, shortened.
pub open spec fn is_shown_name(path: Seq<char>, max: int, r: Seq<char>) -> bool {
    exists|name: Seq<char>| #[trigger]
        tells_name_or(path, Seq::empty(), name) && r == truncated(name, max)
}

fn shown_name(path: &str, max: usize) -> (r: String)
    ensures
        is_shown_name(path@, max as int, r@),
{
    let name = file_name_or(path, "");
    proof {
        reveal_strlit("");
        assert(""@ =~= Seq::empty());
        assert(tells_name_or(path@, Seq::empty(), name@));
    }
    truncate_name(name.as_str(), max)
}

impl Player {
    /// Time never passes the end.
    pub open spec fn in_time(self) -> bool {
        self.time <= self.duration
    }
}

/// Whatever the player does, its time stays within the recording.
pub proof fn law_time_stays_inside(p: Player, time: u64, frame: u64, title: Seq<char>, found: Option<Recording>)
    requires
        p.in_time(),
    ensures
        Player::opened(title, found).in_time(),
        p.sought(time).in_time(),
        p.advanced(frame).in_time(),
        p.toggled().in_time(),
{
}

/// The player stops by itself exactly when it reaches the end.
pub proof fn law_stops_at_the_end(p: Player, frame: u64)
    requires
        p.runs(),
        p.in_time(),
    ensures
        !p.advanced(frame).playing <==> p.advanced(frame).time == p.duration,
{
}

/// While an export runs nothing plays and no other begins.
pub proof fn law_one_export(p: Player, a: VideoFormat, b: VideoFormat, frame: u64)
    requires
        p.has_file,
    ensures
        p.exporting_to(a).exporting,
        p.exporting_to(a).exporting_to(b) == p.exporting_to(a),
        p.exporting_to(a).advanced(frame) == p.exporting_to(a),
        p.exporting_to(a).toggled() == p.exporting_to(a),
{
}

/// A jump to where the player is changes nothing.
pub proof fn law_jump_to_now(p: Player)
    requires
        p.in_time(),
    ensures
        p.sought(p.time) == p,
{
}

/// The endings of the formats of a video.
pub proof fn law_endings()
    ensures
        VideoFormat::Mp4.ending() == "mp4"@,
        VideoFormat::WebM.ending() == "webm"@,
        VideoFormat::Gif.ending() == "gif"@,
{
}

/// The speeds go up from a quarter to eight times, and the plain speed is one of
/// them.
pub proof fn law_speeds()
    ensures
        speeds()[0] == 25,
        speeds().last() == 800,
        speeds().contains(100),
        forall|i: int, j: int| 0 <= i < j < speeds().len() ==> #[trigger] speeds()[i] < #[trigger] speeds()[j],
        speeds().len() == 7,
{
    assert(speeds()[3] == 100);
}

/// A recording with nothing in it is not played; any other starts playing at its
/// beginning and lasts until its last event.
pub proof fn law_opened(title: Seq<char>, found: Recording)
    ensures
        ({
            let p = Player::opened(title, Some(found));
            let empty = found.events@.len() == 0 && !found.has_baseline;
            &&& p.title == title
            &&& p.time == 0
            &&& p.applied == 0
            &&& p.has_file == !empty
            &&& p.playing == !empty
            &&& !p.exporting
            &&& !empty ==> p.events == found.events@
            &&& found.events@.len() > 0 && 0 < found.events@.last() < 0x100_0000 ==> p.duration
                == found.events@.last() * 1000
            &&& p.duration > 0
        }),
        !Player::opened(title, None).has_file,
        !Player::opened(title, None).playing,
{
    if found.events@.len() > 0 {
        let n = found.events@.last();
        if n < 0x100_0000 {
            lemma_single_exact(n);
        } else {
            lemma_single_large(n);
        }
    }
}

/// A number beyond what single precision holds exactly is not rounded to zero.
proof fn lemma_single_large(n: u32)
    requires
        n >= 0x100_0000,
    ensures
        through_single(n) > 0,
{
    let x = n as nat;
    let limit = SINGLE as nat;
    lemma_unit_at_most(x, limit);
    let u = float_unit(x, limit);
    assert(x / u >= 1) by (nonlinear_arith)
        requires
            1 <= u <= x,
    ;
    assert(round_even(x, u) >= 1);
    assert(nearest_float(x, limit) >= 1) by (nonlinear_arith)
        requires
            nearest_float(x, limit) == round_even(x, u) * u,
            round_even(x, u) >= 1,
            u >= 1,
    ;
}

proof fn lemma_unit_at_most(n: nat, limit: nat)
    requires
        limit > 1,
    ensures
        1 <= float_unit(n, limit),
        n > 0 ==> float_unit(n, limit) <= n,
    decreases n,
{
    if n >= limit {
        lemma_unit_at_most(n / 2, limit);
    }
}

/// A frame moves a recording on by the time it took, times the speed; a frame of
/// more than a tenth of a second counts as that much. This is said of a frame
/// that no long pause follows and that does not reach the end.
pub proof fn law_plays_at_speed(p: Player, frame: u64)
    requires
        p.runs(),
        p.applied >= p.events.len() || event_time(p.events[p.applied as int]) <= p.time + 300_000,
        p.time + 1_000 * p.speed < p.duration,
    ensures
        p.advanced(frame).playing,
        frame <= 100_000 ==> p.advanced(frame).time == p.time + frame * p.speed / 100,
        frame > 100_000 ==> p.advanced(frame).time == p.time + 1_000 * p.speed,
        p.speed == 100 && frame <= 100_000 ==> p.advanced(frame).time == p.time + frame,
{
    let f = lesser(frame as int, 100_000);
    assert(0 <= f * p.speed / 100 <= 1_000 * p.speed) by (nonlinear_arith)
        requires
            0 <= f <= 100_000,
            p.speed >= 0,
    ;
    assert(100_000 * p.speed / 100 == 1_000 * p.speed) by (nonlinear_arith);
    if p.speed == 100 {
        assert(frame * 100 / 100 == frame);
    }
}

/// A pause of more than three tenths of a second is not waited out: the next
/// frame is at least at the event that ends it, as far as the recording lasts.
pub proof fn law_long_pause_is_skipped(p: Player, frame: u64)
    requires
        p.runs(),
        p.applied < p.events.len(),
        event_time(p.events[p.applied as int]) > p.time + 300_000,
    ensures
        event_time(p.events[p.applied as int]) <= p.duration ==> p.advanced(frame).time >= event_time(
            p.events[p.applied as int],
        ),
        event_time(p.events[p.applied as int]) > p.duration ==> p.advanced(frame).time == p.duration,
{
    let f = lesser(frame as int, 100_000);
    assert(0 <= f * p.speed / 100) by (nonlinear_arith)
        requires
            0 <= f,
            p.speed >= 0,
    ;
}

/// The time of an event is its milliseconds, as long as single precision holds
/// them.
pub proof fn law_event_time(ms: u32)
    requires
        ms < 0x100_0000,
    ensures
        event_time(ms) == ms * 1000,
{
    lemma_single_exact(ms);
}

/// Playing and pausing undo each other; at the end playing starts over.
pub proof fn law_toggled(p: Player)
    requires
        !p.exporting,
    ensures
        p.toggled().playing == !p.playing,
        p.time < p.duration ==> p.toggled().time == p.time,
        p.time < p.duration ==> p.toggled().toggled() == p,
        p.has_file && p.time >= p.duration ==> p.toggled().time == 0,
        p.toggled().events == p.events,
        p.toggled().speed == p.speed,
{
}

/// A jump leads to the time that was asked for, or to the end where that is
/// sooner. Backwards by more than half a millisecond the events are applied anew
/// from the first; else those that were applied stay.
pub proof fn law_sought(p: Player, time: u64)
    requires
        p.has_file,
    ensures
        time <= p.duration ==> p.sought(time).time == time,
        time > p.duration ==> p.sought(time).time == p.duration,
        time <= p.duration && time + 500 < p.time ==> p.sought(time).applied == 0,
        time <= p.duration && time + 500 >= p.time ==> p.sought(time).applied == p.applied,
        p.sought(time).playing == p.playing,
        p.sought(time).events == p.events,
{
}

/// An export ends when it is told to have been saved, to have failed, or to be
/// gone; a save is told with its path and a failure with its message.
pub proof fn law_export_ends(p: Player, path: String, msg: String)
    requires
        p.exporting,
    ensures
        !p.export_told(ExportEvent::Saved(path)).exporting,
        p.export_told(ExportEvent::Saved(path)).export_msg is Some,
        path@.is_suffix_of(p.export_told(ExportEvent::Saved(path)).export_msg->0),
        !p.export_told(ExportEvent::Failed(msg)).exporting,
        p.export_told(ExportEvent::Failed(msg)).export_msg == Some(msg@),
        !p.export_told(ExportEvent::Gone).exporting,
        p.export_told(ExportEvent::Gone).export_msg == p.export_msg,
        p.export_told(ExportEvent::Nothing) == p,
{
    let all = "Видео сохранено"@ + " "@ + path@;
    assert(all.subrange(all.len() - path@.len(), all.len() as int) =~= path@);
}

/// An export pauses the recording and keeps its format.
pub proof fn law_export_begins(p: Player, format: VideoFormat)
    requires
        p.has_file,
        !p.exporting,
    ensures
        p.exporting_to(format).exporting,
        p.exporting_to(format).video_format == format,
        !p.exporting_to(format).playing,
        p.exporting_to(format).time == p.time,
{
}

/// The next look comes when the next event is due at the speed of playing, but
/// after 8 milliseconds at the soonest and 33 at the latest; with no event left
/// after 33.
pub proof fn law_wait(p: Player)
    ensures
        8 <= p.wait() <= 33,
        p.applied >= p.events.len() ==> p.wait() == 33,
        p.applied < p.events.len() && event_time(p.events[p.applied as int]) <= p.time ==> p.wait()
            == 8,
        p.applied < p.events.len() && p.speed == 100 && p.time + 8_000 <= event_time(
            p.events[p.applied as int],
        ) < p.time + 34_000 ==> p.wait() == (event_time(p.events[p.applied as int]) - p.time) / 1000,
        p.applied < p.events.len() && p.speed == 200 && p.time + 16_000 <= event_time(
            p.events[p.applied as int],
        ) < p.time + 68_000 ==> p.wait() == (event_time(p.events[p.applied as int]) - p.time) / 2000,
{
    if p.applied < p.events.len() {
        let d = event_time(p.events[p.applied as int]) - p.time;
        assert(d * 100 / 100 == d);
        assert(d * 100 / 200 / 1000 == d / 2000);
    }
}

/// The sound is where the recording is at the plain speed, half as far at twice
/// the speed and twice as far at half of it.
pub proof fn law_sound_time(p: Player)
    ensures
        p.speed == 100 ==> p.sound_time() == p.time,
        p.speed == 200 ==> p.sound_time() == p.time / 2,
        p.speed == 50 ==> p.sound_time() == 2 * p.time,
{
    let t = p.time as int;
    assert(t * 100 / 100 == t);
    assert(t * 100 / 200 == t / 2);
    assert(t * 100 / 50 == 2 * t);
}

/// A watermark goes where it is dragged, within its bounds, while the pointer
/// holds it; nothing else about it changes, and it is let go where the drag
/// stops.
pub proof fn law_dragged(p: Player, hit: Option<bool>, drags: bool, x: i32, y: i32, stops: bool)
    requires
        !p.exporting,
        p.watermark is Some,
    ensures
        ({
            let on = if hit is Some {
                hit->0
            } else {
                p.wm_drag
            };
            let q = p.dragged(hit, drags, Some((x, y)), stops);
            &&& q.watermark is Some
            &&& on && drags && 20 <= x <= 980 && 20 <= y <= 980 ==> q.watermark == Some(
                Mark { x, y, ..p.watermark->0 },
            )
            &&& !on || !drags ==> q.watermark == p.watermark
            &&& q.wm_drag == (on && !stops)
            &&& 20 <= q.watermark->0.x <= 980 || q.watermark == p.watermark
            &&& 20 <= q.watermark->0.y <= 980 || q.watermark == p.watermark
        }),
{
}

/// The picture is drawn anew exactly where events were applied.
pub proof fn law_showing(p: Player, next: usize)
    ensures
        p.showing(next).applied == next,
        next != p.applied ==> p.showing(next).preview_dirty,
        next == p.applied ==> p.showing(next) == p,
        p.showing(next).time == p.time,
{
}

} // verus!
