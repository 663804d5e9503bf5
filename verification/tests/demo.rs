use beautiful_app::demo::pixels::{downsample, format_bytes, format_mmss};
use beautiful_app::demo::player::{
    CompressPreset, DemoPlayer, DemoPlayerRequest, ExportEvent, Recording, SoundNeed, VideoFormat,
};
use beautiful_app::demo::watermark::{Corner, MarkBlend, Watermark};

fn recording(events: Vec<u32>) -> Option<Recording> {
    Some(Recording { events, has_baseline: false, encoded_bytes: Some(10) })
}

fn reference(src: &[u8], w: u32, h: u32, max_side: u32) -> (u32, u32, Vec<u8>) {
    let side = w.max(h).max(1);
    let scale = max_side as f32 / side as f32;
    let nw = ((w as f32 * scale).round() as u32).max(1);
    let nh = ((h as f32 * scale).round() as u32).max(1);
    let mut out = vec![0u8; nw as usize * nh as usize * 4];
    for y in 0..nh {
        let sy = ((y as f32 * h as f32 / nh as f32) as u32).min(h - 1);
        for x in 0..nw {
            let sx = ((x as f32 * w as f32 / nw as f32) as u32).min(w - 1);
            let si = ((sy * w + sx) as usize) * 4;
            let di = ((y * nw + x) as usize) * 4;
            out[di..di + 4].copy_from_slice(&src[si..si + 4]);
        }
    }
    (nw, nh, out)
}

#[test]
fn frames_are_sampled_as_in_single_precision() {
    for (w, h, most) in [(97u32, 53u32, 31u32), (200, 1, 64), (3, 250, 7), (128, 128, 127)] {
        let src: Vec<u8> = (0..w * h * 4).map(|i| (i * 31 % 251) as u8).collect();
        let f = downsample(&src, w, h, most);
        assert_eq!((f.w, f.h, f.rgba), reference(&src, w, h, most));
    }
}

#[test]
fn small_and_short_frames_stay() {
    let f = downsample(&vec![1, 2, 3, 4], 1, 1, 2048);
    assert_eq!((f.w, f.h, f.rgba), (1, 1, vec![1, 2, 3, 4]));
    let g = downsample(&vec![1, 2, 3, 4], 100, 100, 10);
    assert_eq!((g.w, g.h, g.rgba), (100, 100, vec![1, 2, 3, 4]));
}

#[test]
fn a_frame_of_one_colour_keeps_it() {
    let src: Vec<u8> = (0..60 * 40).flat_map(|_| [9u8, 8, 7, 6]).collect();
    let f = downsample(&src, 60, 40, 11);
    assert!(f.rgba.chunks(4).all(|p| p == [9, 8, 7, 6]));
    assert_eq!(f.rgba.len(), (f.w * f.h * 4) as usize);
}

#[test]
fn demo_sizes_and_clocks() {
    assert_eq!(format_bytes(1023), "1023 B");
    assert_eq!(format_bytes(1536), "1.5 KB");
    assert_eq!(format_bytes(3 * 1024 * 1024 / 2), "1.50 MB");
    assert_eq!(format_mmss(0), "00:00");
    assert_eq!(format_mmss(61), "01:01");
    assert_eq!(format_mmss(6000), "100:00");
}

#[test]
fn opening_a_recording() {
    let none = DemoPlayer::open("x/my.demo", None);
    assert_eq!(none.title, "my");
    assert!(!none.has_file && !none.playing);
    let empty = DemoPlayer::open("x/my.demo", recording(vec![]));
    assert!(!empty.has_file);
    let p = DemoPlayer::open("x/my.demo", recording(vec![5, 2000]));
    assert!(p.has_file && p.playing);
    assert_eq!(p.duration, 2_000_000);
    assert_eq!(p.suggested_video_name(), "my.mp4");
}

#[test]
fn playing_skips_pauses_and_stops_at_the_end() {
    let mut p = DemoPlayer::open("a.demo", recording(vec![10, 5000, 5100]));
    assert_eq!(p.advance(5_000), Some(20));
    p.shows(1);
    assert!(p.preview_dirty);
    assert_eq!(p.wait_ms(), 33);
    assert_eq!(p.advance(250), Some(5001));
    assert!(p.playing);
    p.shows(2);
    assert_eq!(p.wait_ms(), 24);
    assert_eq!(p.advance(1_000_000), Some(5100));
    assert!(!p.playing);
    assert_eq!(p.time, p.duration);
    assert_eq!(p.advance(1000), None);
    let back = p.toggle_play().unwrap();
    assert!(back.rewind && back.until_ms == 0);
    assert!(p.playing && p.time == 0 && p.applied == 0);
}

#[test]
fn jumping() {
    let mut p = DemoPlayer::open("a.demo", recording(vec![10, 4000]));
    let w = p.scrub(3_000_000).unwrap();
    assert!(!w.rewind && w.until_ms == 3000 && !p.playing);
    p.shows(1);
    let w = p.seek(2_999_800).unwrap();
    assert!(!w.rewind);
    let w = p.seek(1_000_000).unwrap();
    assert!(w.rewind && p.applied == 0);
    let w = p.seek(u64::MAX).unwrap();
    assert_eq!(w.until_ms, 4000);
    p.set_speed(1);
    assert_eq!(p.speed, 50);
}

#[test]
fn exports_run_one_at_a_time() {
    let mut p = DemoPlayer::open("a.demo", recording(vec![10]));
    assert!(p.start_export_to(VideoFormat::Gif));
    assert!(!p.start_export_to(VideoFormat::WebM));
    assert_eq!(p.video_format(), VideoFormat::Gif);
    assert_eq!(p.advance(1000), None);
    p.ask(DemoPlayerRequest::PickAudio);
    assert_eq!(p.take_request(), None);
    p.poll_export(ExportEvent::Nothing);
    assert!(p.exporting);
    p.poll_export(ExportEvent::Saved("v.gif".to_string()));
    assert!(!p.exporting);
    assert_eq!(p.export_msg.as_deref(), Some("Видео сохранено v.gif"));
    p.start_export_to(VideoFormat::Mp4);
    p.poll_export(ExportEvent::Failed("нет места".to_string()));
    assert_eq!(p.export_msg.as_deref(), Some("нет места"));
    p.start_export_to(VideoFormat::Mp4);
    p.poll_export(ExportEvent::Gone);
    assert!(!p.exporting);
    p.ask(DemoPlayerRequest::SaveVideo);
    assert_eq!(p.take_request(), Some(DemoPlayerRequest::SaveVideo));
    assert_eq!(p.take_request(), None);
}

#[test]
fn marks_are_dragged_and_put() {
    let src: Vec<u8> = vec![7; 4 * 4000];
    let m = Watermark::load_watermark("a/logo.png".to_string(), &src, 4000, 1);
    assert_eq!((m.w, m.h, m.rgba.len()), (2048, 1, 8192));
    let mut p = DemoPlayer::open("a.demo", recording(vec![10]));
    p.set_watermark_file(Err("плохо".to_string()));
    assert_eq!(p.export_msg.as_deref(), Some("плохо"));
    p.set_watermark_file(Ok(m));
    assert!(p.wm_dirty && p.export_msg.is_none());
    assert_eq!(p.watermark_name().as_deref(), Some("logo.png"));
    assert!(p.drag_watermark(Some(true), true, Some((-5, 2000)), false));
    let w = p.watermark.as_ref().unwrap();
    assert_eq!((w.x, w.y), (20, 980));
    assert!(!p.drag_watermark(None, false, None, true));
    assert!(!p.drag_watermark(None, true, Some((500, 500)), false));
    p.put_watermark(Corner::Middle);
    p.blend_watermark(MarkBlend::Screen);
    let w = p.watermark.as_ref().unwrap();
    assert_eq!((w.x, w.y, w.blend), (500, 500, MarkBlend::Screen));
    p.scale_watermark(2000);
    p.turn_watermark(-200_000);
    p.fade_watermark(0);
    let w = p.watermark.as_ref().unwrap();
    assert_eq!((w.scale, w.angle, w.opacity), (800, -180_000, 50));
    p.start_export_to(VideoFormat::Gif);
    assert!(!p.drag_watermark(Some(true), true, Some((300, 300)), false));
    assert_eq!(p.watermark.as_ref().unwrap().x, 500);
    p.poll_export(ExportEvent::Gone);
    p.set_music_file("m.ogg".to_string());
    p.set_compress(CompressPreset::Other(2));
    let opts = p.export_opts();
    assert_eq!(opts.compress, CompressPreset::Other(2));
    assert_eq!((opts.speed, opts.audio_volume), (p.speed, 800));
    assert_eq!(opts.audio_path.as_deref(), Some("m.ogg"));
    assert_eq!(opts.watermark.unwrap().scale, 800);
    assert!(p.take_stale_frame());
    assert!(p.take_stale_picture(true));
    assert!(!p.take_stale_picture(true));
    p.clear_watermark();
    assert!(p.watermark.is_none() && p.wm_dirty);
}

#[test]
fn sound_follows_the_picture() {
    let mut p = DemoPlayer::open("a.demo", recording(vec![10, 8000]));
    assert_eq!(p.sound_need("x"), SoundNeed::Leave);
    p.set_music_file("m/song.mp3".to_string());
    assert_eq!(p.music_name().as_deref(), Some("song.mp3"));
    assert_eq!(p.sound_need("x"), SoundNeed::Open);
    p.sound_opened();
    assert_eq!(p.sound_need("m/song.mp3"), SoundNeed::Ready);
    p.seek(4_000_000);
    let s = p.follow(false, 1_000_000, false);
    assert_eq!((s.seek_to, s.play, s.volume), (None, Some(true), 800));
    let s = p.follow(false, 0, true);
    assert_eq!((s.seek_to, s.play), (Some(1_000_000), None));
    p.playing = false;
    let s = p.follow(true, 1_000_000, true);
    assert_eq!((s.seek_to, s.play), (Some(1_000_000), Some(false)));
    assert!(p.set_volume(300));
    p.clear_music();
    assert_eq!(p.sound_need("m/song.mp3"), SoundNeed::Pause);
}

#[test]
fn frames_fit_their_limit() {
    for (w, h, most) in [(4000u32, 1u32, 2048u32), (300, 299, 7), (1921, 1080, 1920), (5, 900, 1)] {
        let f = downsample(&vec![0; (4 * w * h) as usize], w, h, most);
        assert!(f.w <= most && f.h <= most);
    }
}
