use beautiful_app::export::options::{
    bg_to_export, export_to_bg, BgPreset, ColorRange, ExportBackground, PngCompression,
    RasterExportOpts,
};
use beautiful_app::export::pixels::{downscale_rgba, estimate_size, file_length, format_bytes};
use beautiful_app::export::studio::{ExportStudioState, PreviewDone};
use beautiful_app::files::format::ExportFormat;

fn opts() -> RasterExportOpts {
    RasterExportOpts {
        png_compression: PngCompression::Default,
        strip_opaque_alpha: true,
        jpeg_quality: 90,
        color_range: ColorRange::Limited,
        background: ExportBackground::Transparent,
        background_red: 10,
        background_green: 20,
        background_blue: 30,
        ai_mid_freq: false,
        ai_noise: true,
        ai_grid: false,
        ai_chroma: false,
        ai_protect_strength: 3,
    }
}

fn gradient(w: u32, h: u32) -> Vec<u8> {
    let mut v = Vec::new();
    for y in 0..h {
        for x in 0..w {
            v.extend([(x * 7) as u8, (y * 5) as u8, (x + y) as u8, (255 - x % 200) as u8]);
        }
    }
    v
}

#[test]
fn backgrounds_and_choices_are_one_for_one() {
    for p in [
        BgPreset::Transparent,
        BgPreset::White,
        BgPreset::Black,
        BgPreset::Gray,
        BgPreset::Background,
        BgPreset::Custom,
    ] {
        assert_eq!(export_to_bg(bg_to_export(p)), p);
    }
    assert_eq!(bg_to_export(BgPreset::Background), ExportBackground::Ui);
}

#[test]
fn jpeg_has_no_transparency() {
    let o = opts();
    assert_eq!(o.fit(ExportFormat::Jpeg).background, ExportBackground::White);
    assert_eq!(o.fit(ExportFormat::Png).background, ExportBackground::Transparent);
    assert_eq!(o.estimate_opts(ExportFormat::Png).png_compression, PngCompression::Fast);
    assert_eq!(o.estimate_opts(ExportFormat::Jpeg).png_compression, PngCompression::Default);
    assert!(o.ai_protect_any());
}

#[test]
fn keys_mix_every_option() {
    let o = opts();
    let mut h: u64 = 0;
    for v in [1u64, 1, 90, 1, 0, 10, 20, 30, 0, 1, 0, 0, 3, 2] {
        h = h.wrapping_mul(31) ^ v;
    }
    assert_eq!(o.key(ExportFormat::Png), h);
    let mut other = o;
    other.ai_chroma = true;
    assert_ne!(other.key(ExportFormat::Png), h);
}

#[test]
fn small_pictures_stay_as_they_are() {
    let px = gradient(5, 4);
    let p = downscale_rgba(&px, 5, 4, 1280);
    assert_eq!((p.w, p.h), (5, 4));
    assert_eq!(p.rgba, px);
    let short = downscale_rgba(&vec![1, 2, 3], 5, 4, 1280);
    assert_eq!((short.w, short.h, short.rgba), (1, 1, vec![0, 0, 0, 0]));
}

#[test]
fn large_pictures_are_resampled() {
    let px = gradient(40, 20);
    let p = downscale_rgba(&px, 40, 20, 10);
    assert_eq!((p.w, p.h), (10, 5));
    let img = image::RgbaImage::from_raw(40, 20, px).unwrap();
    let want = image::imageops::resize(&img, 10, 5, image::imageops::FilterType::Triangle);
    assert_eq!(p.rgba, want.into_raw());
}

#[test]
fn estimates_are_the_encoders_lengths() {
    let px = gradient(16, 8);
    let o = opts();
    let mut png = Vec::new();
    let enc = image::codecs::png::PngEncoder::new_with_quality(
        &mut png,
        image::codecs::png::CompressionType::Default,
        image::codecs::png::FilterType::Adaptive,
    );
    image::ImageEncoder::write_image(enc, &px, 16, 8, image::ExtendedColorType::Rgba8).unwrap();
    assert_eq!(estimate_size(&px, 16, 8, ExportFormat::Png, &o), Some(png.len() as u64));

    let rgb: Vec<u8> = px.chunks(4).flat_map(|p| p[..3].to_vec()).collect();
    let mut jpg = Vec::new();
    let enc = image::codecs::jpeg::JpegEncoder::new_with_quality(&mut jpg, 90);
    image::ImageEncoder::write_image(enc, &rgb, 16, 8, image::ExtendedColorType::Rgb8).unwrap();
    assert_eq!(estimate_size(&px, 16, 8, ExportFormat::Jpeg, &o), Some(jpg.len() as u64));

    let mut longer = px.clone();
    longer.extend([9, 9, 9, 9]);
    assert_eq!(estimate_size(&longer, 16, 8, ExportFormat::Jpeg, &o), Some(jpg.len() as u64));
    assert_eq!(estimate_size(&vec![0; 10], 16, 8, ExportFormat::Png, &o), None);
    assert_eq!(estimate_size(&Vec::new(), 0, 8, ExportFormat::Jpeg, &o), None);
}

#[test]
fn lengths_of_files() {
    assert_eq!(file_length(&Some(vec![1, 2, 3])), Some(3));
    assert_eq!(file_length(&None), None);
}

#[test]
fn export_sizes_in_words() {
    assert_eq!(format_bytes(1023), "1023 B");
    assert_eq!(format_bytes(1024), "1 KB");
    assert_eq!(format_bytes(1536), "2 KB");
    assert_eq!(format_bytes(2560), "2 KB");
    assert_eq!(format_bytes(1024 * 1024 + 524_288), "1.5 MB");
}

#[test]
fn previews_wait_and_only_the_last_counts() {
    let mut s = ExportStudioState::new(opts());
    assert!(!s.is_open());
    s.open_for("a/b.png".to_string(), ExportFormat::Png, 4, 4, vec![0; 64]);
    assert!(s.is_open());
    assert_eq!(s.shown_name(), "b.png");
    assert!(s.frame(1000).make.is_none());
    assert!(s.frame(1049).make.is_none());
    let (gen, key) = s.frame(1050).make.unwrap();
    assert_eq!(key, s.opts_key());
    assert!(s.frame(1060).make.is_none());
    s.opts.jpeg_quality = 50;
    assert!(s.frame(1100).make.is_none());
    let (gen2, key2) = s.frame(1150).make.unwrap();
    assert_ne!(key2, key);
    assert!(!s.receive(PreviewDone { gen, key, est_bytes: Some(1) }));
    assert!(s.receive(PreviewDone { gen: gen2, key: key2, est_bytes: Some(2) }));
    assert_eq!(s.est_bytes, Some(2));
    let f = s.frame(9000);
    assert!(f.make.is_none() && !f.repaint);
}

#[test]
fn confirming_and_cancelling() {
    let mut s = ExportStudioState::new(opts());
    s.open_for("a/b.jpg".to_string(), ExportFormat::Jpeg, 1, 1, vec![0; 4]);
    let a = s.confirm();
    assert!(!s.is_open());
    assert_eq!((a.path.as_str(), a.format), ("a/b.jpg", ExportFormat::Jpeg));
    assert_eq!(a.opts.background, ExportBackground::White);
    s.open_for("c.png".to_string(), ExportFormat::Png, 1, 1, vec![0; 4]);
    s.cancel();
    assert!(!s.is_open());
}
