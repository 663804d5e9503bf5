//! Pixels of an export: the small preview and the size of the file.
use image::ImageEncoder;
use vstd::prelude::*;
use crate::export::options::{PngCompression, RasterExportOpts, png_number};
use crate::files::format::ExportFormat;
use crate::numbers::{
    fit_side, fitted_side, fixed, fixed_text, law_fixed, lemma_fitted_fits, lemma_fitted_side,
};
use crate::text::{decimal, decimal_text, glue};

verus! {

/// The largest side whose pixels single precision tells apart well enough to
/// be resampled.
pub const MAX_SIDE: u32 = 0x40_0000;

/// What `image::imageops::resize` makes of a picture with the triangle filter:
/// its pixels, its sides and the new sides.
pub uninterp spec fn resized(rgba: Seq<u8>, w: u32, h: u32, tw: u32, th: u32) -> Seq<u8>;

/// `image::imageops::resize` with `FilterType::Triangle`, on a picture of four
/// bytes to a pixel. The result is named; its length is that of a picture of
/// the new sides. Sides are bounded so that no buffer and no coordinate goes
/// beyond what the function can work with.
#[verifier::external_body]
fn resize_triangle(rgba: &Vec<u8>, w: u32, h: u32, tw: u32, th: u32) -> (r: Vec<u8>)
    requires
        1 <= w <= MAX_SIDE && 1 <= h <= MAX_SIDE,
        1 <= tw <= MAX_SIDE && 1 <= th <= MAX_SIDE,
        rgba.len() == 4 * w * h,
        16 * w * th <= isize::MAX,
        4 * tw * th <= isize::MAX,
    ensures
        r@ == resized(rgba@, w, h, tw, th),
        r@.len() == 4 * tw * th,
{
    match image::RgbaImage::from_raw(w, h, rgba.clone()) {
        Some(img) => image::imageops::resize(&img, tw, th, image::imageops::FilterType::Triangle)
            .into_raw(),
        None => Vec::new(),
    }
}

/// A picture without its opacity.
pub open spec fn rgb_of(rgba: Seq<u8>) -> Seq<u8> {
    Seq::new(rgba.len() / 4 * 3, |i: int| rgba[4 * (i / 3) + i % 3])
}

/// `image::DynamicImage::into_rgb8`, on a picture of four bytes to a pixel: the
/// first three bytes of each.
#[verifier::external_body]
fn drop_alpha(rgba: &Vec<u8>, w: u32, h: u32) -> (r: Vec<u8>)
    requires
        rgba.len() == 4 * w * h,
    ensures
        r@ == rgb_of(rgba@),
{
    match image::RgbaImage::from_raw(w, h, rgba.clone()) {
        Some(img) => image::DynamicImage::ImageRgba8(img).into_rgb8().into_raw(),
        None => Vec::new(),
    }
}

/// The PNG file that `image::codecs::png::PngEncoder` writes for a picture at a
/// compression, with adaptive filters; none where it refuses.
pub uninterp spec fn png_file(rgba: Seq<u8>, w: u32, h: u32, compression: u64) -> Option<Seq<u8>>;

/// The JPEG file that `image::codecs::jpeg::JpegEncoder` writes for a picture
/// of three bytes to a pixel at a quality; none where it refuses.
pub uninterp spec fn jpeg_file(rgb: Seq<u8>, w: u32, h: u32, quality: u8) -> Option<Seq<u8>>;

pub open spec fn file_view(f: Option<Vec<u8>>) -> Option<Seq<u8>> {
    match f {
        Some(v) => Some(v@),
        None => None,
    }
}

/// `image::codecs::png::PngEncoder::write_image`. The file is named; it is none
/// where the encoder gives an error. A buffer of another length than the sides
/// ask for would make it panic.
#[verifier::external_body]
fn encode_png(rgba: &Vec<u8>, w: u32, h: u32, compression: PngCompression) -> (r: Option<Vec<u8>>)
    requires
        rgba.len() == 4 * w * h,
    ensures
        file_view(r) == png_file(rgba@, w, h, png_number(compression)),
{
    let mut buf = Vec::new();
    let level = match compression {
        PngCompression::Fast => image::codecs::png::CompressionType::Fast,
        PngCompression::Default => image::codecs::png::CompressionType::Default,
        PngCompression::Best => image::codecs::png::CompressionType::Best,
    };
    let filter = image::codecs::png::FilterType::Adaptive;
    let enc = image::codecs::png::PngEncoder::new_with_quality(&mut buf, level, filter);
    let done = enc.write_image(rgba, w, h, image::ExtendedColorType::Rgba8);
    done.ok().map(|_| buf)
}

/// `image::codecs::jpeg::JpegEncoder::write_image`. The file is named; it is
/// none where the encoder gives an error. A buffer of another length than the
/// sides ask for would make it panic.
#[verifier::external_body]
fn encode_jpeg(rgb: &Vec<u8>, w: u32, h: u32, quality: u8) -> (r: Option<Vec<u8>>)
    requires
        rgb.len() == 3 * w * h,
    ensures
        file_view(r) == jpeg_file(rgb@, w, h, quality),
{
    let mut buf = Vec::new();
    let enc = image::codecs::jpeg::JpegEncoder::new_with_quality(&mut buf, quality);
    let done = enc.write_image(rgb, w, h, image::ExtendedColorType::Rgb8);
    done.ok().map(|_| buf)
}

fn first_bytes(v: &Vec<u8>, n: usize) -> (r: Vec<u8>)
    requires
        n <= v.len(),
    ensures
        r@ == v@.take(n as int),
{
    let mut out: Vec<u8> = Vec::new();
    let mut i: usize = 0;
    while i < n
        invariant
            i <= n <= v.len(),
            out@ == v@.take(i as int),
        decreases n - i,
    {
        out.push(v[i]);
        i += 1;
        assert(out@ =~= v@.take(i as int));
    }
    out
}

/// A picture: its sides and its pixels.
pub struct Plate {
    pub w: u32,
    pub h: u32,
    pub rgba: Vec<u8>,
}

/// A picture made small enough: a clear pixel where there are too few pixels or
/// none, the picture itself where it is small enough already.
pub open spec fn downscaled(rgba: Seq<u8>, w: u32, h: u32, max_side: u32) -> (int, int, Seq<u8>) {
    let longest = if w > h {
        w
    } else {
        h
    };
    let tw = fitted_side(w as nat, longest as nat, max_side as nat);
    let th = fitted_side(h as nat, longest as nat, max_side as nat);
    if rgba.len() < 4 * w * h || w == 0 || h == 0 {
        (1, 1, seq![0u8, 0, 0, 0])
    } else if tw == w && th == h {
        (w as int, h as int, rgba.take(4 * w * h))
    } else {
        (tw as int, th as int, resized(rgba.take(4 * w * h), w, h, tw as u32, th as u32))
    }
}

/// Makes a picture small enough that no side is longer than `max_side`.
pub fn downscale_rgba(rgba: &Vec<u8>, w: u32, h: u32, max_side: u32) -> (r: Plate)
    requires
        w <= MAX_SIDE && h <= MAX_SIDE,
        max_side >= 1,
        16 * w * h <= isize::MAX,
    ensures
        (r.w as int, r.h as int, r.rgba@) == downscaled(rgba@, w, h, max_side),
        r.rgba@.len() == 4 * r.w * r.h,
{
    assert(0 <= w * h <= 0x40_0000 * 0x40_0000) by (nonlinear_arith)
        requires
            0 <= w <= 0x40_0000,
            0 <= h <= 0x40_0000,
    ;
    assert(4 * w * h == 4 * (w * h)) by (nonlinear_arith);
    let need: u64 = w as u64 * h as u64 * 4;
    if (rgba.len() as u64) < need || w == 0 || h == 0 {
        let clear: Vec<u8> = vec![0, 0, 0, 0];
        assert(clear@ =~= seq![0u8, 0, 0, 0]);
        return Plate { w: 1, h: 1, rgba: clear };
    }
    let used = first_bytes(rgba, need as usize);
    let longest: u32 = if w > h {
        w
    } else {
        h
    };
    let tw: u32 = fit_side(w, longest, max_side);
    let th: u32 = fit_side(h, longest, max_side);
    if tw == w && th == h {
        return Plate { w, h, rgba: used };
    }
    assert(16 * w * th <= 16 * w * h && 4 * tw * th <= 16 * w * h) by (nonlinear_arith)
        requires
            0 <= tw <= w,
            0 <= th <= h,
    ;
    let small = resize_triangle(&used, w, h, tw, th);
    Plate { w: tw, h: th, rgba: small }
}

/// A quality within its bounds.
pub open spec fn quality_within(q: u8) -> u8 {
    if q < 1 {
        1
    } else if q > 100 {
        100
    } else {
        q
    }
}

/// The length of a file, where there is one.
pub open spec fn length_of(f: Option<Seq<u8>>) -> Option<int> {
    match f {
        Some(s) => Some(s.len() as int),
        None => None,
    }
}

/// The length of a file, where there is one.
pub fn file_length(f: &Option<Vec<u8>>) -> (r: Option<u64>)
    ensures
        match length_of(file_view(*f)) {
            Some(n) => r == Some(n as u64) && n <= u64::MAX,
            None => r is None,
        },
{
    match f {
        Some(v) => Some(v.len() as u64),
        None => None,
    }
}

/// The file that an export would be.
pub open spec fn exported_file(
    rgba: Seq<u8>,
    w: u32,
    h: u32,
    format: ExportFormat,
    opts: RasterExportOpts,
) -> Option<Seq<u8>> {
    if rgba.len() < 4 * w * h {
        None
    } else if format is Jpeg {
        jpeg_file(rgb_of(rgba.take(4 * w * h)), w, h, quality_within(opts.jpeg_quality))
    } else {
        png_file(rgba, w, h, png_number(opts.png_compression))
    }
}

/// How large the file of an export would be; none where there are too few
/// pixels or the encoder refuses.
pub fn estimate_size(
    rgba: &Vec<u8>,
    w: u32,
    h: u32,
    format: ExportFormat,
    opts: &RasterExportOpts,
) -> (r: Option<u64>)
    requires
        format is Jpeg || rgba.len() <= 4 * w * h,
    ensures
        match length_of(exported_file(rgba@, w, h, format, *opts)) {
            Some(n) => r == Some(n as u64) && n <= u64::MAX,
            None => r is None,
        },
{
    assert(0 <= w * h <= 0xffff_ffff * 0xffff_ffff) by (nonlinear_arith)
        requires
            0 <= w <= 0xffff_ffff,
            0 <= h <= 0xffff_ffff,
    ;
    assert(4 * w * h == 4 * (w * h)) by (nonlinear_arith);
    let need: u128 = w as u128 * h as u128 * 4;
    if (rgba.len() as u128) < need {
        return None;
    }
    if format == ExportFormat::Jpeg {
        let used = first_bytes(rgba, need as usize);
        let rgb = drop_alpha(&used, w, h);
        proof {
            let n = used@.len() as int;
            assert(n / 4 * 3 == 3 * w * h) by (nonlinear_arith)
                requires
                    n == 4 * w * h,
            ;
        }
        let q: u8 = if opts.jpeg_quality < 1 {
            1
        } else if opts.jpeg_quality > 100 {
            100
        } else {
            opts.jpeg_quality
        };
        let file = encode_jpeg(&rgb, w, h, q);
        file_length(&file)
    } else {
        let file = encode_png(rgba, w, h, opts.png_compression);
        file_length(&file)
    }
}

/// A size in the largest unit that it reaches.
pub open spec fn bytes_words(n: u64) -> Seq<char> {
    if n >= 0x10_0000 {
        fixed(n, 0x10_0000, 1) + " MB"@
    } else if n >= 0x400 {
        fixed(n, 0x400, 0) + " KB"@
    } else {
        decimal(n as nat) + " B"@
    }
}

/// A size in words.
pub fn format_bytes(n: u64) -> (r: String)
    ensures
        r@ == bytes_words(n),
{
    if n >= 0x10_0000 {
        let t = fixed_text(n, 0x10_0000, 1);
        glue(t.as_str(), " MB")
    } else if n >= 0x400 {
        let t = fixed_text(n, 0x400, 0);
        glue(t.as_str(), " KB")
    } else {
        let t = decimal_text(n);
        glue(t.as_str(), " B")
    }
}

/// A size is told in bytes, in whole kilobytes or in tenths of megabytes.
pub proof fn law_bytes_words(n: u64, k: nat)
    ensures
        n < 1024 ==> bytes_words(n) == decimal(n as nat) + " B"@,
        1 <= k < 1024 ==> bytes_words((k * 0x400) as u64) == decimal(k) + " KB"@,
        1 <= k < 0x10_0000 ==> bytes_words((k * 0x10_0000) as u64) == decimal(k) + "."@ + "0"@
            + " MB"@,
{
    if 1 <= k < 1024 {
        law_fixed(k, 0x400);
    }
    if 1 <= k < 0x10_0000 {
        law_fixed(k, 0x10_0000);
    }
}

/// A quality is as it is set, from 1 to 100.
pub proof fn law_quality(q: u8)
    ensures
        1 <= quality_within(q) <= 100,
        1 <= q <= 100 ==> quality_within(q) == q,
        q == 0 ==> quality_within(q) == 1,
        q > 100 ==> quality_within(q) == 100,
{
}

/// A preview has no side longer than asked for and none without a pixel, and a
/// picture that is small enough is shown as it is; what there is too little of
/// is one clear pixel.
pub proof fn law_downscaled(rgba: Seq<u8>, w: u32, h: u32, max_side: u32)
    requires
        1 <= w <= MAX_SIDE && 1 <= h <= MAX_SIDE,
        max_side >= 1,
    ensures
        ({
            let r = downscaled(rgba, w, h, max_side);
            &&& 1 <= r.0 <= max_side && 1 <= r.1 <= max_side
            &&& rgba.len() == 4 * w * h && w <= max_side && h <= max_side ==> r == (
                w as int,
                h as int,
                rgba,
            )
            &&& rgba.len() < 4 * w * h ==> r == (1int, 1int, seq![0u8, 0, 0, 0])
        }),
{
    let longest = if w > h {
        w
    } else {
        h
    };
    lemma_fitted_fits(w as nat, longest as nat, max_side as nat);
    lemma_fitted_fits(h as nat, longest as nat, max_side as nat);
    lemma_fitted_side(w as nat, longest as nat, max_side as nat);
    lemma_fitted_side(h as nat, longest as nat, max_side as nat);
    if rgba.len() == 4 * w * h && w <= max_side && h <= max_side {
        assert(rgba.take(4 * w * h) =~= rgba);
    }
}

/// The file of an export: JPEG is made of the pixels without their opacity at the
/// quality that is set, anything else as PNG at its compression; nothing is made
/// of too few pixels.
pub proof fn law_exported_file(
    rgba: Seq<u8>,
    w: u32,
    h: u32,
    format: ExportFormat,
    opts: RasterExportOpts,
)
    ensures
        rgba.len() < 4 * w * h ==> exported_file(rgba, w, h, format, opts) is None,
        rgba.len() == 4 * w * h && format is Jpeg && 1 <= opts.jpeg_quality <= 100 ==> exported_file(
            rgba,
            w,
            h,
            format,
            opts,
        ) == jpeg_file(rgb_of(rgba), w, h, opts.jpeg_quality),
        rgba.len() == 4 * w * h && !(format is Jpeg) ==> exported_file(rgba, w, h, format, opts)
            == png_file(rgba, w, h, png_number(opts.png_compression)),
{
    if rgba.len() == 4 * w * h {
        assert(rgba.take(4 * w * h) =~= rgba);
    }
}

/// A picture without its opacity has the red, the green and the blue of each
/// pixel.
pub proof fn law_rgb_of(rgba: Seq<u8>, p: int, c: int)
    requires
        0 <= p,
        4 * p + 3 < rgba.len(),
        rgba.len() % 4 == 0,
        0 <= c < 3,
    ensures
        rgb_of(rgba).len() == rgba.len() / 4 * 3,
        rgb_of(rgba)[3 * p + c] == rgba[4 * p + c],
{
    assert((3 * p + c) / 3 == p && (3 * p + c) % 3 == c);
}

} // verus!
