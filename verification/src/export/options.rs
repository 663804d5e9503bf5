//! The options of an export.
use vstd::prelude::*;
use crate::files::format::ExportFormat;

verus! {

#[derive(Clone, Copy, Debug, PartialEq, Eq, Structural)]
pub enum PngCompression {
    Fast,
    Default,
    Best,
}

#[derive(Clone, Copy, Debug, PartialEq, Eq, Structural)]
pub enum ColorRange {
    Full,
    Limited,
    Grayscale,
}

/// What stands behind a picture in its export.
#[derive(Clone, Copy, Debug, PartialEq, Eq, Structural)]
pub enum ExportBackground {
    Transparent,
    White,
    Black,
    Gray,
    /// The colour of the window.
    Ui,
    Custom,
}

/// The backgrounds that the user chooses from.
#[derive(Clone, Copy, Debug, PartialEq, Eq, Structural)]
pub enum BgPreset {
    Transparent,
    White,
    Black,
    Gray,
    Background,
    Custom,
}

impl BgPreset {
    pub open spec fn exported(self) -> ExportBackground {
        match self {
            BgPreset::Transparent => ExportBackground::Transparent,
            BgPreset::White => ExportBackground::White,
            BgPreset::Black => ExportBackground::Black,
            BgPreset::Gray => ExportBackground::Gray,
            BgPreset::Background => ExportBackground::Ui,
            BgPreset::Custom => ExportBackground::Custom,
        }
    }
}

impl ExportBackground {
    pub open spec fn preset(self) -> BgPreset {
        match self {
            ExportBackground::Transparent => BgPreset::Transparent,
            ExportBackground::White => BgPreset::White,
            ExportBackground::Black => BgPreset::Black,
            ExportBackground::Gray => BgPreset::Gray,
            ExportBackground::Ui => BgPreset::Background,
            ExportBackground::Custom => BgPreset::Custom,
        }
    }
}

/// The background that a choice means.
pub fn bg_to_export(p: BgPreset) -> (r: ExportBackground)
    ensures
        r == p.exported(),
        p is Transparent <==> r is Transparent,
        p is White <==> r is White,
        p is Black <==> r is Black,
        p is Gray <==> r is Gray,
        p is Background <==> r is Ui,
        p is Custom <==> r is Custom,
{
    match p {
        BgPreset::Transparent => ExportBackground::Transparent,
        BgPreset::White => ExportBackground::White,
        BgPreset::Black => ExportBackground::Black,
        BgPreset::Gray => ExportBackground::Gray,
        BgPreset::Background => ExportBackground::Ui,
        BgPreset::Custom => ExportBackground::Custom,
    }
}

/// The choice that a background stands for.
pub fn export_to_bg(e: ExportBackground) -> (r: BgPreset)
    ensures
        r == e.preset(),
        e is Transparent <==> r is Transparent,
        e is White <==> r is White,
        e is Black <==> r is Black,
        e is Gray <==> r is Gray,
        e is Ui <==> r is Background,
        e is Custom <==> r is Custom,
{
    match e {
        ExportBackground::Transparent => BgPreset::Transparent,
        ExportBackground::White => BgPreset::White,
        ExportBackground::Black => BgPreset::Black,
        ExportBackground::Gray => BgPreset::Gray,
        ExportBackground::Ui => BgPreset::Background,
        ExportBackground::Custom => BgPreset::Custom,
    }
}

/// Choices and backgrounds stand for each other, one for one.
pub proof fn law_backgrounds(p: BgPreset, e: ExportBackground)
    ensures
        p.exported().preset() == p,
        e.preset().exported() == e,
{
}

/// A choice means the background of its name; that of the window is called
/// `Background` among the choices.
pub proof fn law_backgrounds_by_name(p: BgPreset)
    ensures
        p is Transparent <==> p.exported() is Transparent,
        p is White <==> p.exported() is White,
        p is Black <==> p.exported() is Black,
        p is Gray <==> p.exported() is Gray,
        p is Background <==> p.exported() is Ui,
        p is Custom <==> p.exported() is Custom,
{
}

/// A background is shown as the choice of its name.
pub proof fn law_choices_by_name(e: ExportBackground)
    ensures
        e is Transparent <==> e.preset() is Transparent,
        e is White <==> e.preset() is White,
        e is Black <==> e.preset() is Black,
        e is Gray <==> e.preset() is Gray,
        e is Ui <==> e.preset() is Background,
        e is Custom <==> e.preset() is Custom,
{
}

/// How a picture is written.
#[derive(Clone, Copy, Debug, PartialEq, Eq, Structural)]
pub struct RasterExportOpts {
    pub png_compression: PngCompression,
    /// Leave opacity out where everything is opaque.
    pub strip_opaque_alpha: bool,
    pub jpeg_quality: u8,
    pub color_range: ColorRange,
    pub background: ExportBackground,
    pub background_red: u8,
    pub background_green: u8,
    pub background_blue: u8,
    /// What is added against being trained on, and how strongly.
    pub ai_mid_freq: bool,
    pub ai_noise: bool,
    pub ai_grid: bool,
    pub ai_chroma: bool,
    pub ai_protect_strength: u8,
}

impl RasterExportOpts {
    /// Whether anything is added against being trained on.
    pub fn ai_protect_any(&self) -> (r: bool)
        ensures
            r == (self.ai_mid_freq || self.ai_noise || self.ai_grid || self.ai_chroma),
    {
        self.ai_mid_freq || self.ai_noise || self.ai_grid || self.ai_chroma
    }

    /// The options as a format can have them: JPEG has no transparency, and
    /// white takes its place.
    pub open spec fn fitted(self, format: ExportFormat) -> RasterExportOpts {
        if format is Jpeg && self.background is Transparent {
            RasterExportOpts { background: ExportBackground::White, ..self }
        } else {
            self
        }
    }

    /// The options as a format can have them.
    pub fn fit(self, format: ExportFormat) -> (r: RasterExportOpts)
        ensures
            r == self.fitted(format),
    {
        if format == ExportFormat::Jpeg && self.background == ExportBackground::Transparent {
            let mut o = self;
            o.background = ExportBackground::White;
            o
        } else {
            self
        }
    }

    /// The options for an estimate: PNG is written fast.
    pub open spec fn for_estimate(self, format: ExportFormat) -> RasterExportOpts {
        if format is Jpeg {
            self
        } else {
            RasterExportOpts { png_compression: PngCompression::Fast, ..self }
        }
    }

    /// The options for an estimate.
    pub fn estimate_opts(self, format: ExportFormat) -> (r: RasterExportOpts)
        ensures
            r == self.for_estimate(format),
    {
        if format == ExportFormat::Jpeg {
            self
        } else {
            let mut o = self;
            o.png_compression = PngCompression::Fast;
            o
        }
    }

    /// The numbers that tell options apart, in order.
    pub open spec fn numbers(self, format: ExportFormat) -> Seq<u64> {
        seq![
            png_number(self.png_compression),
            flag(self.strip_opaque_alpha),
            self.jpeg_quality as u64,
            range_number(self.color_range),
            background_number(self.background),
            self.background_red as u64,
            self.background_green as u64,
            self.background_blue as u64,
            flag(self.ai_mid_freq),
            flag(self.ai_noise),
            flag(self.ai_grid),
            flag(self.ai_chroma),
            self.ai_protect_strength as u64,
            format_number(format),
        ]
    }
}

pub open spec fn flag(b: bool) -> u64 {
    if b {
        1
    } else {
        0
    }
}

fn flag_of(b: bool) -> (r: u64)
    ensures
        r == flag(b),
{
    if b {
        1
    } else {
        0
    }
}

pub open spec fn png_number(c: PngCompression) -> u64 {
    match c {
        PngCompression::Fast => 0,
        PngCompression::Default => 1,
        PngCompression::Best => 2,
    }
}

fn png_place(c: PngCompression) -> (r: u64)
    ensures
        r == png_number(c),
{
    match c {
        PngCompression::Fast => 0,
        PngCompression::Default => 1,
        PngCompression::Best => 2,
    }
}

pub open spec fn range_number(c: ColorRange) -> u64 {
    match c {
        ColorRange::Full => 0,
        ColorRange::Limited => 1,
        ColorRange::Grayscale => 2,
    }
}

fn range_place(c: ColorRange) -> (r: u64)
    ensures
        r == range_number(c),
{
    match c {
        ColorRange::Full => 0,
        ColorRange::Limited => 1,
        ColorRange::Grayscale => 2,
    }
}

pub open spec fn background_number(e: ExportBackground) -> u64 {
    match e {
        ExportBackground::Transparent => 0,
        ExportBackground::White => 1,
        ExportBackground::Black => 2,
        ExportBackground::Gray => 3,
        ExportBackground::Ui => 4,
        ExportBackground::Custom => 5,
    }
}

fn background_place(e: ExportBackground) -> (r: u64)
    ensures
        r == background_number(e),
{
    match e {
        ExportBackground::Transparent => 0,
        ExportBackground::White => 1,
        ExportBackground::Black => 2,
        ExportBackground::Gray => 3,
        ExportBackground::Ui => 4,
        ExportBackground::Custom => 5,
    }
}

pub open spec fn format_number(f: ExportFormat) -> u64 {
    match f {
        ExportFormat::Txmh => 0,
        ExportFormat::Psd => 1,
        ExportFormat::Png => 2,
        ExportFormat::Jpeg => 3,
        ExportFormat::Bmp => 4,
        ExportFormat::Tga => 5,
        ExportFormat::Webp => 6,
        ExportFormat::Gif => 7,
        ExportFormat::Tiff => 8,
        ExportFormat::Ico => 9,
    }
}

fn format_place(f: ExportFormat) -> (r: u64)
    ensures
        r == format_number(f),
{
    match f {
        ExportFormat::Txmh => 0,
        ExportFormat::Psd => 1,
        ExportFormat::Png => 2,
        ExportFormat::Jpeg => 3,
        ExportFormat::Bmp => 4,
        ExportFormat::Tga => 5,
        ExportFormat::Webp => 6,
        ExportFormat::Gif => 7,
        ExportFormat::Tiff => 8,
        ExportFormat::Ico => 9,
    }
}

/// Numbers mixed into a key: each step multiplies by 31, keeps 64 bits, and
/// puts the number in by exclusive or.
pub open spec fn mixed(numbers: Seq<u64>) -> u64
    decreases numbers.len(),
{
    if numbers.len() == 0 {
        0
    } else {
        ((mixed(numbers.drop_last()) as int * 31 % 0x1_0000_0000_0000_0000) as u64)
            ^ numbers.last()
    }
}

fn mix(h: u64, v: u64, Ghost(numbers): Ghost<Seq<u64>>) -> (r: u64)
    requires
        h == mixed(numbers),
    ensures
        r == mixed(numbers.push(v)),
{
    let t: u64 = h.wrapping_mul(31);
    assert(numbers.push(v).drop_last() =~= numbers);
    assert(t as int == (h as int * 31) % 0x1_0000_0000_0000_0000);
    t ^ v
}

impl RasterExportOpts {
    /// A key of the options for a format.
    pub fn key(&self, format: ExportFormat) -> (r: u64)
        ensures
            r == mixed(self.numbers(format)),
    {
        let values = vec![
            png_place(self.png_compression),
            flag_of(self.strip_opaque_alpha),
            self.jpeg_quality as u64,
            range_place(self.color_range),
            background_place(self.background),
            self.background_red as u64,
            self.background_green as u64,
            self.background_blue as u64,
            flag_of(self.ai_mid_freq),
            flag_of(self.ai_noise),
            flag_of(self.ai_grid),
            flag_of(self.ai_chroma),
            self.ai_protect_strength as u64,
            format_place(format),
        ];
        assert(values@ =~= self.numbers(format));
        let n: usize = values.len();
        let mut h: u64 = 0;
        let mut i: usize = 0;
        assert(values@.take(0) =~= Seq::empty());
        while i < n
            invariant
                i <= n,
                n == values.len(),
                h == mixed(values@.take(i as int)),
            decreases n - i,
        {
            h = mix(h, values[i], Ghost(values@.take(i as int)));
            assert(values@.take(i as int).push(values@[i as int]) =~= values@.take(i + 1));
            i += 1;
        }
        assert(values@.take(n as int) =~= values@);
        h
    }
}

/// Only a transparent background of a JPEG is changed, to white; everything else
/// of the options stays, and fitting twice changes no more than fitting once.
pub proof fn law_fitted(o: RasterExportOpts, format: ExportFormat)
    ensures
        ({
            let r = o.fitted(format);
            &&& (format is Jpeg ==> !(r.background is Transparent))
            &&& (!(o.background is Transparent) ==> r == o)
            &&& (!(format is Jpeg) ==> r == o)
            &&& (r.background == o.background || r.background is White)
            &&& r == (RasterExportOpts { background: r.background, ..o })
            &&& r.fitted(format) == r
        }),
{
}

/// An estimate is made with the options of the export; only how hard PNG is
/// compressed may differ, and that not for a JPEG, which has no such setting.
pub proof fn law_estimated(o: RasterExportOpts, format: ExportFormat)
    ensures
        ({
            let r = o.for_estimate(format);
            &&& r == (RasterExportOpts { png_compression: r.png_compression, ..o })
            &&& (format is Jpeg ==> r == o)
            &&& (!(format is Jpeg) ==> r.png_compression is Fast)
        }),
{
}

/// The numbers tell options apart: two that have the same are the same.
pub proof fn law_numbers_tell(a: RasterExportOpts, b: RasterExportOpts, f: ExportFormat, g: ExportFormat)
    requires
        a.numbers(f) == b.numbers(g),
    ensures
        a == b,
        f == g,
{
    let x = a.numbers(f);
    let y = b.numbers(g);
    assert(x[0] == y[0] && x[1] == y[1] && x[2] == y[2] && x[3] == y[3] && x[4] == y[4]);
    assert(x[5] == y[5] && x[6] == y[6] && x[7] == y[7] && x[8] == y[8] && x[9] == y[9]);
    assert(x[10] == y[10] && x[11] == y[11] && x[12] == y[12] && x[13] == y[13]);
}

} // verus!
