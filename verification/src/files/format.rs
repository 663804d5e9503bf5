//! File formats and the filters that file dialogs offer.
use vstd::prelude::*;
use crate::text::{copy_texts, texts};

verus! {

#[derive(Clone, Copy, Debug, PartialEq, Eq, Structural)]
pub enum ExportFormat {
    Txmh,
    Psd,
    Png,
    Jpeg,
    Bmp,
    Tga,
    Webp,
    Gif,
    Tiff,
    Ico,
}

impl ExportFormat {
    pub open spec fn label_text(self) -> Seq<char> {
        match self {
            ExportFormat::Txmh => "Beautiful (.txmh)"@,
            ExportFormat::Psd => "PSD (.psd, layered)"@,
            ExportFormat::Png => "PNG (.png)"@,
            ExportFormat::Jpeg => "JPEG (.jpg)"@,
            ExportFormat::Bmp => "BMP (.bmp)"@,
            ExportFormat::Tga => "TGA (.tga)"@,
            ExportFormat::Webp => "WebP (.webp)"@,
            ExportFormat::Gif => "GIF (.gif)"@,
            ExportFormat::Tiff => "TIFF (.tif)"@,
            ExportFormat::Ico => "ICO (.ico)"@,
        }
    }

    pub fn label(self) -> (r: &'static str)
        ensures
            r@ == self.label_text(),
    {
        match self {
            ExportFormat::Txmh => "Beautiful (.txmh)",
            ExportFormat::Psd => "PSD (.psd, layered)",
            ExportFormat::Png => "PNG (.png)",
            ExportFormat::Jpeg => "JPEG (.jpg)",
            ExportFormat::Bmp => "BMP (.bmp)",
            ExportFormat::Tga => "TGA (.tga)",
            ExportFormat::Webp => "WebP (.webp)",
            ExportFormat::Gif => "GIF (.gif)",
            ExportFormat::Tiff => "TIFF (.tif)",
            ExportFormat::Ico => "ICO (.ico)",
        }
    }

    pub open spec fn extension_text(self) -> Seq<char> {
        match self {
            ExportFormat::Txmh => "txmh"@,
            ExportFormat::Psd => "psd"@,
            ExportFormat::Png => "png"@,
            ExportFormat::Jpeg => "jpg"@,
            ExportFormat::Bmp => "bmp"@,
            ExportFormat::Tga => "tga"@,
            ExportFormat::Webp => "webp"@,
            ExportFormat::Gif => "gif"@,
            ExportFormat::Tiff => "tif"@,
            ExportFormat::Ico => "ico"@,
        }
    }

    /// The extension of the format's files, without a dot.
    pub fn extension(self) -> (r: &'static str)
        ensures
            r@ == self.extension_text(),
    {
        match self {
            ExportFormat::Txmh => "txmh",
            ExportFormat::Psd => "psd",
            ExportFormat::Png => "png",
            ExportFormat::Jpeg => "jpg",
            ExportFormat::Bmp => "bmp",
            ExportFormat::Tga => "tga",
            ExportFormat::Webp => "webp",
            ExportFormat::Gif => "gif",
            ExportFormat::Tiff => "tif",
            ExportFormat::Ico => "ico",
        }
    }

    /// Whether the format is a flat picture that is written without options.
    pub fn is_simple_raster(self) -> (r: bool)
        ensures
            r == (self is Bmp || self is Webp || self is Gif || self is Tga || self is Tiff
                || self is Ico),
    {
        matches!(
            self,
            ExportFormat::Bmp | ExportFormat::Webp | ExportFormat::Gif | ExportFormat::Tga | ExportFormat::Tiff | ExportFormat::Ico
        )
    }
}

/// An extension holds no dot, separator or colon, and is not empty.
pub proof fn law_plain_extension(f: ExportFormat)
    ensures
        f.extension_text().len() > 0,
        !f.extension_text().contains('/'),
        !f.extension_text().contains('.'),
        !f.extension_text().contains('\\'),
        !f.extension_text().contains(':'),
{
    reveal_strlit("txmh");
    reveal_strlit("psd");
    reveal_strlit("png");
    reveal_strlit("jpg");
    reveal_strlit("bmp");
    reveal_strlit("tga");
    reveal_strlit("webp");
    reveal_strlit("gif");
    reveal_strlit("tif");
    reveal_strlit("ico");
}

/// The formats that the settings switch on.
#[derive(Clone, Copy, Debug, PartialEq, Eq, Structural)]
pub struct FormatFlags {
    pub txmh: bool,
    pub psd: bool,
    pub png: bool,
    pub jpeg: bool,
    pub bmp: bool,
    pub tga: bool,
    pub webp: bool,
    pub gif: bool,
    pub tiff: bool,
    pub ico: bool,
    pub svg: bool,
}

/// A filter of a file dialog: its name and its extensions.
pub struct DialogFilter {
    pub name: String,
    pub extensions: Vec<String>,
}

impl View for DialogFilter {
    type V = (Seq<char>, Seq<Seq<char>>);

    open spec fn view(&self) -> (Seq<char>, Seq<Seq<char>>) {
        (self.name@, texts(self.extensions@))
    }
}

pub open spec fn filter_views(v: Seq<DialogFilter>) -> Seq<(Seq<char>, Seq<Seq<char>>)> {
    v.map_values(|f: DialogFilter| f@)
}

/// A list of one filter where it is switched on, else an empty one.
pub open spec fn offered(on: bool, name: Seq<char>, extensions: Seq<Seq<char>>) -> Seq<
    (Seq<char>, Seq<Seq<char>>),
> {
    if on {
        seq![(name, extensions)]
    } else {
        Seq::empty()
    }
}

/// The extensions of pictures in PNG and JPEG, as far as they are switched on.
pub open spec fn picture_extensions(f: FormatFlags) -> Seq<Seq<char>> {
    (if f.png {
        seq!["png"@]
    } else {
        Seq::empty()
    }) + (if f.jpeg {
        seq!["jpg"@, "jpeg"@]
    } else {
        Seq::empty()
    })
}

/// One filter for each group of formats that is switched on.
pub open spec fn group_filters(f: FormatFlags) -> Seq<(Seq<char>, Seq<Seq<char>>)> {
    offered(f.txmh, "TXMH"@, seq!["txmh"@, "beautiful"@])
        + offered(f.psd, "PSD"@, seq!["psd"@])
        + offered(f.png || f.jpeg, "PNG / JPEG"@, picture_extensions(f))
        + offered(f.bmp, "BMP"@, seq!["bmp"@])
        + offered(f.tga, "TGA"@, seq!["tga"@])
        + offered(f.webp, "WebP"@, seq!["webp"@])
        + offered(f.gif, "GIF"@, seq!["gif"@])
        + offered(f.tiff, "TIFF"@, seq!["tif"@, "tiff"@])
        + offered(f.ico, "ICO"@, seq!["ico"@])
        + offered(f.svg, "SVG"@, seq!["svg"@])
}

/// The extensions of all filters, in order.
pub open spec fn all_extensions(filters: Seq<(Seq<char>, Seq<Seq<char>>)>) -> Seq<Seq<char>>
    decreases filters.len(),
{
    if filters.len() == 0 {
        Seq::empty()
    } else {
        all_extensions(filters.drop_last()) + filters.last().1
    }
}

/// The filters of the dialog that opens files: one for each group that is
/// switched on, one for all of those, and one for any file.
pub open spec fn dialog_filters(f: FormatFlags) -> Seq<(Seq<char>, Seq<Seq<char>>)> {
    group_filters(f) + offered(
        all_extensions(group_filters(f)).len() > 0,
        "Enabled formats"@,
        all_extensions(group_filters(f)),
    ) + seq![("All"@, seq!["*"@])]
}

fn one(a: &str) -> (r: Vec<String>)
    ensures
        texts(r@) == seq![a@],
{
    let r = vec![a.to_owned()];
    assert(texts(r@) =~= seq![a@]);
    r
}

fn two(a: &str, b: &str) -> (r: Vec<String>)
    ensures
        texts(r@) == seq![a@, b@],
{
    let r = vec![a.to_owned(), b.to_owned()];
    assert(texts(r@) =~= seq![a@, b@]);
    r
}

fn offer(list: &mut Vec<DialogFilter>, on: bool, name: &str, extensions: Vec<String>)
    ensures
        filter_views(final(list)@) == filter_views(old(list)@) + offered(
            on,
            name@,
            texts(extensions@),
        ),
{
    if on {
        list.push(DialogFilter { name: name.to_owned(), extensions });
    }
    assert(filter_views(list@) =~= filter_views(old(list)@) + offered(
        on,
        name@,
        texts(extensions@),
    ));
}

fn pictures(formats: &FormatFlags) -> (r: Vec<String>)
    ensures
        texts(r@) == picture_extensions(*formats),
{
    let mut pictures: Vec<String> = Vec::new();
    if formats.png {
        pictures.push("png".to_owned());
    }
    if formats.jpeg {
        pictures.push("jpg".to_owned());
        pictures.push("jpeg".to_owned());
    }
    assert(texts(pictures@) =~= picture_extensions(*formats));
    pictures
}

/// The filters of the dialog that opens files.
pub fn open_dialog_filters(formats: &FormatFlags) -> (r: Vec<DialogFilter>)
    ensures
        filter_views(r@) == dialog_filters(*formats),
{
    let mut list: Vec<DialogFilter> = Vec::new();
    assert(filter_views(list@) =~= Seq::empty());
    offer(&mut list, formats.txmh, "TXMH", two("txmh", "beautiful"));
    assert(filter_views(list@) =~= offered(formats.txmh, "TXMH"@, seq!["txmh"@, "beautiful"@]));
    offer(&mut list, formats.psd, "PSD", one("psd"));
    offer(&mut list, formats.png || formats.jpeg, "PNG / JPEG", pictures(formats));
    offer(&mut list, formats.bmp, "BMP", one("bmp"));
    offer(&mut list, formats.tga, "TGA", one("tga"));
    offer(&mut list, formats.webp, "WebP", one("webp"));
    offer(&mut list, formats.gif, "GIF", one("gif"));
    offer(&mut list, formats.tiff, "TIFF", two("tif", "tiff"));
    offer(&mut list, formats.ico, "ICO", one("ico"));
    offer(&mut list, formats.svg, "SVG", one("svg"));
    assert(filter_views(list@) == group_filters(*formats));
    let combined = combined_extensions(&list);
    let any: bool = combined.len() > 0;
    assert(texts(combined@).len() == combined@.len());
    offer(&mut list, any, "Enabled formats", combined);
    offer(&mut list, true, "All", one("*"));
    list
}

fn combined_extensions(list: &Vec<DialogFilter>) -> (r: Vec<String>)
    ensures
        texts(r@) == all_extensions(filter_views(list@)),
{
    let n: usize = list.len();
    let mut out: Vec<String> = Vec::new();
    let mut i: usize = 0;
    assert(texts(out@) =~= Seq::empty());
    while i < n
        invariant
            i <= n,
            n == list.len(),
            texts(out@) == all_extensions(filter_views(list@).take(i as int)),
        decreases n - i,
    {
        let mut more = copy_texts(&list[i].extensions);
        let ghost before = texts(out@);
        let ghost added = texts(more@);
        out.append(&mut more);
        assert(texts(out@) =~= before + added);
        proof {
            let t = filter_views(list@).take(i + 1);
            assert(t.drop_last() =~= filter_views(list@).take(i as int));
            assert(t.last() == list@[i as int]@);
        }
        i += 1;
    }
    assert(filter_views(list@).take(n as int) =~= filter_views(list@));
    out
}

} // verus!
