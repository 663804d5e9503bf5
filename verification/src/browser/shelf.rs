//! The canvases of the library as a list of files.
use vstd::prelude::*;
use crate::browser::filter::TypeFilters;
use crate::browser::state::{FileBrowser, Item, ListingItem, item_views};
use crate::files::library::{Entry, LibraryEntry, LibraryStore};
use crate::order::{lemma_sorted_map, stable_sort, stable_sorted};
use crate::paths::{file_name_or, file_stem_or, tells_format, tells_name_or, tells_stem_or};
use crate::text::{glue3, is_blank, texts};

verus! {

/// A canvas on its way into the list.
pub struct CanvasRow {
    pub item: ListingItem,
    /// Whether it is shown at all.
    pub shown: bool,
    pub pinned: bool,
    pub last_opened: u64,
}

#[verifier::ext_equal]
pub struct Row {
    pub item: Item,
    pub shown: bool,
    pub pinned: bool,
    pub last_opened: u64,
}

impl View for CanvasRow {
    type V = Row;

    open spec fn view(&self) -> Row {
        Row {
            item: self.item@,
            shown: self.shown,
            pinned: self.pinned,
            last_opened: self.last_opened,
        }
    }
}

pub open spec fn row_views(v: Seq<CanvasRow>) -> Seq<Row> {
    v.map_values(|r: CanvasRow| r@)
}

/// Whether a canvas comes first: a pinned one, then the one opened later.
pub open spec fn row_before(a: Row, b: Row) -> bool {
    if a.pinned != b.pinned {
        a.pinned
    } else {
        a.last_opened > b.last_opened
    }
}

/// The items of the rows that are shown, in order.
pub open spec fn shown_items(rows: Seq<Row>) -> Seq<Item>
    decreases rows.len(),
{
    if rows.len() == 0 {
        Seq::empty()
    } else {
        let before = shown_items(rows.drop_last());
        if rows.last().shown {
            before.push(rows.last().item)
        } else {
            before
        }
    }
}

/// The list of rows: pinned ones first, then by the time they were opened.
pub open spec fn shelf(rows: Seq<Row>) -> Seq<Item> {
    shown_items(stable_sorted(rows, |a: Row, b: Row| row_before(a, b)))
}

fn row_first(a: &CanvasRow, b: &CanvasRow) -> (r: bool)
    ensures
        r == row_before(a@, b@),
{
    if a.pinned != b.pinned {
        a.pinned
    } else {
        a.last_opened > b.last_opened
    }
}

/// The list of rows: pinned ones first, then by the time they were opened.
pub fn shelf_items(rows: Vec<CanvasRow>) -> (r: Vec<ListingItem>)
    ensures
        item_views(r@) == shelf(row_views(rows@)),
{
    let mut rows = rows;
    let ghost start = rows@;
    let ghost before = |a: CanvasRow, b: CanvasRow| row_before(a@, b@);
    stable_sort(&mut rows, row_first, Ghost(before));
    proof {
        lemma_sorted_map(
            start,
            |r: CanvasRow| r@,
            before,
            |a: Row, b: Row| row_before(a, b),
        );
    }
    let ghost sorted = row_views(rows@);
    let n: usize = rows.len();
    let mut out: Vec<ListingItem> = Vec::new();
    let mut i: usize = 0;
    assert(sorted.take(0) =~= Seq::empty());
    assert(item_views(out@) =~= Seq::empty());
    while i < n
        invariant
            i <= n,
            n == rows.len(),
            sorted == row_views(rows@),
            item_views(out@) == shown_items(sorted.take(i as int)),
        decreases n - i,
    {
        let ghost b = item_views(out@);
        proof {
            let t = sorted.take(i + 1);
            assert(t.drop_last() =~= sorted.take(i as int));
            assert(t.last() == rows@[i as int]@);
        }
        if rows[i].shown {
            let it = rows[i].item.copy();
            out.push(it);
            assert(item_views(out@) =~= b.push(it@));
        }
        i += 1;
    }
    assert(sorted.take(n as int) =~= sorted);
    out
}

/// A stem with an entry's format, where it has one.
pub open spec fn stem_in_format(stem: Seq<char>, format: Seq<char>) -> Seq<char> {
    if format.len() == 0 {
        stem
    } else {
        stem + "."@ + format
    }
}

/// Whether a name is that of a canvas in the list: its file's name where it has
/// none of its own, else its file's stem with the entry's format.
pub open spec fn is_canvas_label(e: Entry, label: Seq<char>) -> bool {
    if e.name.len() == 0 {
        tells_name_or(e.path, e.path, label)
    } else {
        exists|stem: Seq<char>| #[trigger]
            tells_stem_or(e.path, e.name, stem) && label == stem_in_format(stem, e.format)
    }
}

/// Whether a row is that of an entry.
pub open spec fn row_of(r: Row, e: Entry, is_file: bool, filters: TypeFilters) -> bool {
    &&& r.item.path == e.path
    &&& !r.item.is_dir
    &&& r.pinned == e.pinned
    &&& r.last_opened == e.last_opened
    &&& !is_file ==> !r.shown
    &&& is_canvas_label(e, r.item.name)
    &&& is_file ==> exists|f: Seq<char>| #[trigger]
        tells_format(e.path, f) && r.shown == filters.accepts(f)
}

fn make_row(e: &LibraryEntry, is_file: bool, filters: TypeFilters) -> (r: CanvasRow)
    ensures
        row_of(r@, e@, is_file, filters),
{
    let path = e.path.as_str();
    let name = if is_blank(e.name.as_str()) {
        file_name_or(path, path)
    } else {
        let stem = file_stem_or(path, e.name.as_str());
        let ghost known = tells_stem_or(e@.path, e@.name, stem@);
        if is_blank(e.format.as_str()) {
            stem
        } else {
            glue3(stem.as_str(), ".", e.format.as_str())
        }
    };
    let shown: bool = is_file && filters.accepts_file(path);
    CanvasRow {
        item: ListingItem { name, path: path.to_owned(), is_dir: false },
        shown,
        pinned: e.pinned,
        last_opened: e.last_opened,
    }
}

/// Whether rows are those of a library's entries, one for one.
pub open spec fn rows_of(
    rows: Seq<Row>,
    entries: Seq<Entry>,
    is_file: Seq<bool>,
    filters: TypeFilters,
) -> bool {
    &&& rows.len() == entries.len()
    &&& forall|i: int|
        0 <= i < rows.len() ==> row_of(#[trigger] rows[i], entries[i], is_file[i], filters)
}

fn make_rows(library: &LibraryStore, is_file: &Vec<bool>, filters: TypeFilters) -> (r: Vec<
    CanvasRow,
>)
    requires
        is_file.len() == library.entries.len(),
    ensures
        rows_of(row_views(r@), library@.entries, is_file@, filters),
{
    let n: usize = library.entries.len();
    let mut rows: Vec<CanvasRow> = Vec::new();
    let mut i: usize = 0;
    while i < n
        invariant
            i <= n,
            n == library.entries.len(),
            n == is_file.len(),
            rows.len() == i,
            forall|j: int|
                0 <= j < i ==> row_of(
                    (#[trigger] rows@[j])@,
                    library@.entries[j],
                    is_file@[j],
                    filters,
                ),
        decreases n - i,
    {
        let r = make_row(&library.entries[i], is_file[i], filters);
        assert(row_of(r@, library@.entries[i as int], is_file@[i as int], filters));
        rows.push(r);
        i += 1;
    }
    assert forall|j: int| 0 <= j < n implies row_of(
        #[trigger] row_views(rows@)[j],
        library@.entries[j],
        is_file@[j],
        filters,
    ) by {
        assert(row_of(rows@[j]@, library@.entries[j], is_file@[j], filters));
    }
    rows
}

impl FileBrowser {
    /// Shows the canvases of the library. `is_file` tells of each entry, in
    /// order, whether it is still on disk.
    pub fn fill_gallery_entries(&mut self, library: &LibraryStore, is_file: &Vec<bool>)
        requires
            is_file.len() == library.entries.len(),
        ensures
            exists|rows: Seq<Row>|
                rows_of(rows, library@.entries, is_file@, old(self)@.type_filters)
                    && final(self)@ == old(self)@.showing(#[trigger] shelf(rows), Seq::empty()),
    {
        let rows = make_rows(library, is_file, self.type_filters);
        let ghost gr = row_views(rows@);
        let items = shelf_items(rows);
        self.thumbs.queue = Vec::new();
        assert(texts(self.thumbs.queue@) =~= Seq::empty());
        self.show_items(items);
        assert(self@ == old(self)@.showing(shelf(gr), Seq::empty()));
    }
}

} // verus!
