//! What a card tells of its canvas: its title, its menu, and the panel beside
//! it.
//!
//! Lengths and places are thousandths of a point.
use vstd::prelude::*;
use crate::browser::labels::{truncate_name, truncated};
use crate::dock::geometry::{Point, Rect, near, near_i32};
use crate::files::library::{
    COLLECTION_ALL, COLLECTION_RECENT, Entry, LibraryEntry, LibraryStore, tag_names,
};
use crate::gallery::date::{duration_words, format_duration};
use crate::gallery::entries::{display_name_format, is_card_name};
use crate::lists::chosen;
use crate::text::{glue, glue3, has_text, is_blank, same_text, texts};

verus! {

/// The most characters of a title.
pub const TITLE_LENGTH: usize = 24;

/// The title on a card.
pub fn card_title(e: &LibraryEntry) -> (r: String)
    ensures
        exists|name: Seq<char>| #[trigger]
            is_card_name(e@, name) && r@ == truncated(name, TITLE_LENGTH as int),
{
    let name = display_name_format(e);
    let ghost known = is_card_name(e@, name@);
    truncate_name(name.as_str(), TITLE_LENGTH)
}

/// What the menu says of pinning.
pub fn pin_label(pinned: bool) -> (r: &'static str)
    ensures
        r@ == (if pinned {
            "★ Убрать из важных"@
        } else {
            "☆ В важные холсты"@
        }),
{
    if pinned {
        "★ Убрать из важных"
    } else {
        "☆ В важные холсты"
    }
}

/// What the menu says of veiling.
pub fn nsfw_label(nsfw: bool) -> (r: &'static str)
    ensures
        r@ == (if nsfw {
            "☐ Снять NSFW"@
        } else {
            "☑ Пометить как NSFW"@
        }),
{
    if nsfw {
        "☐ Снять NSFW"
    } else {
        "☑ Пометить как NSFW"
    }
}

/// A tag in the menu: checked where the canvas has it.
pub open spec fn tag_line(tags: Seq<Seq<char>>, name: Seq<char>) -> Seq<char> {
    if tags.contains(name) {
        "✓ "@ + name
    } else {
        "  "@ + name
    }
}

/// The tags in the menu, in the library's order.
pub fn tag_lines(e: &LibraryEntry, library: &LibraryStore) -> (r: Vec<String>)
    ensures
        texts(r@) == tag_names(library@.tags).map_values(
            |n: Seq<char>| tag_line(e@.tags, n),
        ),
{
    let n: usize = library.tags.len();
    let ghost want = tag_names(library@.tags).map_values(|n: Seq<char>| tag_line(e@.tags, n));
    let mut out: Vec<String> = Vec::new();
    let mut i: usize = 0;
    assert(want.len() == n);
    while i < n
        invariant
            i <= n,
            n == library.tags.len(),
            want == tag_names(library@.tags).map_values(|n: Seq<char>| tag_line(e@.tags, n)),
            want.len() == n,
            texts(out@) == want.take(i as int),
        decreases n - i,
    {
        let name = library.tags[i].name.as_str();
        let ghost before = texts(out@);
        assert(tag_names(library@.tags)[i as int] == name@);
        let line = if has_text(&e.tags, name) {
            glue("✓ ", name)
        } else {
            glue("  ", name)
        };
        assert(line@ == want[i as int]);
        out.push(line);
        assert(texts(out@) =~= before.push(line@));
        assert(before.push(line@) =~= want.take(i + 1));
        i += 1;
    }
    assert(want.take(n as int) =~= want);
    out
}

/// Whether a collection is none of the two that are always there.
pub open spec fn added_collection(name: Seq<char>) -> bool {
    name != COLLECTION_RECENT@ && name != COLLECTION_ALL@
}

/// Of each name whether it is none of the two that are always there.
pub open spec fn own_flags(names: Seq<Seq<char>>) -> Seq<bool> {
    names.map_values(|n: Seq<char>| added_collection(n))
}

/// The collections that a canvas can be put into: all but the two that are
/// always there.
pub fn own_collections(names: &Vec<String>) -> (r: Vec<String>)
    ensures
        texts(r@) == chosen(texts(names@), own_flags(texts(names@))),
{
    let ghost all = texts(names@);
    let n: usize = names.len();
    let mut out: Vec<String> = Vec::new();
    let mut i: usize = 0;
    assert(all.take(0) =~= Seq::empty());
    assert(texts(out@) =~= Seq::empty());
    assert(all.len() == n);
    while i < n
        invariant
            i <= n,
            n == names.len(),
            all == texts(names@),
            all.len() == n,
            texts(out@) == chosen(all.take(i as int), own_flags(all)),
        decreases n - i,
    {
        let ghost before = texts(out@);
        let name = names[i].as_str();
        proof {
            assert(all.take(i + 1).drop_last() =~= all.take(i as int));
            assert(all.take(i + 1).last() == name@);
            assert(own_flags(all)[i as int] == added_collection(name@));
        }
        if !same_text(name, COLLECTION_RECENT) && !same_text(name, COLLECTION_ALL) {
            out.push(name.to_owned());
            assert(texts(out@) =~= before.push(name@));
        }
        i += 1;
    }
    assert(all.take(n as int) =~= all);
    out
}

/// The lines of the panel beside a card.
pub struct HoverLines {
    pub name: String,
    pub format: String,
    pub collection: String,
    /// Each tag in brackets.
    pub tags: Vec<String>,
    pub time: String,
    pub nsfw: bool,
    pub pinned: bool,
}

/// The line about the format.
pub open spec fn format_line(format: Seq<char>) -> Seq<char> {
    "Формат: ."@ + if format.len() == 0 {
        "?"@
    } else {
        format
    }
}

/// The line about the collection.
pub open spec fn collection_line(collection: Seq<char>) -> Seq<char> {
    "Коллекция: "@ + if collection.len() == 0 {
        "Без коллекции"@
    } else {
        collection
    }
}

/// The line about the collection.
pub fn collection_text(collection: &str) -> (r: String)
    ensures
        r@ == collection_line(collection@),
{
    glue(
        "Коллекция: ",
        if is_blank(collection) {
            "Без коллекции"
        } else {
            collection
        },
    )
}

/// What the panel beside a card says.
pub open spec fn says(l: HoverLines, e: Entry) -> bool {
    &&& l.name@ == e.name
    &&& l.format@ == format_line(e.format)
    &&& l.collection@ == collection_line(e.collection)
    &&& texts(l.tags@) == e.tags.map_values(|t: Seq<char>| "["@ + t + "]"@)
    &&& l.time@ == "Время в холсте: "@ + duration_words(e.time_spent_secs)
    &&& l.nsfw == e.nsfw
    &&& l.pinned == e.pinned
}

/// The lines of the panel beside a card.
pub fn hover_lines(e: &LibraryEntry) -> (r: HoverLines)
    ensures
        says(r, e@),
{
    let format = glue(
        "Формат: .",
        if is_blank(e.format.as_str()) {
            "?"
        } else {
            e.format.as_str()
        },
    );
    let collection = collection_text(e.collection.as_str());
    let spent = format_duration(e.time_spent_secs);
    let time = glue("Время в холсте: ", spent.as_str());
    HoverLines {
        name: e.name.as_str().to_owned(),
        format,
        collection,
        tags: bracketed(&e.tags),
        time,
        nsfw: e.nsfw,
        pinned: e.pinned,
    }
}

fn bracketed(tags: &Vec<String>) -> (r: Vec<String>)
    ensures
        texts(r@) == texts(tags@).map_values(|t: Seq<char>| "["@ + t + "]"@),
{
    let ghost want = texts(tags@).map_values(|t: Seq<char>| "["@ + t + "]"@);
    let n: usize = tags.len();
    let mut out: Vec<String> = Vec::new();
    let mut i: usize = 0;
    assert(want.len() == n);
    while i < n
        invariant
            i <= n,
            n == tags.len(),
            want == texts(tags@).map_values(|t: Seq<char>| "["@ + t + "]"@),
            want.len() == n,
            texts(out@) == want.take(i as int),
        decreases n - i,
    {
        let ghost before = texts(out@);
        let t = glue3("[", tags[i].as_str(), "]");
        assert(texts(tags@)[i as int] == tags@[i as int]@);
        assert(t@ == want[i as int]);
        out.push(t);
        assert(texts(out@) =~= before.push(t@));
        assert(before.push(t@) =~= want.take(i + 1));
        i += 1;
    }
    assert(want.take(n as int) =~= want);
    out
}

pub open spec fn larger(a: int, b: int) -> int {
    if a < b {
        b
    } else {
        a
    }
}

/// Where the panel beside a card goes: to its right, or where that leaves the
/// screen to its left; and no lower than it fits.
pub open spec fn panel_place(card: Rect, screen: Rect) -> (int, int) {
    let x = card.right + 12_000;
    let y = card.top as int;
    (
        if x + 400_000 > screen.right - 8_000 {
            larger(card.left - 412_000, screen.left + 8_000)
        } else {
            x
        },
        if y + 200_000 > screen.bottom {
            larger(screen.bottom - 220_000, screen.top + 8_000)
        } else {
            y
        },
    )
}

/// Where the panel beside a card goes.
pub fn place_panel(card: &Rect, screen: &Rect) -> (r: Point)
    ensures
        r == (Point { x: near(panel_place(*card, *screen).0), y: near(
            panel_place(*card, *screen).1,
        ) }),
{
    let mut x: i64 = card.right as i64 + 12_000;
    let mut y: i64 = card.top as i64;
    if x + 400_000 > screen.right as i64 - 8_000 {
        let beside: i64 = card.left as i64 - 412_000;
        let edge: i64 = screen.left as i64 + 8_000;
        x = if beside < edge {
            edge
        } else {
            beside
        };
    }
    if y + 200_000 > screen.bottom as i64 {
        let up: i64 = screen.bottom as i64 - 220_000;
        let edge: i64 = screen.top as i64 + 8_000;
        y = if up < edge {
            edge
        } else {
            up
        };
    }
    Point { x: near_i32(x), y: near_i32(y) }
}

/// The panel does not cover the card it belongs to, unless the screen is too
/// narrow for both.
pub proof fn law_panel_beside_card(card: Rect, screen: Rect)
    requires
        card.left <= card.right,
    ensures
        ({
            let x = panel_place(card, screen).0;
            ||| x >= card.right + 12_000
            ||| x + 400_000 <= card.left - 12_000
            ||| x == screen.left + 8_000 && card.left - 412_000 < screen.left + 8_000
        }),
{
}

} // verus!
