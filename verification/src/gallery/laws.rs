//! What the gallery shows, in which order, and how dates and times are told.
use vstd::prelude::*;
use crate::browser::shelf::stem_in_format;
use crate::dock::geometry::Rect;
use crate::files::library::{COLLECTION_ALL, COLLECTION_RECENT, Entry, opened_later};
use crate::gallery::cards::{Gallery, looked_among, looked_at};
use crate::gallery::date::{
    date_words, day_number, days_before_month, days_before_year, days_since, duration_words,
    is_date, is_leap, month_days, month_name,
};
use crate::gallery::entries::{
    SearchIn, SortMode, collected, found_in, in_collection, law_sorted_gallery, lowercase_text,
    matching, pinned_among, sorted_by,
};
use crate::gallery::hover::{added_collection, collection_line, format_line, panel_place, tag_line};
use crate::order::{law_sorted_in_order, law_sorted_keeps_items, stable_sorted, weak_order};
use crate::paths::parts::{has_place, same_place};
use crate::paths::reading::System;
use crate::text::{comes_before, decimal, holds_text};

verus! {

/// By name the gallery goes from A to Z; by change, by opening and by time spent
/// the latest and the longest come first.
pub proof fn law_order_of_cards(entries: Seq<Entry>, i: int, j: int)
    requires
        0 <= i < j < entries.len(),
    ensures
        !comes_before(
            lowercase_text(sorted_by(entries, SortMode::Name)[j].name),
            lowercase_text(sorted_by(entries, SortMode::Name)[i].name),
        ),
        sorted_by(entries, SortMode::Modified)[i].modified >= sorted_by(
            entries,
            SortMode::Modified,
        )[j].modified,
        sorted_by(entries, SortMode::LastOpened)[i].last_opened >= sorted_by(
            entries,
            SortMode::LastOpened,
        )[j].last_opened,
        sorted_by(entries, SortMode::TimeSpent)[i].time_spent_secs >= sorted_by(
            entries,
            SortMode::TimeSpent,
        )[j].time_spent_secs,
        sorted_by(entries, SortMode::Name).len() == entries.len(),
        sorted_by(entries, SortMode::Modified).len() == entries.len(),
        sorted_by(entries, SortMode::LastOpened).len() == entries.len(),
        sorted_by(entries, SortMode::TimeSpent).len() == entries.len(),
{
    lemma_one_order(entries, SortMode::Name, i, j);
    lemma_one_order(entries, SortMode::Modified, i, j);
    lemma_one_order(entries, SortMode::LastOpened, i, j);
    lemma_one_order(entries, SortMode::TimeSpent, i, j);
}

proof fn lemma_one_order(entries: Seq<Entry>, mode: SortMode, i: int, j: int)
    requires
        0 <= i < j < entries.len(),
    ensures
        !mode.before(sorted_by(entries, mode)[j], sorted_by(entries, mode)[i]),
        sorted_by(entries, mode).len() == entries.len(),
{
    let before = |a: Entry, b: Entry| mode.before(a, b);
    law_sorted_gallery(entries, mode);
    law_sorted_keeps_items(entries, before);
    let s = sorted_by(entries, mode);
    assert(!before(s[j], s[i]));
}

/// The entries of a collection and those that are pinned are exactly those that
/// say so, in their order.
pub proof fn law_parts_of_the_library(entries: Seq<Entry>, collection: Seq<char>)
    ensures
        in_collection(entries, collection) == entries.filter(|e: Entry| e.collection == collection),
        pinned_among(entries) == entries.filter(|e: Entry| e.pinned),
    decreases entries.len(),
{
    reveal(Seq::filter);
    if entries.len() > 0 {
        law_parts_of_the_library(entries.drop_last(), collection);
    }
}

/// The collection of all has every entry, that of recent ones the 24 that were
/// opened last, the last one first, and any other those that say to be in it.
pub proof fn law_collected(entries: Seq<Entry>, collection: Seq<char>)
    ensures
        collected(entries, COLLECTION_ALL@) == entries,
        collection != COLLECTION_ALL@ && collection != COLLECTION_RECENT@ ==> collected(
            entries,
            collection,
        ) == entries.filter(|e: Entry| e.collection == collection),
        entries.len() <= 24 ==> collected(entries, COLLECTION_RECENT@).to_multiset()
            == entries.to_multiset(),
        entries.len() > 24 ==> collected(entries, COLLECTION_RECENT@).len() == 24,
        forall|i: int, j: int|
            0 <= i < j < collected(entries, COLLECTION_RECENT@).len() ==> (#[trigger] collected(
                entries,
                COLLECTION_RECENT@,
            )[i]).last_opened >= (#[trigger] collected(entries, COLLECTION_RECENT@)[j]).last_opened,
{
    assert(COLLECTION_ALL@ != COLLECTION_RECENT@) by {
        reveal_strlit("Все холсты");
        reveal_strlit("Недавние");
        assert("Все холсты"@.len() == 10 && "Недавние"@.len() == 8);
        assert(COLLECTION_ALL@ == "Все холсты"@);
        assert(COLLECTION_RECENT@ == "Недавние"@);
    }
    law_parts_of_the_library(entries, collection);
    let before = |a: Entry, b: Entry| opened_later(a, b);
    let s = stable_sorted(entries, before);
    law_sorted_keeps_items(entries, before);
    assert(weak_order(before));
    law_sorted_in_order(entries, before);
    assert forall|i: int, j: int| 0 <= i < j < s.len() implies (#[trigger] s[i]).last_opened >= (
    #[trigger] s[j]).last_opened by {
        assert(!before(s[j], s[i]));
    }
}

/// Whether an entry is found: what is searched for stands in one of the places
/// that are searched, and in its name where no place is chosen.
pub open spec fn is_found(places: SearchIn, query: Seq<char>) -> spec_fn(Entry) -> bool {
    |e: Entry|
        {
            ||| places.name && holds_text(lowercase_text(e.name), query)
            ||| places.format && holds_text(lowercase_text(e.format), query)
            ||| places.collection && holds_text(lowercase_text(e.collection), query)
            ||| !(places.name || places.format || places.collection) && holds_text(
                lowercase_text(e.name),
                query,
            )
        }
}

/// A search shows exactly the entries that have what is searched for in a chosen
/// place, in their order.
pub proof fn law_search_is_exact(entries: Seq<Entry>, places: SearchIn, query: Seq<char>)
    requires
        query.len() > 0,
    ensures
        matching(entries, places, query) == entries.filter(is_found(places, query)),
    decreases entries.len(),
{
    reveal(Seq::filter);
    if entries.len() > 0 {
        law_search_is_exact(entries.drop_last(), places, query);
    }
}

/// A place that is not searched does not count, and one more place never hides
/// an entry.
pub proof fn law_places_of_search(
    query: Seq<char>,
    name: Seq<char>,
    format: Seq<char>,
    collection: Seq<char>,
    other: Seq<char>,
    a: SearchIn,
    b: SearchIn,
)
    ensures
        !a.format ==> found_in(a, query, name, format, collection) == found_in(
            a,
            query,
            name,
            other,
            collection,
        ),
        !a.collection ==> found_in(a, query, name, format, collection) == found_in(
            a,
            query,
            name,
            format,
            other,
        ),
        !a.name && (a.format || a.collection) ==> found_in(a, query, name, format, collection)
            == found_in(a, query, other, format, collection),
        (a.name || a.format || a.collection) && (a.name ==> b.name) && (a.format ==> b.format) && (
        a.collection ==> b.collection) && found_in(a, query, name, format, collection) ==> found_in(
            b,
            query,
            name,
            format,
            collection,
        ),
        a.name && holds_text(name, query) ==> found_in(a, query, name, format, collection),
        a.format && holds_text(format, query) ==> found_in(a, query, name, format, collection),
        a.collection && holds_text(collection, query) ==> found_in(
            a,
            query,
            name,
            format,
            collection,
        ),
{
}

/// Days are counted from the first of January 1970: the next day of a month, the
/// first of the next month and the first of January have the next number.
pub proof fn law_days_follow(y: int, m: int, d: int)
    requires
        is_date(y, m, d),
    ensures
        day_number(1970, 1, 1) == 0,
        is_date(y, m, d + 1) ==> day_number(y, m, d + 1) == day_number(y, m, d) + 1,
        d == month_days(y, m) && m < 12 ==> day_number(y, m + 1, 1) == day_number(y, m, d) + 1,
        d == 31 && m == 12 ==> day_number(y + 1, 1, 1) == day_number(y, m, d) + 1,
{
    lemma_year_days(y);
}

proof fn lemma_year_days(y: int)
    ensures
        days_before_month(y, 12) == (if is_leap(y) {
            335int
        } else {
            334
        }),
        days_before_year(y + 1) - days_before_year(y) == (if is_leap(y) {
            366int
        } else {
            365
        }),
        days_before_month(y, 1) == 0,
{
    reveal_with_fuel(days_before_month, 13);
    assert(y / 4 - (y - 1) / 4 == (if y % 4 == 0 {
        1int
    } else {
        0
    }));
    assert(y / 100 - (y - 1) / 100 == (if y % 100 == 0 {
        1int
    } else {
        0
    }));
    assert(y / 400 - (y - 1) / 400 == (if y % 400 == 0 {
        1int
    } else {
        0
    }));
    assert(y % 100 == 0 ==> y % 4 == 0);
    assert(y % 400 == 0 ==> y % 100 == 0);
}

/// The months have the days that everyone knows; February has one more every
/// fourth year, but of the full centuries only in every fourth.
pub proof fn law_months(y: int)
    ensures
        month_days(y, 1) == 31 && month_days(y, 3) == 31 && month_days(y, 5) == 31,
        month_days(y, 7) == 31 && month_days(y, 8) == 31 && month_days(y, 10) == 31,
        month_days(y, 12) == 31,
        month_days(y, 4) == 30 && month_days(y, 6) == 30 && month_days(y, 9) == 30,
        month_days(y, 11) == 30,
        month_days(y, 2) == 28 || month_days(y, 2) == 29,
        y % 4 != 0 ==> month_days(y, 2) == 28,
        y % 4 == 0 && y % 100 != 0 ==> month_days(y, 2) == 29,
        y % 100 == 0 && y % 400 != 0 ==> month_days(y, 2) == 28,
        y % 400 == 0 ==> month_days(y, 2) == 29,
{
}

/// The names of the months.
pub proof fn law_month_names()
    ensures
        month_name(1) == "янв."@ && month_name(2) == "фев."@ && month_name(3) == "мар."@,
        month_name(4) == "апр."@ && month_name(5) == "мая"@ && month_name(6) == "июн."@,
        month_name(7) == "июл."@ && month_name(8) == "авг."@ && month_name(9) == "сен."@,
        month_name(10) == "окт."@ && month_name(11) == "ноя."@ && month_name(12) == "дек."@,
{
}

/// How many full days have passed; none where the time is still to come.
pub proof fn law_days_since(secs: u64, now: u64)
    ensures
        secs <= now ==> days_since(secs, now) * 86_400 <= now - secs < (days_since(secs, now) + 1)
            * 86_400,
        secs > now ==> days_since(secs, now) == 0,
{
}

/// A duration is told in hours and minutes, or in minutes and seconds, or in
/// seconds alone, by the numbers that make it up.
pub proof fn law_duration(h: nat, m: nat, s: nat)
    requires
        m < 60,
        s < 60,
        3600 * h + 60 * m + s <= u64::MAX,
    ensures
        ({
            let t = duration_words((3600 * h + 60 * m + s) as u64);
            &&& h > 0 ==> t == decimal(h) + " ч "@ + decimal(m) + " мин"@
            &&& h == 0 && m > 0 ==> t == decimal(m) + " мин "@ + decimal(s) + " с"@
            &&& h == 0 && m == 0 ==> t == decimal(s) + " с"@
        }),
{
    let n = (3600 * h + 60 * m + s) as nat;
    assert(n / 3600 == h && n % 3600 == 60 * m + s);
    assert(n % 3600 / 60 == m);
    assert(n % 60 == s);
}

/// The panel of a card is at its right where there is room for it, level with
/// it where there is room below, and otherwise inside of the screen.
pub proof fn law_panel_place(card: Rect, screen: Rect)
    ensures
        ({
            let (x, y) = panel_place(card, screen);
            &&& card.right + 420_000 <= screen.right ==> x == card.right + 12_000
            &&& card.right + 420_000 > screen.right ==> x >= screen.left + 8_000 && (x
                == card.left - 412_000 || x == screen.left + 8_000)
            &&& card.top + 200_000 <= screen.bottom ==> y == card.top
            &&& card.top + 200_000 > screen.bottom ==> y >= screen.top + 8_000 && (y
                == screen.bottom - 220_000 || y == screen.top + 8_000)
        }),
{
}

/// A frame begins with no picture made, and forgets at first which files had
/// none, so that they are looked at again; those with a picture are not.
pub proof fn law_begun(g: Gallery, i: int)
    requires
        0 <= i < g.looked.len(),
    ensures
        g.begun().made == 0,
        g.misses_cleared ==> g.begun().looked == g.looked,
        !g.misses_cleared ==> g.begun().looked == g.looked.filter(
            |p: (Seq<char>, u64)| has_place(g.ready, p.0, g.system),
        ),
        g.begun().begun() == g.begun(),
{
    lemma_looked_among(g, g.looked);
}

proof fn lemma_looked_among(g: Gallery, list: Seq<(Seq<char>, u64)>)
    ensures
        looked_among(list, g.ready, g.system) == list.filter(
            |p: (Seq<char>, u64)| has_place(g.ready, p.0, g.system),
        ),
    decreases list.len(),
{
    reveal(Seq::filter);
    if list.len() > 0 {
        lemma_looked_among(g, list.drop_last());
    }
}

/// The lines of the panel over a card: a tick before the tags that a canvas has,
/// a question mark for no format, and a word for no collection.
pub proof fn law_hover_lines(tags: Seq<Seq<char>>, name: Seq<char>)
    ensures
        tags.contains(name) ==> tag_line(tags, name) == "✓ "@ + name,
        !tags.contains(name) ==> tag_line(tags, name) == "  "@ + name,
        name.len() > 0 ==> format_line(name) == "Формат: ."@ + name,
        format_line(Seq::empty()) == "Формат: ."@ + "?"@,
        name.len() > 0 ==> collection_line(name) == "Коллекция: "@ + name,
        collection_line(Seq::empty()) == "Коллекция: "@ + "Без коллекции"@,
        !added_collection(COLLECTION_ALL@) && !added_collection(COLLECTION_RECENT@),
        name != COLLECTION_ALL@ && name != COLLECTION_RECENT@ ==> added_collection(name),
        name.len() > 0 ==> stem_in_format(tags[0], name) == tags[0] + "."@ + name,
        stem_in_format(name, Seq::empty()) == name,
{
}

/// A date is told by its day, its month and its year.
pub proof fn law_date_words(year: i64, month: int, day: int)
    requires
        0 <= year <= i32::MAX,
    ensures
        date_words(year, month, day) == decimal(day as nat) + " "@ + month_name(month) + " "@
            + decimal(year as nat) + " г."@,
{
}

/// What a file's picture was last looked for at is what is remembered.
pub proof fn law_looked_at(list: Seq<(Seq<char>, u64)>, path: Seq<char>, other: Seq<char>, at: u64, system: System)
    ensures
        looked_at(list.push((path, at)), path, system) == Some(at),
        !same_place(path, other, system) ==> looked_at(list.push((path, at)), other, system)
            == looked_at(list, other, system),
        looked_at(Seq::empty(), path, system) is None,
{
    assert(list.push((path, at)).drop_last() =~= list);
}

} // verus!
