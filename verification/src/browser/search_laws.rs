//! What the search of the browser finds.
use vstd::prelude::*;
use crate::browser::state::{Browser, Item};
use crate::text::{holds_text, lower, trimmed};
use crate::text::laws::{
    law_holds_text, law_lower, law_trimmed_in_any_case, lemma_trimmed_at, same_letters, stands_at,
};

verus! {

/// Whether a text holds another, the case of letters aside.
pub open spec fn holds_in_any_case(name: Seq<char>, part: Seq<char>) -> bool {
    exists|at: int|
        0 <= at && at + part.len() <= name.len() && same_letters(
            #[trigger] name.subrange(at, at + part.len()),
            part,
        )
}

proof fn lemma_holds(name: Seq<char>, part: Seq<char>)
    ensures
        holds_text(lower(name), lower(part)) == holds_in_any_case(name, part),
{
    let n = part.len() as int;
    if holds_text(lower(name), lower(part)) {
        let at = choose|i: int|
            0 <= i && i + lower(part).len() <= lower(name).len() && #[trigger] lower(name).subrange(
                i,
                i + lower(part).len(),
            ) == lower(part);
        assert(lower(name.subrange(at, at + n)) =~= lower(name).subrange(at, at + n));
        law_lower(name.subrange(at, at + n), part);
    }
    if holds_in_any_case(name, part) {
        let at = choose|at: int|
            0 <= at && at + part.len() <= name.len() && same_letters(
                #[trigger] name.subrange(at, at + part.len()),
                part,
            );
        law_lower(name.subrange(at, at + n), part);
        assert(lower(name.subrange(at, at + n)) =~= lower(name).subrange(at, at + n));
        assert(lower(name).subrange(at, at + lower(part).len()) == lower(part));
    }
}

/// The items whose names hold a text, the case of letters aside; all of them
/// where it is empty.
pub open spec fn found_by_part(part: Seq<char>) -> spec_fn(Item) -> bool {
    |x: Item| part.len() == 0 || holds_in_any_case(x.name, part)
}

/// The search shows, in the order of the list, exactly the items whose names
/// hold what is searched for, whatever the case of letters and without the
/// spaces around it; all of them where that is nothing.
pub proof fn law_search(b: Browser)
    ensures
        b.filtered() == b.entries.filter(found_by_part(trimmed(b.search))),
{
    lemma_search(b.entries, trimmed(b.search));
}

proof fn lemma_search(items: Seq<Item>, part: Seq<char>)
    ensures
        Browser::found_by(items, lower(part)) == items.filter(found_by_part(part)),
    decreases items.len(),
{
    reveal(Seq::filter);
    if items.len() > 0 {
        lemma_search(items.drop_last(), part);
        lemma_holds(items.last().name, part);
        assert(lower(part).len() == part.len());
    }
}

proof fn lemma_filtered_from(items: Seq<Item>, p: spec_fn(Item) -> bool, i: int)
    requires
        0 <= i < items.filter(p).len(),
    ensures
        items.contains(items.filter(p)[i]),
    decreases items.len(),
{
    reveal(Seq::filter);
    let t = items.drop_last();
    let x = items.filter(p)[i];
    if i < t.filter(p).len() {
        lemma_filtered_from(t, p, i);
        let k = choose|k: int| 0 <= k < t.len() && t[k] == x;
        assert(items[k] == x);
    } else {
        assert(items[items.len() - 1] == x);
    }
}

proof fn lemma_found(b: Browser, x: Item)
    requires
        b.entries.contains(x),
    ensures
        b.filtered().contains(x) == (trimmed(b.search).len() == 0 || holds_in_any_case(
            x.name,
            trimmed(b.search),
        )),
{
    law_search(b);
    let p = found_by_part(trimmed(b.search));
    if p(x) {
        b.entries.lemma_filter_contains_rev(p, x);
    }
    if b.filtered().contains(x) {
        let f = b.entries.filter(p);
        let i = choose|i: int| 0 <= i < f.len() && f[i] == x;
        b.entries.lemma_filter_pred(p, i);
    }
}

/// Two items whose names differ only in the case of letters are both found or
/// both not.
pub proof fn law_case_of_names_does_not_matter(b: Browser, x: Item, y: Item)
    requires
        b.entries.contains(x),
        b.entries.contains(y),
        same_letters(x.name, y.name),
    ensures
        b.filtered().contains(x) == b.filtered().contains(y),
{
    lemma_found(b, x);
    lemma_found(b, y);
    let part = trimmed(b.search);
    law_lower(x.name, y.name);
    lemma_holds(x.name, part);
    lemma_holds(y.name, part);
}

/// Two searches that differ only in the case of letters find the same.
pub proof fn law_case_of_search_does_not_matter(a: Browser, b: Browser)
    requires
        a.entries == b.entries,
        same_letters(a.search, b.search),
    ensures
        a.filtered() == b.filtered(),
{
    law_trimmed_in_any_case(a.search, b.search);
}

/// An item is found by any part of its name, and by the whole of it, in any case
/// and whatever spaces stand around what is searched for.
pub proof fn law_found_by_part(b: Browser, x: Item, from: int, to: int)
    requires
        b.entries.contains(x),
        0 <= from <= to <= x.name.len(),
        same_letters(b.search, x.name.subrange(from, to)) || same_letters(
            trimmed(b.search),
            x.name.subrange(from, to),
        ),
    ensures
        b.filtered().contains(x),
{
    lemma_found(b, x);
    let part = trimmed(b.search);
    let whole = x.name.subrange(from, to);
    if same_letters(part, whole) {
        assert(x.name.subrange(from, from + part.len()) == whole);
        law_lower(part, whole);
        law_lower(whole, part);
        assert(holds_in_any_case(x.name, part));
    } else {
        law_trimmed_in_any_case(b.search, whole);
        let (p, q) = lemma_trimmed_at(whole);
        let t = trimmed(whole);
        assert(t =~= x.name.subrange(from + p, from + q));
        law_lower(part, t);
        law_lower(t, part);
        assert(x.name.subrange(from + p, from + p + part.len()) == t);
        assert(holds_in_any_case(x.name, part));
    }
}

/// An item that is found has what is searched for in its name, letter by letter.
pub proof fn law_found_has_part(b: Browser, x: Item)
    requires
        b.filtered().contains(x),
    ensures
        b.entries.contains(x),
        exists|at: int|
            0 <= at && at + trimmed(b.search).len() <= x.name.len() && #[trigger] stands_at(
                lower(x.name),
                lower(trimmed(b.search)),
                at,
            ),
{
    law_search(b);
    let part = trimmed(b.search);
    let p = found_by_part(part);
    let f = b.filtered();
    let i = choose|i: int| 0 <= i < f.len() && f[i] == x;
    assert(f == b.entries.filter(p));
    lemma_filtered_from(b.entries, p, i);
    b.entries.lemma_filter_pred(p, i);
    if part.len() == 0 {
        assert(lower(part).len() == 0);
        assert(stands_at(lower(x.name), lower(part), 0));
    } else {
        lemma_holds(x.name, part);
        law_holds_text(lower(x.name), lower(part));
        let at = choose|at: int|
            0 <= at && at + lower(part).len() <= lower(x.name).len() && #[trigger] stands_at(
                lower(x.name),
                lower(part),
                at,
            );
        assert(stands_at(lower(x.name), lower(part), at));
    }
}

} // verus!
