//! Lists: what is chosen of them, their beginnings, and lists as text.
use vstd::prelude::*;
use vstd::string::StringExecFns;
use crate::text::texts;

verus! {

/// The items of a list whose answer is yes.
pub open spec fn chosen<A>(list: Seq<A>, yes: Seq<bool>) -> Seq<A>
    decreases list.len(),
{
    if list.len() == 0 {
        Seq::empty()
    } else {
        let before = chosen(list.drop_last(), yes);
        if yes[list.len() - 1] {
            before.push(list.last())
        } else {
            before
        }
    }
}

/// The first `limit` items of a list, or all of them.
pub open spec fn at_most<A>(list: Seq<A>, limit: int) -> Seq<A> {
    if limit < list.len() {
        list.take(limit)
    } else {
        list
    }
}

/// The texts of a list whose answer is yes.
pub fn choose_texts(list: &Vec<String>, yes: &Vec<bool>) -> (r: Vec<String>)
    requires
        list.len() == yes.len(),
    ensures
        texts(r@) == chosen(texts(list@), yes@),
{
    let n: usize = list.len();
    let mut out: Vec<String> = Vec::new();
    let mut i: usize = 0;
    assert(texts(list@).take(0) =~= Seq::empty());
    assert(texts(out@) =~= Seq::empty());
    while i < n
        invariant
            i <= n,
            n == list.len(),
            n == yes.len(),
            texts(out@) == chosen(texts(list@).take(i as int), yes@),
        decreases n - i,
    {
        let ghost before = texts(out@);
        proof {
            let t = texts(list@).take(i + 1);
            assert(t.drop_last() =~= texts(list@).take(i as int));
        }
        if yes[i] {
            out.push(list[i].as_str().to_owned());
            assert(texts(out@) =~= before.push(list@[i as int]@));
        }
        i += 1;
    }
    assert(texts(list@).take(n as int) =~= texts(list@));
    out
}

/// Shortens a list to its first items.
pub fn keep_first(list: &mut Vec<String>, limit: usize)
    ensures
        texts(final(list)@) == at_most(texts(old(list)@), limit as int),
{
    if limit < list.len() {
        list.truncate(limit);
    }
    assert(texts(list@) =~= at_most(texts(old(list)@), limit as int));
}

/// Texts in a row, with a separator between each two.
pub open spec fn joined(parts: Seq<Seq<char>>, separator: Seq<char>) -> Seq<char>
    decreases parts.len(),
{
    if parts.len() == 0 {
        Seq::empty()
    } else if parts.len() == 1 {
        parts[0]
    } else {
        joined(parts.drop_last(), separator) + separator + parts.last()
    }
}

/// Texts in a row, with a separator between each two.
pub fn join_texts(parts: &Vec<String>, separator: &str) -> (r: String)
    ensures
        r@ == joined(texts(parts@), separator@),
{
    let n: usize = parts.len();
    let mut out = String::new();
    let mut i: usize = 0;
    assert(texts(parts@).take(0) =~= Seq::empty());
    while i < n
        invariant
            i <= n,
            n == parts.len(),
            out@ == joined(texts(parts@).take(i as int), separator@),
        decreases n - i,
    {
        let ghost before = out@;
        if i > 0 {
            out.append(separator);
        }
        out.append(parts[i].as_str());
        proof {
            let t = texts(parts@).take(i + 1);
            assert(t.drop_last() =~= texts(parts@).take(i as int));
            assert(t.last() == parts@[i as int]@);
            if i == 0 {
                assert(out@ =~= t[0]);
            }
        }
        i += 1;
    }
    assert(texts(parts@).take(n as int) =~= texts(parts@));
    out
}

/// What is chosen is in the list, and its answer is yes; nothing else is left
/// out.
pub proof fn law_chosen<A>(list: Seq<A>, yes: Seq<bool>)
    requires
        list.len() == yes.len(),
    ensures
        chosen(list, yes).len() <= list.len(),
        forall|x: A|
            chosen(list, yes).contains(x) <==> exists|i: int|
                0 <= i < list.len() && #[trigger] list[i] == x && yes[i],
{
    lemma_chosen(list, yes);
}

proof fn lemma_chosen<A>(list: Seq<A>, yes: Seq<bool>)
    requires
        list.len() <= yes.len(),
    ensures
        chosen(list, yes).len() <= list.len(),
        forall|x: A|
            chosen(list, yes).contains(x) <==> exists|i: int|
                0 <= i < list.len() && #[trigger] list[i] == x && yes[i],
    decreases list.len(),
{
    if list.len() > 0 {
        let t = list.drop_last();
        lemma_chosen(t, yes);
        let b = chosen(t, yes);
        let r = chosen(list, yes);
        let last = list.len() - 1;
        assert forall|x: A|
            r.contains(x) <==> exists|i: int|
                0 <= i < list.len() && #[trigger] list[i] == x && yes[i] by {
            if r.contains(x) {
                let k = choose|k: int| 0 <= k < r.len() && r[k] == x;
                if k < b.len() {
                    assert(b[k] == x);
                    assert(b.contains(x));
                    let i = choose|i: int| 0 <= i < t.len() && #[trigger] t[i] == x && yes[i];
                    assert(list[i] == x);
                } else {
                    assert(list[last] == x);
                }
            }
            if exists|i: int| 0 <= i < list.len() && #[trigger] list[i] == x && yes[i] {
                let i = choose|i: int| 0 <= i < list.len() && #[trigger] list[i] == x && yes[i];
                if i < last {
                    assert(t[i] == x);
                    assert(b.contains(x));
                    let k = choose|k: int| 0 <= k < b.len() && b[k] == x;
                    assert(r[k] == x);
                } else {
                    assert(r[r.len() - 1] == x);
                }
            }
        }
    }
}

/// What two lists put together hold.
pub proof fn lemma_cat_contains<A>(a: Seq<A>, b: Seq<A>, x: A)
    ensures
        (a + b).contains(x) == (a.contains(x) || b.contains(x)),
{
    let s = a + b;
    if s.contains(x) {
        let k = choose|k: int| 0 <= k < s.len() && s[k] == x;
        if k < a.len() {
            assert(a[k] == x);
        } else {
            assert(b[k - a.len()] == x);
        }
    }
    if a.contains(x) {
        let k = choose|k: int| 0 <= k < a.len() && a[k] == x;
        assert(s[k] == x);
    }
    if b.contains(x) {
        let k = choose|k: int| 0 <= k < b.len() && b[k] == x;
        assert(s[a.len() + k] == x);
    }
}

/// What a list with one more item at its end holds.
pub proof fn lemma_push_contains<A>(a: Seq<A>, y: A, x: A)
    ensures
        a.push(y).contains(x) == (a.contains(x) || x == y),
{
    let s = a.push(y);
    if s.contains(x) {
        let k = choose|k: int| 0 <= k < s.len() && s[k] == x;
        if k < a.len() {
            assert(a[k] == x);
        }
    }
    if a.contains(x) {
        let k = choose|k: int| 0 <= k < a.len() && a[k] == x;
        assert(s[k] == x);
    }
    assert(s[a.len() as int] == y);
}

/// Texts joined by a separator: one more text at the end comes behind one more
/// separator.
pub proof fn law_joined(parts: Seq<Seq<char>>, more: Seq<char>, separator: Seq<char>)
    ensures
        joined(seq![more], separator) == more,
        parts.len() > 0 ==> joined(parts.push(more), separator) == joined(parts, separator)
            + separator + more,
        joined(Seq::empty(), separator).len() == 0,
{
    assert(parts.push(more).drop_last() =~= parts);
}

/// At most the first so many of a list.
pub proof fn law_at_most<A>(list: Seq<A>, limit: int)
    requires
        limit >= 0,
    ensures
        at_most(list, limit).len() <= limit,
        at_most(list, limit).is_prefix_of(list),
        list.len() <= limit ==> at_most(list, limit) == list,
        list.len() >= limit ==> at_most(list, limit).len() == limit,
{
}

} // verus!
