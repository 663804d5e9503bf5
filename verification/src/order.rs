//! Stable sorting.
use vstd::prelude::*;

verus! {

/// `x` put into a sorted list behind everything that it does not have to come
/// before.
pub open spec fn inserted<A>(s: Seq<A>, x: A, before: spec_fn(A, A) -> bool) -> Seq<A>
    decreases s.len(),
{
    if s.len() == 0 || !before(x, s.last()) {
        s.push(x)
    } else {
        inserted(s.drop_last(), x, before).push(s.last())
    }
}

/// A list in order, with things that need no order between them as they were.
pub open spec fn stable_sorted<A>(s: Seq<A>, before: spec_fn(A, A) -> bool) -> Seq<A>
    decreases s.len(),
{
    if s.len() == 0 {
        s
    } else {
        inserted(stable_sorted(s.drop_last(), before), s.last(), before)
    }
}

/// Nothing comes behind something that it has to come before.
pub open spec fn in_order<A>(s: Seq<A>, before: spec_fn(A, A) -> bool) -> bool {
    forall|i: int, j: int| 0 <= i < j < s.len() ==> !before(#[trigger] s[j], #[trigger] s[i])
}

/// `before` orders things as a comparison does.
pub open spec fn weak_order<A>(before: spec_fn(A, A) -> bool) -> bool {
    &&& forall|x: A| !#[trigger] before(x, x)
    &&& forall|x: A, y: A| #[trigger] before(x, y) ==> !before(y, x)
    &&& forall|x: A, y: A, z: A|
        #![trigger before(x, y), before(y, z)]
        !before(x, y) && !before(y, z) ==> !before(x, z)
}

proof fn lemma_inserted_split<A>(s: Seq<A>, x: A, before: spec_fn(A, A) -> bool, at: int)
    requires
        0 <= at <= s.len(),
        at == 0 || !before(x, s[at - 1]),
        forall|j: int| at <= j < s.len() ==> before(x, #[trigger] s[j]),
    ensures
        inserted(s, x, before) == s.insert(at, x),
    decreases s.len(),
{
    if at == s.len() {
        assert(s.insert(at, x) =~= s.push(x));
    } else {
        assert(before(x, s[s.len() - 1]));
        let t = s.drop_last();
        assert forall|j: int| at <= j < t.len() implies before(x, #[trigger] t[j]) by {
            assert(t[j] == s[j]);
        }
        lemma_inserted_split(t, x, before, at);
        assert(s.insert(at, x) =~= t.insert(at, x).push(s.last()));
    }
}

/// Sorts a list in place.
pub(crate) fn stable_sort<T, F: Fn(&T, &T) -> bool>(v: &mut Vec<T>, f: F, Ghost(before): Ghost<spec_fn(T, T) -> bool>)
    requires
        forall|a: &T, b: &T| #[trigger] f.requires((a, b)),
        forall|a: &T, b: &T, r: bool| #[trigger] f.ensures((a, b), r) ==> r == before(*a, *b),
    ensures
        final(v)@ == stable_sorted(old(v)@, before),
{
    let n: usize = v.len();
    let ghost start = v@;
    let mut i: usize = 0;
    assert(start.take(0) =~= Seq::empty());
    assert(stable_sorted(start.take(0), before) + start.skip(0) =~= start);
    while i < n
        invariant
            i <= n,
            n == v.len(),
            n == start.len(),
            stable_sorted(start.take(i as int), before).len() == i,
            v@ == stable_sorted(start.take(i as int), before) + start.skip(i as int),
            forall|a: &T, b: &T| #[trigger] f.requires((a, b)),
            forall|a: &T, b: &T, r: bool| #[trigger] f.ensures((a, b), r) ==> r == before(*a, *b),
        decreases n - i,
    {
        let ghost sorted = stable_sorted(start.take(i as int), before);
        let ghost rest = start.skip(i as int);
        assert(v@[i as int] == start[i as int]) by {
            assert(v@[i as int] == rest[0]);
        }
        let x = v.remove(i);
        let ghost gx = x;
        assert(v@ =~= sorted + start.skip(i + 1));
        let mut at: usize = i;
        loop
            invariant
                at <= i,
                i < n,
                v.len() == n - 1,
                sorted.len() == i,
                v@ == sorted + start.skip(i + 1),
                x == gx,
                forall|j: int| at <= j < i ==> before(gx, #[trigger] sorted[j]),
                forall|a: &T, b: &T| #[trigger] f.requires((a, b)),
                forall|a: &T, b: &T, r: bool|
                    #[trigger] f.ensures((a, b), r) ==> r == before(*a, *b),
            ensures
                at == 0 || !before(gx, sorted[at - 1]),
            decreases at,
        {
            if at == 0 {
                break;
            }
            let goes_before: bool = f(&x, &v[at - 1]);
            assert(v@[at - 1] == sorted[at - 1]);
            if !goes_before {
                break;
            }
            at -= 1;
        }
        v.insert(at, x);
        proof {
            lemma_inserted_split(sorted, gx, before, at as int);
            assert(start.take(i + 1).drop_last() =~= start.take(i as int));
            assert(start.take(i + 1).last() == gx);
            assert(v@ =~= sorted.insert(at as int, gx) + start.skip(i + 1));
        }
        i += 1;
    }
    assert(start.take(n as int) =~= start);
    assert(start.skip(n as int) =~= Seq::empty());
    assert(stable_sorted(start, before) + Seq::empty() =~= stable_sorted(start, before));
}

proof fn lemma_inserted_len<A>(s: Seq<A>, x: A, before: spec_fn(A, A) -> bool)
    ensures
        inserted(s, x, before).len() == s.len() + 1,
    decreases s.len(),
{
    if s.len() > 0 && before(x, s.last()) {
        lemma_inserted_len(s.drop_last(), x, before);
    }
}

/// Sorting keeps every item and adds none.
pub proof fn law_sorted_keeps_items<A>(s: Seq<A>, before: spec_fn(A, A) -> bool)
    ensures
        stable_sorted(s, before).to_multiset() == s.to_multiset(),
        stable_sorted(s, before).len() == s.len(),
    decreases s.len(),
{
    broadcast use vstd::seq_lib::group_to_multiset_ensures;

    if s.len() > 0 {
        let t = s.drop_last();
        law_sorted_keeps_items(t, before);
        lemma_inserted_items(stable_sorted(t, before), s.last(), before);
        assert(s =~= t.push(s.last()));
    }
}

proof fn lemma_inserted_items<A>(s: Seq<A>, x: A, before: spec_fn(A, A) -> bool)
    ensures
        inserted(s, x, before).to_multiset() == s.to_multiset().insert(x),
        inserted(s, x, before).len() == s.len() + 1,
    decreases s.len(),
{
    broadcast use vstd::seq_lib::group_to_multiset_ensures;

    if s.len() > 0 && before(x, s.last()) {
        lemma_inserted_items(s.drop_last(), x, before);
        assert(s =~= s.drop_last().push(s.last()));
        assert(s.to_multiset().insert(x) =~= s.drop_last().to_multiset().insert(x).insert(s.last()));
    }
}

proof fn lemma_inserted_order<A>(s: Seq<A>, x: A, before: spec_fn(A, A) -> bool)
    requires
        weak_order(before),
        in_order(s, before),
    ensures
        in_order(inserted(s, x, before), before),
        forall|i: int|
            0 <= i < inserted(s, x, before).len() ==> s.contains(#[trigger] inserted(s, x, before)[i])
                || inserted(s, x, before)[i] == x,
    decreases s.len(),
{
    let r = inserted(s, x, before);
    if s.len() == 0 || !before(x, s.last()) {
        assert forall|i: int, j: int| 0 <= i < j < r.len() implies !before(
            #[trigger] r[j],
            #[trigger] r[i],
        ) by {
            if j == s.len() {
                if i < s.len() - 1 {
                    assert(!before(s[s.len() - 1], s[i]));
                    assert(!before(x, s[s.len() - 1]));
                }
            } else {
                assert(!before(s[j], s[i]));
            }
        }
        assert forall|i: int| 0 <= i < r.len() implies s.contains(#[trigger] r[i]) || r[i] == x by {
            if i < s.len() {
                assert(s[i] == r[i]);
            }
        }
    } else {
        let t = s.drop_last();
        assert forall|i: int, j: int| 0 <= i < j < t.len() implies !before(
            #[trigger] t[j],
            #[trigger] t[i],
        ) by {
            assert(!before(s[j], s[i]));
        }
        lemma_inserted_order(t, x, before);
        lemma_inserted_len(t, x, before);
        let q = inserted(t, x, before);
        assert forall|i: int| 0 <= i < q.len() implies s.contains(#[trigger] q[i]) || q[i] == x by {
            if t.contains(q[i]) {
                let k = choose|k: int| 0 <= k < t.len() && t[k] == q[i];
                assert(s[k] == q[i]);
            }
        }
        assert forall|i: int, j: int| 0 <= i < j < r.len() implies !before(
            #[trigger] r[j],
            #[trigger] r[i],
        ) by {
            if j < q.len() {
                assert(r[j] == q[j] && r[i] == q[i]);
            } else {
                assert(r[i] == q[i] && r[j] == s.last());
                if t.contains(q[i]) {
                    let k = choose|k: int| 0 <= k < t.len() && t[k] == q[i];
                    assert(!before(s[s.len() - 1], s[k]));
                }
            }
        }
        assert forall|i: int| 0 <= i < r.len() implies s.contains(#[trigger] r[i]) || r[i] == x by {
            if i == q.len() {
                assert(s[s.len() - 1] == r[i]);
            } else {
                assert(r[i] == q[i]);
            }
        }
    }
}

/// A sorted list is in order.
pub proof fn law_sorted_in_order<A>(s: Seq<A>, before: spec_fn(A, A) -> bool)
    requires
        weak_order(before),
    ensures
        in_order(stable_sorted(s, before), before),
    decreases s.len(),
{
    if s.len() > 0 {
        law_sorted_in_order(s.drop_last(), before);
        lemma_inserted_order(stable_sorted(s.drop_last(), before), s.last(), before);
    }
}

/// A list that is in order stays as it is.
pub proof fn law_ordered_is_kept<A>(s: Seq<A>, before: spec_fn(A, A) -> bool)
    requires
        in_order(s, before),
    ensures
        stable_sorted(s, before) == s,
    decreases s.len(),
{
    if s.len() > 0 {
        let t = s.drop_last();
        assert forall|i: int, j: int| 0 <= i < j < t.len() implies !before(
            #[trigger] t[j],
            #[trigger] t[i],
        ) by {
            assert(!before(s[j], s[i]));
        }
        law_ordered_is_kept(t, before);
        if t.len() > 0 {
            assert(!before(s[s.len() - 1], s[t.len() - 1]));
        }
        assert(t.push(s.last()) =~= s);
    }
}

/// The things of a list that need no order between them and `y`, as they come.
pub open spec fn level_with<A>(s: Seq<A>, y: A, before: spec_fn(A, A) -> bool) -> Seq<A>
    decreases s.len(),
{
    if s.len() == 0 {
        s
    } else {
        let rest = level_with(s.drop_last(), y, before);
        if before(s.last(), y) || before(y, s.last()) {
            rest
        } else {
            rest.push(s.last())
        }
    }
}

proof fn lemma_inserted_level<A>(s: Seq<A>, x: A, y: A, before: spec_fn(A, A) -> bool)
    requires
        weak_order(before),
    ensures
        level_with(inserted(s, x, before), y, before) == level_with(s.push(x), y, before),
    decreases s.len(),
{
    assert(s.push(x).drop_last() =~= s);
    if s.len() > 0 && before(x, s.last()) {
        let t = s.drop_last();
        let l = s.last();
        lemma_inserted_level(t, x, y, before);
        assert(t.push(x).drop_last() =~= t);
        assert(inserted(t, x, before).push(l).drop_last() =~= inserted(t, x, before));
        assert(!(!before(x, y) && !before(y, l)));
        assert(s.drop_last().len() == t.len());
        reveal_with_fuel(level_with, 3);
        assert(level_with(s.push(x), y, before) == if before(x, y) || before(y, x) {
            level_with(s, y, before)
        } else {
            level_with(s, y, before).push(x)
        });
        assert(inserted(s, x, before).last() == l);
    }
}

/// Things that need no order between them stay in the order in which they came.
pub proof fn law_sorted_is_stable<A>(s: Seq<A>, y: A, before: spec_fn(A, A) -> bool)
    requires
        weak_order(before),
    ensures
        level_with(stable_sorted(s, before), y, before) == level_with(s, y, before),
    decreases s.len(),
{
    if s.len() > 0 {
        let t = s.drop_last();
        let sorted = stable_sorted(t, before);
        law_sorted_is_stable(t, y, before);
        lemma_inserted_level(sorted, s.last(), y, before);
        assert(sorted.push(s.last()).drop_last() =~= sorted);
    }
}

/// Sorting by what two kinds of value have in common gives the same order.
pub proof fn lemma_sorted_map<A, B>(
    s: Seq<A>,
    f: spec_fn(A) -> B,
    before: spec_fn(A, A) -> bool,
    other: spec_fn(B, B) -> bool,
)
    requires
        forall|x: A, y: A| #[trigger] before(x, y) == other(f(x), f(y)),
    ensures
        stable_sorted(s, before).map_values(f) == stable_sorted(s.map_values(f), other),
    decreases s.len(),
{
    if s.len() > 0 {
        let t = s.drop_last();
        lemma_sorted_map(t, f, before, other);
        lemma_inserted_map(stable_sorted(t, before), s.last(), f, before, other);
        assert(s.map_values(f).drop_last() =~= t.map_values(f));
    } else {
        assert(s.map_values(f) =~= Seq::empty());
    }
}

proof fn lemma_inserted_map<A, B>(
    s: Seq<A>,
    x: A,
    f: spec_fn(A) -> B,
    before: spec_fn(A, A) -> bool,
    other: spec_fn(B, B) -> bool,
)
    requires
        forall|x: A, y: A| #[trigger] before(x, y) == other(f(x), f(y)),
    ensures
        inserted(s, x, before).map_values(f) == inserted(s.map_values(f), f(x), other),
    decreases s.len(),
{
    if s.len() == 0 || !before(x, s.last()) {
        assert(s.push(x).map_values(f) =~= s.map_values(f).push(f(x)));
    } else {
        lemma_inserted_map(s.drop_last(), x, f, before, other);
        assert(s.map_values(f).drop_last() =~= s.drop_last().map_values(f));
        assert(inserted(s.drop_last(), x, before).push(s.last()).map_values(f) =~= inserted(
            s.drop_last(),
            x,
            before,
        ).map_values(f).push(f(s.last())));
    }
}

} // verus!
