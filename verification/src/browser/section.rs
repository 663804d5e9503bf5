//! The blocks of the side bar and their order.
use vstd::prelude::*;

verus! {

#[derive(Clone, Copy, Debug, PartialEq, Eq, Hash, Structural)]
pub enum SideSection {
    Bookmarks,
    System,
    Volumes,
    Recent,
}

impl SideSection {
    pub open spec fn all() -> Seq<SideSection> {
        seq![
            SideSection::Bookmarks,
            SideSection::System,
            SideSection::Volumes,
            SideSection::Recent,
        ]
    }

    pub fn title(self) -> (r: &'static str)
        ensures
            r@ == (match self {
                SideSection::Bookmarks => "Bookmarks"@,
                SideSection::System => "System"@,
                SideSection::Volumes => "Volumes"@,
                SideSection::Recent => "Recent"@,
            }),
    {
        match self {
            SideSection::Bookmarks => "Bookmarks",
            SideSection::System => "System",
            SideSection::Volumes => "Volumes",
            SideSection::Recent => "Recent",
        }
    }

    pub fn default_order() -> (r: Vec<SideSection>)
        ensures
            r@ == SideSection::all(),
    {
        let r = vec![
            SideSection::Bookmarks,
            SideSection::System,
            SideSection::Volumes,
            SideSection::Recent,
        ];
        assert(r@ =~= SideSection::all());
        r
    }

    /// An order in which every block stands once: the given one without
    /// repetitions, then the blocks it lacks.
    pub fn sanitize_order(order: Vec<SideSection>) -> (r: Vec<SideSection>)
        ensures
            r@ == completed(order@),
    {
        let mut out: Vec<SideSection> = Vec::new();
        let n: usize = order.len();
        let mut i: usize = 0;
        assert(order@.take(0) =~= Seq::empty());
        while i < n
            invariant
                i <= n,
                n == order.len(),
                out@ == once(order@.take(i as int), Seq::empty()),
            decreases n - i,
        {
            proof {
                let t = order@.take(i + 1);
                assert(t.drop_last() =~= order@.take(i as int));
                assert(t.last() == order@[i as int]);
            }
            if !has_section(&out, order[i]) {
                out.push(order[i]);
            }
            i += 1;
        }
        assert(order@.take(n as int) =~= order@);
        let all = SideSection::default_order();
        let ghost front = out@;
        let m: usize = all.len();
        let mut k: usize = 0;
        assert(all@.take(0) =~= Seq::empty());
        while k < m
            invariant
                k <= m,
                m == all.len(),
                out@ == once(all@.take(k as int), front),
            decreases m - k,
        {
            proof {
                let t = all@.take(k + 1);
                assert(t.drop_last() =~= all@.take(k as int));
                assert(t.last() == all@[k as int]);
            }
            if !has_section(&out, all[k]) {
                out.push(all[k]);
            }
            k += 1;
        }
        assert(all@.take(m as int) =~= all@);
        out
    }
}

/// A list with the items of another added that it does not have yet.
pub open spec fn once(more: Seq<SideSection>, front: Seq<SideSection>) -> Seq<SideSection>
    decreases more.len(),
{
    if more.len() == 0 {
        front
    } else {
        let before = once(more.drop_last(), front);
        if before.contains(more.last()) {
            before
        } else {
            before.push(more.last())
        }
    }
}

/// An order without repetitions, with the missing blocks behind it.
pub open spec fn completed(order: Seq<SideSection>) -> Seq<SideSection> {
    once(SideSection::all(), once(order, Seq::empty()))
}

/// Whether every block stands once in an order.
pub open spec fn is_full(order: Seq<SideSection>) -> bool {
    &&& order.no_duplicates()
    &&& order.len() == 4
    &&& forall|s: SideSection| order.contains(s)
}

fn has_section(list: &Vec<SideSection>, s: SideSection) -> (r: bool)
    ensures
        r == list@.contains(s),
{
    place_section(list, s) < list.len()
}

/// The first place of a block, or the number of blocks.
pub open spec fn section_place(list: Seq<SideSection>, s: SideSection) -> int
    decreases list.len(),
{
    if list.len() == 0 || list[0] == s {
        0
    } else {
        1 + section_place(list.drop_first(), s)
    }
}

proof fn lemma_section_place(list: Seq<SideSection>, s: SideSection, k: int)
    requires
        0 <= k <= list.len(),
        k < list.len() ==> list[k] == s,
        forall|j: int| 0 <= j < k ==> list[j] != s,
    ensures
        section_place(list, s) == k,
    decreases list.len(),
{
    if k > 0 {
        let t = list.drop_first();
        assert forall|j: int| 0 <= j < k - 1 implies t[j] != s by {
            assert(t[j] == list[j + 1]);
        }
        lemma_section_place(t, s, k - 1);
    }
}

fn place_section(list: &Vec<SideSection>, s: SideSection) -> (r: usize)
    ensures
        r == section_place(list@, s),
        r <= list.len(),
        r < list.len() <==> list@.contains(s),
        r < list.len() ==> list@[r as int] == s,
{
    let n: usize = list.len();
    let mut i: usize = 0;
    while i < n && list[i] != s
        invariant
            i <= n,
            n == list.len(),
            forall|j: int| 0 <= j < i ==> list@[j] != s,
        decreases n - i,
    {
        i += 1;
    }
    proof {
        lemma_section_place(list@, s, i as int);
        if i == n {
            assert(!list@.contains(s));
        } else {
            assert(list@[i as int] == s);
        }
    }
    i
}

/// An order after one block was dropped on another: it takes the other's
/// place.
pub open spec fn moved(order: Seq<SideSection>, from: SideSection, to: SideSection) -> Seq<
    SideSection,
> {
    if from == to || !order.contains(from) || !order.contains(to) {
        order
    } else {
        order.remove(section_place(order, from)).insert(section_place(order, to), from)
    }
}

/// Puts a block where another stands; tells whether it moved.
pub fn reorder_side_section(order: &mut Vec<SideSection>, from: SideSection, to: SideSection) -> (r:
    bool)
    ensures
        final(order)@ == moved(old(order)@, from, to),
        r == (from != to && old(order)@.contains(from) && old(order)@.contains(to)),
{
    if from == to {
        return false;
    }
    let f: usize = place_section(order, from);
    if f == order.len() {
        return false;
    }
    let t: usize = place_section(order, to);
    if t == order.len() {
        return false;
    }
    let item = order.remove(f);
    order.insert(t, item);
    true
}

proof fn lemma_once(more: Seq<SideSection>, front: Seq<SideSection>)
    requires
        front.no_duplicates(),
    ensures
        once(more, front).no_duplicates(),
        once(more, front).len() >= front.len(),
        once(more, front).take(front.len() as int) == front,
        forall|i: int| 0 <= i < more.len() ==> once(more, front).contains(#[trigger] more[i]),
        forall|s: SideSection| front.contains(s) ==> #[trigger] once(more, front).contains(s),
    decreases more.len(),
{
    if more.len() == 0 {
        assert(front.take(front.len() as int) =~= front);
    } else {
        let t = more.drop_last();
        lemma_once(t, front);
        let b = once(t, front);
        let r = once(more, front);
        assert(r.take(front.len() as int) =~= b.take(front.len() as int));
        assert forall|s: SideSection| b.contains(s) implies r.contains(s) by {
            let k = choose|k: int| 0 <= k < b.len() && b[k] == s;
            assert(r[k] == s);
        }
        assert forall|i: int| 0 <= i < more.len() implies r.contains(#[trigger] more[i]) by {
            if i < t.len() {
                assert(t[i] == more[i]);
            } else if !b.contains(more[i]) {
                assert(r[r.len() - 1] == more[i]);
            }
        }
    }
}

proof fn lemma_nothing_new(more: Seq<SideSection>, front: Seq<SideSection>)
    requires
        forall|i: int| 0 <= i < more.len() ==> front.contains(#[trigger] more[i]),
    ensures
        once(more, front) == front,
    decreases more.len(),
{
    if more.len() > 0 {
        let t = more.drop_last();
        assert forall|i: int| 0 <= i < t.len() implies front.contains(#[trigger] t[i]) by {
            assert(t[i] == more[i]);
        }
        lemma_nothing_new(t, front);
        assert(front.contains(more[more.len() - 1]));
    }
}

proof fn lemma_already_once(order: Seq<SideSection>)
    requires
        order.no_duplicates(),
    ensures
        once(order, Seq::empty()) == order,
    decreases order.len(),
{
    if order.len() > 0 {
        let t = order.drop_last();
        lemma_already_once(t);
        if t.contains(order.last()) {
            let k = choose|k: int| 0 <= k < t.len() && t[k] == order.last();
            assert(order[k] == order[order.len() - 1]);
        }
        assert(t.push(order.last()) =~= order);
    } else {
        assert(order =~= Seq::empty());
    }
}

proof fn lemma_four(order: Seq<SideSection>)
    requires
        order.no_duplicates(),
        forall|s: SideSection| order.contains(s),
    ensures
        order.len() == 4,
{
    let all = SideSection::all();
    assert(all[0] == SideSection::Bookmarks && all[1] == SideSection::System && all[2]
        == SideSection::Volumes && all[3] == SideSection::Recent);
    assert forall|s: SideSection| #[trigger] order.to_set().contains(s) == all.to_set().contains(
        s,
    ) by {
        assert(order.contains(s));
        let k = match s {
            SideSection::Bookmarks => 0int,
            SideSection::System => 1,
            SideSection::Volumes => 2,
            SideSection::Recent => 3,
        };
        assert(all[k] == s);
        assert(all.contains(s));
    }
    assert(order.to_set() =~= all.to_set());
    order.unique_seq_to_set();
    all.unique_seq_to_set();
}

/// A completed order has every block once, keeps a full order as it is, and an
/// empty one becomes the usual order.
pub proof fn law_completed(order: Seq<SideSection>)
    ensures
        is_full(completed(order)),
        is_full(order) ==> completed(order) == order,
        order.len() == 0 ==> completed(order) == SideSection::all(),
{
    let empty = Seq::<SideSection>::empty();
    lemma_once(order, empty);
    let front = once(order, empty);
    let all = SideSection::all();
    lemma_once(all, front);
    let r = completed(order);
    assert forall|s: SideSection| r.contains(s) by {
        let k = match s {
            SideSection::Bookmarks => 0int,
            SideSection::System => 1,
            SideSection::Volumes => 2,
            SideSection::Recent => 3,
        };
        assert(all[k] == s);
        assert(r.contains(all[k]));
    }
    lemma_four(r);
    if is_full(order) {
        lemma_already_once(order);
        assert forall|i: int| 0 <= i < all.len() implies order.contains(#[trigger] all[i]) by {
        }
        lemma_nothing_new(all, order);
    }
    if order.len() == 0 {
        lemma_already_once(all);
        assert(front =~= empty);
    }
}

/// Moving a block keeps every block once, and puts it where the other stood.
pub proof fn law_moved(order: Seq<SideSection>, from: SideSection, to: SideSection)
    requires
        is_full(order),
    ensures
        is_full(moved(order, from, to)),
        from != to ==> moved(order, from, to)[section_place(order, to)] == from,
{
    if from != to {
        assert(order.contains(from) && order.contains(to));
        lemma_place_holds(order, from);
        lemma_place_holds(order, to);
        let f = section_place(order, from);
        let t = section_place(order, to);
        lemma_no_repeat(order, f, t);
        let r = order.remove(f).insert(t, from);
        assert(r == moved(order, from, to));
        assert forall|s: SideSection| r.contains(s) by {
            assert(order.contains(s));
            lemma_place_holds(order, s);
            lemma_still_there(order, f, t, section_place(order, s));
        }
    }
}

proof fn lemma_no_repeat(order: Seq<SideSection>, f: int, t: int)
    requires
        order.no_duplicates(),
        0 <= f < order.len(),
        0 <= t < order.len(),
    ensures
        order.remove(f).insert(t, order[f]).no_duplicates(),
        order.remove(f).insert(t, order[f]).len() == order.len(),
        order.remove(f).insert(t, order[f])[t] == order[f],
{
    let r = order.remove(f).insert(t, order[f]);
    assert forall|i: int, j: int| 0 <= i < r.len() && 0 <= j < r.len() && i != j implies r[i]
        != r[j] by {
        let pi = source(f, t, i);
        let pj = source(f, t, j);
        assert(r[i] == order[pi] && r[j] == order[pj]);
        assert(pi != pj);
    }
}

proof fn lemma_still_there(order: Seq<SideSection>, f: int, t: int, k: int)
    requires
        0 <= f < order.len(),
        0 <= t < order.len(),
        0 <= k < order.len(),
    ensures
        order.remove(f).insert(t, order[f]).contains(order[k]),
{
    let rest = order.remove(f);
    let r = rest.insert(t, order[f]);
    if k == f {
        assert(r[t] == order[k]);
    } else {
        let after = if k > f {
            k - 1
        } else {
            k
        };
        let at = if after >= t {
            after + 1
        } else {
            after
        };
        assert(rest[after] == order[k]);
        assert(r[at] == order[k]);
    }
}

/// Where an item stood before the item at `f` was moved to `t`.
spec fn source(f: int, t: int, i: int) -> int {
    if i == t {
        f
    } else {
        let k = if i > t {
            i - 1
        } else {
            i
        };
        if k >= f {
            k + 1
        } else {
            k
        }
    }
}

proof fn lemma_place_holds(list: Seq<SideSection>, s: SideSection)
    requires
        list.contains(s),
    ensures
        0 <= section_place(list, s) < list.len(),
        list[section_place(list, s)] == s,
    decreases list.len(),
{
    if list[0] != s {
        let t = list.drop_first();
        let k = choose|k: int| 0 <= k < list.len() && list[k] == s;
        assert(t[k - 1] == s);
        lemma_place_holds(t, s);
    }
}

} // verus!
