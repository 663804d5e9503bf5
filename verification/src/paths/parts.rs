//! When two paths are the same: where they have the same parts. Superfluous
//! separators and dots make no difference, nor does, on Windows, the separator
//! and the case of a drive's letter.
use vstd::prelude::*;
use crate::paths::reading::{
    System, body_of, drive_len, last_among, lemma_last_among, lemma_last_among_at, lemma_settled,
    lemma_settled_end, parting, settled, settled_end, starts_doubly,
};
use crate::text::{
    ascii_lower_char, chars_of, lemma_text_place, lemma_text_place_at, lower_char, same_text,
    slice_text, text_place, texts,
};

verus! {

/// A part of a path.
pub enum Part {
    Drive(char),
    /// The two separators before the name of another machine.
    Machine,
    Root,
    /// A dot at the start.
    Here,
    Name(Seq<char>),
}

/// The names of a path, without empty ones and dots.
pub open spec fn names_in(s: Seq<char>, sys: System) -> Seq<Part>
    decreases s.len(),
{
    let k = last_among(s, parting(sys));
    if k < -1 || k >= s.len() {
        Seq::empty()
    } else {
        let n = s.skip(k + 1);
        let before = if k < 0 {
            Seq::empty()
        } else {
            names_in(s.take(k), sys)
        };
        if n.len() == 0 || n == seq!['.'] {
            before
        } else {
            before.push(Part::Name(n))
        }
    }
}

/// What a path begins with before its first name.
pub open spec fn start_of(path: Seq<char>, sys: System) -> Seq<Part> {
    let s = body_of(path, sys);
    let drive = if drive_len(path, sys) == 0 {
        Seq::empty()
    } else {
        seq![Part::Drive(lower_char(path[0]))]
    };
    if sys is Windows && starts_doubly(path) {
        seq![Part::Machine]
    } else if s.len() > 0 && parting(sys).contains(s[0]) {
        drive.push(Part::Root)
    } else if s.len() > 0 && s[0] == '.' && (s.len() == 1 || parting(sys).contains(s[1])) {
        drive.push(Part::Here)
    } else {
        drive
    }
}

/// The parts of a path, in order.
#[verifier::opaque]
pub open spec fn parts(path: Seq<char>, sys: System) -> Seq<Part> {
    start_of(path, sys) + names_in(body_of(path, sys), sys)
}

/// Whether two paths are the same.
pub open spec fn same_place(a: Seq<char>, b: Seq<char>, sys: System) -> bool {
    parts(a, sys) == parts(b, sys)
}

/// Whether a path lies in a folder, however deep, or is that folder.
pub open spec fn lies_under(path: Seq<char>, dir: Seq<char>, sys: System) -> bool {
    let p = parts(path, sys);
    let d = parts(dir, sys);
    d.len() <= p.len() && p.take(d.len() as int) == d
}

/// The parts of each path of a list.
pub open spec fn all_parts(list: Seq<Seq<char>>, sys: System) -> Seq<Seq<Part>> {
    list.map_values(|p: Seq<char>| parts(p, sys))
}

/// Whether a path is in a list.
pub open spec fn has_place(list: Seq<Seq<char>>, path: Seq<char>, sys: System) -> bool {
    all_parts(list, sys).contains(parts(path, sys))
}

/// The first place of a path in a list, or the list's length.
pub open spec fn place_in(list: Seq<Seq<char>>, path: Seq<char>, sys: System) -> int {
    text_place(all_parts(list, sys), parts(path, sys))
}

/// A list of paths without one of them.
pub open spec fn without(list: Seq<Seq<char>>, x: Seq<char>, sys: System) -> Seq<Seq<char>>
    decreases list.len(),
{
    if list.len() == 0 {
        list
    } else {
        let before = without(list.drop_last(), x, sys);
        if same_place(list.last(), x, sys) {
            before
        } else {
            before.push(list.last())
        }
    }
}

/// A part of a path, as text.
enum PathPart {
    Drive(char),
    Machine,
    Root,
    Here,
    Name(String),
}

spec fn part_view(p: PathPart) -> Part {
    match p {
        PathPart::Drive(c) => Part::Drive(c),
        PathPart::Machine => Part::Machine,
        PathPart::Root => Part::Root,
        PathPart::Here => Part::Here,
        PathPart::Name(n) => Part::Name(n@),
    }
}

spec fn part_views(v: Seq<PathPart>) -> Seq<Part> {
    v.map_values(|p: PathPart| part_view(p))
}

fn is_parting(c: char, sys: System) -> (r: bool)
    ensures
        r == parting(sys).contains(c),
{
    match sys {
        System::Unix => c == '/',
        System::Windows => c == '/' || c == '\\',
    }
}

/// The place of the last separator before `to`, plus one.
fn after_last_parting(chars: &Vec<char>, from: usize, to: usize, sys: System) -> (r: usize)
    requires
        from <= to <= chars.len(),
    ensures
        from <= r <= to,
        r - from == last_among(chars@.subrange(from as int, to as int), parting(sys)) + 1,
{
    let ghost s = chars@.subrange(from as int, to as int);
    let mut i: usize = to;
    while i > from && !is_parting(chars[i - 1], sys)
        invariant
            from <= i <= to <= chars.len(),
            s == chars@.subrange(from as int, to as int),
            forall|j: int| i - from <= j < s.len() ==> !parting(sys).contains(s[j]),
        decreases i,
    {
        i -= 1;
        assert(s[i - from] == chars@[i as int]);
    }
    proof {
        if i > from {
            assert(s[i - from - 1] == chars@[i - 1]);
        }
        lemma_last_among_at(s, parting(sys), i - from - 1);
    }
    i
}

fn collect_names(chars: &Vec<char>, from: usize, to: usize, sys: System, out: &mut Vec<PathPart>)
    requires
        from <= to <= chars.len(),
    ensures
        part_views(final(out)@) == part_views(old(out)@) + names_in(
            chars@.subrange(from as int, to as int),
            sys,
        ),
    decreases to,
{
    let ghost s = chars@.subrange(from as int, to as int);
    let ghost before = part_views(out@);
    let at: usize = after_last_parting(chars, from, to, sys);
    if at > from {
        collect_names(chars, from, at - 1, sys, out);
        assert(chars@.subrange(from as int, at - 1) =~= s.take(at - 1 - from));
    }
    let ghost middle = part_views(out@);
    assert(at == from ==> middle =~= before + Seq::empty());
    let name = slice_text(chars, at, to);
    assert(name@ =~= s.skip(at - from));
    if at < to && !same_text(name.as_str(), ".") {
        proof {
            reveal_strlit(".");
            assert("."@ =~= seq!['.']);
        }
        let ghost gn = name@;
        out.push(PathPart::Name(name));
        assert(part_views(out@) =~= middle.push(Part::Name(gn)));
    } else {
        proof {
            reveal_strlit(".");
            assert("."@ =~= seq!['.']);
        }
    }
    assert(part_views(out@) =~= before + names_in(s, sys));
}

fn parts_of(path: &str, sys: System) -> (r: Vec<PathPart>)
    ensures
        part_views(r@) == parts(path@, sys),
{
    let c = chars_of(path);
    let n: usize = c.len();
    let windows: bool = match sys {
        System::Windows => true,
        System::Unix => false,
    };
    let mut out: Vec<PathPart> = Vec::new();
    let mut from: usize = 0;
    if windows && n >= 2 && c[1] == ':' && (('a' <= c[0] && c[0] <= 'z') || ('A' <= c[0] && c[0]
        <= 'Z')) {
        from = 2;
        out.push(PathPart::Drive(ascii_lower_char(c[0])));
    }
    assert(c@.subrange(from as int, n as int) =~= body_of(path@, sys));
    let ghost s = body_of(path@, sys);
    assert(n > from ==> s[0] == c@[from as int]);
    assert(n > from + 1 ==> s[1] == c@[from + 1]);
    if windows && n >= 2 && is_parting(c[0], sys) && is_parting(c[1], sys) {
        out.push(PathPart::Machine);
    } else if n > from && is_parting(c[from], sys) {
        out.push(PathPart::Root);
    } else if n > from && c[from] == '.' && (n == from + 1 || is_parting(c[from + 1], sys)) {
        out.push(PathPart::Here);
    }
    assert(part_views(out@) =~= start_of(path@, sys));
    proof {
        reveal(parts);
    }
    collect_names(&c, from, n, sys, &mut out);
    out
}

fn same_part(a: &PathPart, b: &PathPart) -> (r: bool)
    ensures
        r == (part_view(*a) == part_view(*b)),
{
    match (a, b) {
        (PathPart::Drive(x), PathPart::Drive(y)) => *x == *y,
        (PathPart::Machine, PathPart::Machine) => true,
        (PathPart::Root, PathPart::Root) => true,
        (PathPart::Here, PathPart::Here) => true,
        (PathPart::Name(x), PathPart::Name(y)) => same_text(x.as_str(), y.as_str()),
        _ => false,
    }
}

fn starts_alike(p: &Vec<PathPart>, d: &Vec<PathPart>) -> (r: bool)
    requires
        d.len() <= p.len(),
    ensures
        r == (part_views(p@).take(d.len() as int) == part_views(d@)),
{
    let n: usize = d.len();
    let mut i: usize = 0;
    while i < n
        invariant
            i <= n,
            n == d.len(),
            n <= p.len(),
            forall|j: int| 0 <= j < i ==> part_view(p@[j]) == part_view(#[trigger] d@[j]),
        decreases n - i,
    {
        if !same_part(&p[i], &d[i]) {
            assert(part_views(p@).take(n as int)[i as int] != part_views(d@)[i as int]);
            return false;
        }
        i += 1;
    }
    assert(part_views(p@).take(n as int) =~= part_views(d@)) by {
        assert forall|j: int| 0 <= j < n implies part_views(p@).take(n as int)[j] == part_views(
            d@,
        )[j] by {
            assert(part_view(p@[j]) == part_view(d@[j]));
        }
    }
    true
}

/// Whether two paths are the same.
pub fn same_path(a: &str, b: &str, sys: System) -> (r: bool)
    ensures
        r == same_place(a@, b@, sys),
{
    let p = parts_of(a, sys);
    let d = parts_of(b, sys);
    assert(part_views(p@).len() == p.len() && part_views(d@).len() == d.len());
    if p.len() != d.len() {
        return false;
    }
    assert(part_views(p@).take(p.len() as int) =~= part_views(p@));
    starts_alike(&p, &d)
}

/// Whether a path lies in a folder, however deep, or is that folder.
pub fn is_under(path: &str, dir: &str, sys: System) -> (r: bool)
    ensures
        r == lies_under(path@, dir@, sys),
{
    let p = parts_of(path, sys);
    let d = parts_of(dir, sys);
    assert(part_views(p@).len() == p.len() && part_views(d@).len() == d.len());
    d.len() <= p.len() && starts_alike(&p, &d)
}

/// The first place of a path in a list, or the list's length.
pub fn path_place(list: &Vec<String>, path: &str, sys: System) -> (r: usize)
    ensures
        r == place_in(texts(list@), path@, sys),
        r <= list.len(),
        r < list.len() <==> has_place(texts(list@), path@, sys),
{
    let ghost all = all_parts(texts(list@), sys);
    let ghost x = parts(path@, sys);
    let n: usize = list.len();
    let mut i: usize = 0;
    while i < n && !same_path(list[i].as_str(), path, sys)
        invariant
            i <= n,
            n == list.len(),
            all == all_parts(texts(list@), sys),
            x == parts(path@, sys),
            forall|j: int| 0 <= j < i ==> all[j] != x,
        decreases n - i,
    {
        i += 1;
    }
    proof {
        lemma_text_place_at(all, x, i as int);
        lemma_text_place(all, x);
    }
    i
}

/// Whether a path is in a list.
pub fn has_path(list: &Vec<String>, path: &str, sys: System) -> (r: bool)
    ensures
        r == has_place(texts(list@), path@, sys),
{
    path_place(list, path, sys) < list.len()
}

/// Takes a path out of a list.
pub fn drop_path(list: &mut Vec<String>, x: &str, sys: System)
    ensures
        texts(final(list)@) == without(texts(old(list)@), x@, sys),
{
    let n: usize = list.len();
    let mut out: Vec<String> = Vec::new();
    let mut i: usize = 0;
    assert(texts(list@).take(0) =~= Seq::empty());
    assert(texts(out@) =~= Seq::empty());
    while i < n
        invariant
            i <= n,
            n == list.len(),
            list@ == old(list)@,
            texts(out@) == without(texts(list@).take(i as int), x@, sys),
        decreases n - i,
    {
        let ghost before = texts(out@);
        proof {
            let t = texts(list@).take(i + 1);
            assert(t.drop_last() =~= texts(list@).take(i as int));
        }
        if !same_path(list[i].as_str(), x, sys) {
            out.push(list[i].as_str().to_owned());
            assert(texts(out@) =~= before.push(list@[i as int]@));
        }
        i += 1;
    }
    assert(texts(list@).take(n as int) =~= texts(list@));
    *list = out;
}

/// `std::path::is_separator` of the backslash: whether it parts the names of a
/// path on this machine.
#[verifier::external_body]
fn std_parts_at_backslash() -> (r: bool) {
    std::path::is_separator('\\')
}

/// The system of this machine.
pub fn this_system() -> (r: System) {
    if std_parts_at_backslash() {
        System::Windows
    } else {
        System::Unix
    }
}

proof fn lemma_settled_names(s: Seq<char>, sys: System)
    ensures
        names_in(settled_end(s, sys), sys) == names_in(s, sys),
    decreases s.len(),
{
    if s.len() > 0 {
        let t = s.drop_last();
        lemma_last_among(s, parting(sys));
        if parting(sys).contains(s.last()) {
            lemma_settled_names(t, sys);
            lemma_last_among_at(s, parting(sys), s.len() - 1);
            assert(s.take(s.len() - 1) =~= t);
        } else if s.len() >= 2 && s.last() == '.' && parting(sys).contains(s[s.len() - 2]) {
            lemma_settled_names(t, sys);
            lemma_last_among_at(s, parting(sys), s.len() - 2);
            lemma_last_among_at(t, parting(sys), t.len() - 1);
            assert(s.skip(s.len() - 1) =~= seq!['.']);
            assert(s.take(s.len() - 2) =~= t.take(t.len() - 1));
        }
    }
}

/// A path is the same without the separators and dots that follow its last
/// name.
pub proof fn law_same_when_settled(path: Seq<char>, sys: System)
    requires
        settled_end(body_of(path, sys), sys).len() > 0,
    ensures
        same_place(settled(path, sys), path, sys),
{
    let s = body_of(path, sys);
    let e = settled_end(s, sys);
    let q = settled(path, sys);
    lemma_settled(path, sys);
    lemma_settled_end(s, sys);
    lemma_settled_names(s, sys);
    assert(body_of(q, sys) =~= e);
    assert(e[0] == s[0]);
    assert(e.len() >= 2 ==> e[1] == s[1]);
    assert(q[0] == path[0]);
    assert(q.len() >= 2 ==> q[1] == path[1]);
    lemma_settled_end(e.drop_last(), sys);
    assert(!parting(sys).contains(e.last()));
    if e.len() == 1 && s.len() > 1 && !parting(sys).contains(s[1]) {
        assert(settled_end(s, sys).len() == 1);
        lemma_kept_start(s, sys);
    }
    if q.len() == 1 {
        assert(e.last() == path[0]);
        assert(sys is Windows ==> !starts_doubly(path));
    }
    reveal(parts);
}

/// Where the second character parts nothing, both of the first two are kept.
proof fn lemma_kept_start(s: Seq<char>, sys: System)
    requires
        s.len() > 1,
        !parting(sys).contains(s[1]),
        s[1] != '.' || !parting(sys).contains(s[0]),
    ensures
        settled_end(s, sys).len() > 1,
    decreases s.len(),
{
    if s.len() > 2 {
        lemma_kept_start(s.drop_last(), sys);
    }
}

} // verus!
