//! How systems take paths apart.
//!
//! A path is parted at its slashes. Windows parts it at backslashes too, and
//! takes a letter and a colon at its start for a drive. What a library
//! function says of a path is what one of the two readings gives; where both
//! give the same, it is known.
use vstd::prelude::*;
use crate::text::lower;

verus! {

/// The systems that read paths differently.
#[derive(Clone, Copy, Debug, PartialEq, Eq, Structural)]
pub enum System {
    Unix,
    Windows,
}

/// The characters that part the names in a path.
pub open spec fn parting(sys: System) -> Set<char> {
    match sys {
        System::Unix => set!['/'],
        System::Windows => set!['/', '\\'],
    }
}

/// The characters that part a path on some system.
pub open spec fn breaks() -> Set<char> {
    set!['/', '\\', ':']
}

/// The place of the last of some characters in a text, or -1.
pub open spec fn last_among(s: Seq<char>, cs: Set<char>) -> int
    decreases s.len(),
{
    if s.len() == 0 {
        -1
    } else if cs.contains(s.last()) {
        s.len() - 1
    } else {
        last_among(s.drop_last(), cs)
    }
}

/// The place of the last `c` in a text, or -1.
pub open spec fn last_place(s: Seq<char>, c: char) -> int {
    last_among(s, set![c])
}

/// The extension of a file name: what comes behind its last dot, unless that
/// dot starts the name.
pub open spec fn name_extension(name: Seq<char>) -> Option<Seq<char>> {
    let k = last_place(name, '.');
    if k <= 0 {
        None
    } else {
        Some(name.skip(k + 1))
    }
}

/// A file name without its extension.
pub open spec fn name_stem(name: Seq<char>) -> Seq<char> {
    let k = last_place(name, '.');
    if k <= 0 {
        name
    } else {
        name.take(k)
    }
}

/// Whether a path starts with two separators, as a path of another machine or
/// of a device does on Windows.
pub open spec fn starts_doubly(path: Seq<char>) -> bool {
    let both = parting(System::Windows);
    path.len() >= 2 && both.contains(path[0]) && both.contains(path[1])
}

/// How many characters at the start of a path name a drive.
pub open spec fn drive_len(path: Seq<char>, sys: System) -> int {
    if sys is Windows && path.len() >= 2 && path[1] == ':' && ('a' <= path[0] <= 'z' || 'A'
        <= path[0] <= 'Z') {
        2
    } else {
        0
    }
}

/// A path without the separators, and the names that are a dot alone, at its
/// end.
pub open spec fn settled_end(s: Seq<char>, sys: System) -> Seq<char>
    decreases s.len(),
{
    if s.len() == 0 {
        s
    } else if parting(sys).contains(s.last()) {
        settled_end(s.drop_last(), sys)
    } else if s.len() >= 2 && s.last() == '.' && parting(sys).contains(s[s.len() - 2]) {
        settled_end(s.drop_last(), sys)
    } else {
        s
    }
}

/// A path without its drive.
pub open spec fn body_of(path: Seq<char>, sys: System) -> Seq<char> {
    path.skip(drive_len(path, sys))
}

/// The file name of a path: its last name, unless that leads upwards.
pub open spec fn name_read(path: Seq<char>, sys: System) -> Option<Seq<char>> {
    let s = settled_end(body_of(path, sys), sys);
    let n = s.skip(last_among(s, parting(sys)) + 1);
    if n.len() == 0 || n == seq!['.'] || n == seq!['.', '.'] {
        None
    } else {
        Some(n)
    }
}

pub open spec fn extension_read(path: Seq<char>, sys: System) -> Option<Seq<char>> {
    match name_read(path, sys) {
        Some(n) => name_extension(n),
        None => None,
    }
}

pub open spec fn stem_read(path: Seq<char>, sys: System) -> Option<Seq<char>> {
    match name_read(path, sys) {
        Some(n) => Some(name_stem(n)),
        None => None,
    }
}

/// Whether nothing follows the last name of a path.
pub open spec fn ends_in_name(path: Seq<char>, sys: System) -> bool {
    settled_end(body_of(path, sys), sys) == body_of(path, sys)
}

/// Where the stem of a path that ends in its name `n` ends.
pub open spec fn stem_end(path: Seq<char>, n: Seq<char>) -> int {
    path.len() - n.len() + name_stem(n).len()
}

/// A text cut at `k`, with an extension.
pub open spec fn cut_and_dotted(path: Seq<char>, k: int, ext: Seq<char>) -> Seq<char> {
    path.take(k) + seq!['.'] + ext
}

/// A path without the separators, and the names that are a dot alone, at its
/// end.
pub open spec fn settled(path: Seq<char>, sys: System) -> Seq<char> {
    path.take(drive_len(path, sys) + settled_end(body_of(path, sys), sys).len())
}

/// A stem that is a dot alone.
pub open spec fn dot_stem(n: Seq<char>) -> bool {
    name_stem(n) == seq!['.']
}

/// Whether `r` is the path with its file's extension replaced, or with one
/// added, up to what follows the file's name. A path without a file name stays
/// as it is. What becomes of a name whose stem is a dot alone is left open.
pub open spec fn replaced_by(path: Seq<char>, ext: Seq<char>, sys: System, r: Seq<char>) -> bool {
    match name_read(path, sys) {
        Some(n) => dot_stem(n) || {
            let s = settled(path, sys);
            let c = cut_and_dotted(s, stem_end(s, n), ext);
            &&& settled(r, sys) == c
            &&& ends_in_name(path, sys) ==> r == c
        },
        None => r == path,
    }
}

/// Whether an extension is the wanted one, whatever the case of its letters.
pub open spec fn fits(e: Option<Seq<char>>, ext: Seq<char>) -> bool {
    e matches Some(x) && lower(x) == lower(ext)
}

/// Whether `r` is the path that ends in the extension: the path itself where it
/// does already.
pub open spec fn ensured_by(path: Seq<char>, ext: Seq<char>, sys: System, r: Seq<char>) -> bool {
    if fits(extension_read(path, sys), ext) {
        r == path
    } else {
        replaced_by(path, ext, sys, r)
    }
}

/// Whether `r` is the folder of a path: the path without its last name, up to
/// separators and names of a dot alone at its end; none where there is no name,
/// in an empty path, a root and a drive. That of a dot behind a drive is left
/// open.
pub open spec fn parent_by(path: Seq<char>, sys: System, r: Option<Seq<char>>) -> bool {
    let d = drive_len(path, sys);
    let s = settled_end(body_of(path, sys), sys);
    let k = last_among(s, parting(sys));
    if s.len() == 0 {
        r is None
    } else if d > 0 && s == seq!['.'] {
        true
    } else {
        &&& r matches Some(p)
        &&& d <= p.len() <= path.len()
        &&& p == path.take(p.len() as int)
        &&& k <= 0 ==> p.len() == d + k + 1
        &&& k > 0 ==> settled_end(p.skip(d), sys) == settled_end(s.take(k), sys)
        &&& k > 0 && ends_in_name(path, sys) && settled_end(s.take(k), sys) == s.take(k)
            ==> p.len() == d + k
    }
}

/// What comes behind the last character that parts a path on some system.
pub open spec fn tail(path: Seq<char>) -> Seq<char> {
    path.skip(last_among(path, breaks()) + 1)
}

/// Whether every system finds the same dot before the extension of a path.
pub open spec fn dotted(path: Seq<char>) -> bool {
    last_place(tail(path), '.') > 0 && tail(path) != seq!['.', '.']
}

/// The place of that dot.
pub open spec fn dot_of(path: Seq<char>) -> int {
    path.len() - tail(path).len() + last_place(tail(path), '.')
}

/// What comes behind the last slash of a path.
pub open spec fn last_name(path: Seq<char>) -> Seq<char> {
    path.skip(last_place(path, '/') + 1)
}

/// Whether every system finds a name without an extension at the end of a path.
pub open spec fn undotted(path: Seq<char>) -> bool {
    tail(path).len() > 0 && !last_name(path).contains('.')
}

/// Whether every system takes the path apart at its slashes alone.
pub open spec fn portable(path: Seq<char>) -> bool {
    &&& !path.contains('\\')
    &&& !path.contains(':')
    &&& !(path.len() >= 2 && path[0] == '/' && path[1] == '/')
}

/// Whether the path ends in a name that every system takes for the file name.
pub open spec fn names_file(path: Seq<char>) -> bool {
    &&& portable(path)
    &&& last_name(path).len() > 0
    &&& last_name(path) != seq!['.']
    &&& last_name(path) != seq!['.', '.']
}

pub proof fn lemma_last_among(s: Seq<char>, cs: Set<char>)
    ensures
        -1 <= last_among(s, cs) < s.len(),
        last_among(s, cs) >= 0 ==> cs.contains(s[last_among(s, cs)]),
        forall|j: int| last_among(s, cs) < j < s.len() ==> !cs.contains(s[j]),
    decreases s.len(),
{
    if s.len() > 0 && !cs.contains(s.last()) {
        let t = s.drop_last();
        lemma_last_among(t, cs);
        assert forall|j: int| last_among(s, cs) < j < s.len() implies !cs.contains(s[j]) by {
            if j < t.len() {
                assert(t[j] == s[j]);
            }
        }
    }
}

pub proof fn lemma_last_among_at(s: Seq<char>, cs: Set<char>, k: int)
    requires
        -1 <= k < s.len(),
        k >= 0 ==> cs.contains(s[k]),
        forall|j: int| k < j < s.len() ==> !cs.contains(s[j]),
    ensures
        last_among(s, cs) == k,
{
    lemma_last_among(s, cs);
}

/// A name that is not empty has a stem that is not.
pub proof fn lemma_stem_not_empty(name: Seq<char>)
    requires
        name.len() > 0,
    ensures
        name_stem(name).len() > 0,
        name_stem(name).len() <= name.len(),
{
    lemma_last_among(name, set!['.']);
}

/// The last name of a path without trailing separators, on either system, ends
/// in the path's tail.
#[verifier::spinoff_prover]
#[verifier::rlimit(40)]
proof fn lemma_name_holds_tail(path: Seq<char>, sys: System)
    requires
        tail(path).len() > 0,
        tail(path) != seq!['.'],
    ensures
        ends_in_name(path, sys),
        ({
            let s = body_of(path, sys);
            let n = s.skip(last_among(s, parting(sys)) + 1);
            &&& n.len() >= tail(path).len()
            &&& n.skip(n.len() - tail(path).len()) == tail(path)
            &&& n == path.skip(path.len() - n.len())
            &&& n.len() <= path.len() - drive_len(path, sys)
        }),
{
    let t = last_among(path, breaks());
    lemma_last_among(path, breaks());
    let d = drive_len(path, sys);
    let s = body_of(path, sys);
    let k = last_among(s, parting(sys));
    lemma_last_among(s, parting(sys));
    if d == 2 {
        assert(breaks().contains(path[1]));
        assert(t >= 1);
    }
    assert(s.len() == path.len() - d);
    assert(tail(path).len() == path.len() - t - 1);
    assert(s.last() == path.last());
    assert(!breaks().contains(path.last()));
    assert(forall|c: char| parting(sys).contains(c) ==> breaks().contains(c));
    if s.len() >= 2 && s.last() == '.' && parting(sys).contains(s[s.len() - 2]) {
        assert(s[s.len() - 2] == path[path.len() - 2]);
        assert(t == path.len() - 2);
        assert(tail(path) =~= seq!['.']);
    }
    assert(settled_end(s, sys) == s);
    if k >= 0 {
        assert(s[k] == path[d + k]);
        assert(d + k <= t);
    }
    let n = s.skip(k + 1);
    assert(n.skip(n.len() - tail(path).len()) =~= tail(path));
    assert(n =~= path.skip(path.len() - n.len()));
}

/// A file name that ends a path is the end of the path.
pub proof fn lemma_read_name(path: Seq<char>, sys: System)
    requires
        name_read(path, sys) is Some,
        ends_in_name(path, sys),
    ensures
        ({
            let n = name_read(path, sys)->0;
            let s = body_of(path, sys);
            let k = last_among(s, parting(sys));
            &&& -1 <= k < s.len()
            &&& s.len() == path.len() - drive_len(path, sys)
            &&& 0 < n.len() <= s.len()
            &&& path.len() - n.len() == drive_len(path, sys) + k + 1
            &&& n == path.skip(path.len() - n.len())
            &&& 0 < stem_end(path, n) <= path.len()
        }),
{
    let n = name_read(path, sys)->0;
    let s = body_of(path, sys);
    lemma_last_among(s, parting(sys));
    lemma_stem_not_empty(n);
    assert(n =~= path.skip(path.len() - n.len()));
}

/// Where the tail of a path has a dot behind its first character, every system
/// reads the same extension.
#[verifier::spinoff_prover]
#[verifier::rlimit(40)]
pub proof fn lemma_dotted(path: Seq<char>, sys: System)
    requires
        dotted(path),
    ensures
        ends_in_name(path, sys),
        name_read(path, sys) is Some,
        extension_read(path, sys) == name_extension(tail(path)),
        stem_end(path, name_read(path, sys)->0) == dot_of(path),
        dot_stem(name_read(path, sys)->0) ==> dot_stem(tail(path)),
        0 < dot_of(path) < path.len(),
        path[dot_of(path)] == '.',
        path.skip(dot_of(path) + 1) == tail(path).skip(last_place(tail(path), '.') + 1),
{
    let ta = tail(path);
    let dot = last_place(ta, '.');
    lemma_last_among(ta, set!['.']);
    lemma_last_among(path, breaks());
    lemma_name_holds_tail(path, sys);
    let s = body_of(path, sys);
    let n = s.skip(last_among(s, parting(sys)) + 1);
    let more = n.len() - ta.len();
    assert forall|j: int| 0 <= j < ta.len() implies n[more + j] == ta[j] by {
        assert(n.skip(more)[j] == n[more + j]);
    }
    if n == seq!['.', '.'] {
        assert(ta.len() == 2);
        assert(ta =~= n);
    }
    assert(n.len() >= 2);
    assert(name_read(path, sys) == Some(n));
    assert forall|j: int| more + dot < j < n.len() implies !set!['.'].contains(n[j]) by {
        assert(n[j] == ta[j - more]);
    }
    lemma_last_among_at(n, set!['.'], more + dot);
    assert(n.skip(more + dot + 1) =~= ta.skip(dot + 1));
    assert(path.skip(dot_of(path) + 1) =~= ta.skip(dot + 1));
    assert(path[dot_of(path)] == ta[dot]);
    if dot_stem(n) {
        assert(name_stem(n).len() == 1);
        assert(n =~= ta);
    }
}

/// Where there is no dot in what follows the last slash, no system reads an
/// extension.
#[verifier::spinoff_prover]
#[verifier::rlimit(40)]
pub proof fn lemma_undotted(path: Seq<char>, sys: System)
    requires
        undotted(path),
    ensures
        ends_in_name(path, sys),
        name_read(path, sys) is Some,
        extension_read(path, sys) is None,
        stem_end(path, name_read(path, sys)->0) == path.len(),
{
    let ta = tail(path);
    let p = last_place(path, '/');
    lemma_last_among(path, set!['/']);
    lemma_last_among(path, breaks());
    assert(p <= last_among(path, breaks())) by {
        if p >= 0 {
            assert(breaks().contains(path[p]));
        }
    }
    assert forall|j: int| p < j < path.len() implies path[j] != '.' by {
        assert(last_name(path)[j - p - 1] == path[j]);
    }
    assert(ta[ta.len() - 1] == path[path.len() - 1]);
    lemma_name_holds_tail(path, sys);
    let s = body_of(path, sys);
    let k = last_among(s, parting(sys));
    lemma_last_among(s, parting(sys));
    let n = s.skip(k + 1);
    assert forall|j: int| 0 <= j < n.len() implies n[j] != '.' by {
        let at = path.len() - n.len() + j;
        assert(n[j] == path[at]);
        if at <= p {
            let q = p - drive_len(path, sys);
            assert(s[q] == path[p]);
            assert(parting(sys).contains('/'));
            assert(q > k);
        }
    }
    assert(n[0] != '.');
    lemma_last_among_at(n, set!['.'], -1);
}

/// Where a path is parted by slashes alone, every system reads the same name.
#[verifier::spinoff_prover]
#[verifier::rlimit(40)]
pub proof fn lemma_names_file(path: Seq<char>, sys: System)
    requires
        names_file(path),
    ensures
        ends_in_name(path, sys),
        name_read(path, sys) == Some(last_name(path)),
        drive_len(path, sys) == 0,
        last_among(path, parting(sys)) == last_place(path, '/'),
        body_of(path, sys) == path,
        !starts_doubly(path),
{
    let p = last_place(path, '/');
    lemma_last_among(path, set!['/']);
    assert forall|j: int| 0 <= j < path.len() implies path[j] != '\\' && path[j] != ':' by {
        assert(path.contains(path[j]));
    }
    assert(drive_len(path, sys) == 0);
    assert(body_of(path, sys) =~= path);
    assert forall|j: int| p < j < path.len() implies !parting(sys).contains(path[j]) by {
        assert(!set!['/'].contains(path[j]));
    }
    lemma_last_among_at(path, parting(sys), p);
    let n = last_name(path);
    assert(n[n.len() - 1] == path.last());
    if path.len() >= 2 && path.last() == '.' && parting(sys).contains(path[path.len() - 2]) {
        assert(p == path.len() - 2);
        assert(n =~= seq!['.']);
    }
    assert(settled_end(path, sys) == path);
}

pub proof fn lemma_settled_end(s: Seq<char>, sys: System)
    ensures
        settled_end(s, sys).len() <= s.len(),
        settled_end(s, sys) == s.take(settled_end(s, sys).len() as int),
        settled_end(settled_end(s, sys), sys) == settled_end(s, sys),
    decreases s.len(),
{
    assert(s.take(s.len() as int) =~= s);
    if s.len() > 0 {
        let t = s.drop_last();
        lemma_settled_end(t, sys);
        let n = settled_end(t, sys).len() as int;
        assert(t.take(n) =~= s.take(n));
    }
}

/// A path has the same drive and the same name without what follows its name.
pub proof fn lemma_settled(path: Seq<char>, sys: System)
    ensures
        drive_len(settled(path, sys), sys) == drive_len(path, sys),
        ends_in_name(settled(path, sys), sys),
        name_read(settled(path, sys), sys) == name_read(path, sys),
        ends_in_name(path, sys) ==> settled(path, sys) == path,
        settled(path, sys).len() <= path.len(),
{
    let d = drive_len(path, sys);
    let s = body_of(path, sys);
    let e = settled_end(s, sys);
    let q = settled(path, sys);
    lemma_settled_end(s, sys);
    assert(d <= path.len());
    assert(q.len() == d + e.len());
    assert(q.len() >= 1 ==> q[0] == path[0]);
    assert(q.len() >= 2 ==> q[1] == path[1]);
    assert(drive_len(q, sys) == d);
    assert(body_of(q, sys) =~= s.take(e.len() as int));
    if ends_in_name(path, sys) {
        assert(q =~= path);
    }
}

} // verus!
