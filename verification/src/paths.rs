//! File names and extensions of paths given as text.
//!
//! What a separator is depends on the system. The contracts here say what
//! either way of reading a path gives, and so know the answer wherever the two
//! agree.
use std::path::Path;
use vstd::prelude::*;
use crate::paths::reading::{
    System, body_of, cut_and_dotted, dot_of, dot_stem, dotted, drive_len, ends_in_name,
    ensured_by, extension_read, fits, last_among, last_name, last_place, lemma_dotted,
    lemma_last_among, lemma_last_among_at, lemma_names_file, lemma_read_name, lemma_settled,
    lemma_stem_not_empty, lemma_undotted, name_extension, name_read, name_stem, names_file,
    parent_by, parting, portable, replaced_by, settled, settled_end, starts_doubly, stem_end,
    stem_read, tail, undotted,
};
use crate::text::{ascii_lower, eq_ignore_case, lower, opt_view, same_text};

pub mod laws;
pub mod parts;
pub mod reading;

verus! {

/// Whether a name is that of a path: what a system reads.
pub open spec fn is_name(path: Seq<char>, r: Option<Seq<char>>) -> bool {
    starts_doubly(path) || exists|sys: System| r == #[trigger] name_read(path, sys)
}

/// Whether a stem is that of a path.
pub open spec fn is_stem(path: Seq<char>, r: Option<Seq<char>>) -> bool {
    starts_doubly(path) || exists|sys: System| r == #[trigger] stem_read(path, sys)
}

/// Whether an extension is that of a path. Behind two separators the last name
/// may be that of a machine or a device and have none.
pub open spec fn is_extension(path: Seq<char>, r: Option<Seq<char>>) -> bool {
    if starts_doubly(path) {
        &&& dotted(path) ==> r == name_extension(tail(path)) || r is None
        &&& !path.contains('.') ==> r is None
    } else {
        exists|sys: System| r == #[trigger] extension_read(path, sys)
    }
}

/// Whether `r` is a path with its file's extension replaced, or with one added.
pub open spec fn is_replaced(path: Seq<char>, ext: Seq<char>, r: Seq<char>) -> bool {
    if starts_doubly(path) {
        &&& dotted(path) && !dot_stem(tail(path)) ==> r == cut_and_dotted(path, dot_of(path), ext)
            || r == path
        &&& tail(path).len() > 0 && !path.contains('.') ==> r == path + seq!['.'] + ext || r == path
    } else {
        exists|sys: System| #[trigger] replaced_by(path, ext, sys, r)
    }
}

/// `std::path::Path::file_name`: the last component of the path, without
/// separators and names of a dot alone at its end; none where that is a root, a
/// drive or `..`. Left open behind two separators, where Windows looks for the
/// name of a machine, a share or a device.
#[verifier::external_body]
fn std_file_name(path: &str) -> (r: Option<String>)
    ensures
        is_name(path@, opt_view(r)),
{
    Path::new(path).file_name().and_then(|n| n.to_str()).map(|n| n.to_owned())
}

/// `std::path::Path::file_stem`: the file name without its extension, none
/// where there is no file name. Left open where the file name is.
#[verifier::external_body]
fn std_file_stem(path: &str) -> (r: Option<String>)
    ensures
        is_stem(path@, opt_view(r)),
{
    Path::new(path).file_stem().and_then(|n| n.to_str()).map(|n| n.to_owned())
}

/// `std::path::Path::extension`: what follows the last dot of the file name,
/// unless that dot starts it. Behind two separators it is that of the last
/// name or none, where the last name has one, and none where there is no dot.
#[verifier::external_body]
fn std_extension(path: &str) -> (r: Option<String>)
    ensures
        is_extension(path@, opt_view(r)),
{
    Path::new(path).extension().and_then(|n| n.to_str()).map(|n| n.to_owned())
}

/// `std::path::Path::with_extension`: the path with the extension of its file
/// name replaced, or added where it has none; the path itself where it has no
/// file name. Left open where the stem is a dot alone. Of separators and dots
/// that follow the name it is left open whether they stay. Behind two separators
/// it is either of the two, where the last name has an extension or there is no
/// dot, and else left open. The extension holds no separator, which the function
/// would refuse.
#[verifier::external_body]
fn std_with_extension(path: &str, ext: &str) -> (r: String)
    requires
        !ext@.contains('/'),
        !ext@.contains('\\'),
        ext@.len() > 0,
    ensures
        is_replaced(path@, ext@, r@),
{
    Path::new(path).with_extension(ext).to_string_lossy().into_owned()
}

/// Whether a folder is that of a path.
pub open spec fn is_parent(path: Seq<char>, r: Option<Seq<char>>) -> bool {
    starts_doubly(path) || exists|sys: System| #[trigger] parent_by(path, sys, r)
}

/// `std::path::Path::parent`: the path without its last component; none where
/// that is a root or a drive, or the path is empty. Where the path has
/// superfluous separators or dots before or behind its last component, it is
/// left open how many of those before it stay. Left open behind two separators.
#[verifier::external_body]
fn std_parent(path: &str) -> (r: Option<String>)
    ensures
        is_parent(path@, opt_view(r)),
{
    Path::new(path).parent().and_then(|n| n.to_str()).map(|n| n.to_owned())
}

/// Whether every system joins a folder and a name with one separator: the
/// folder does not end in one or in a colon and its dots are not taken
/// literally, and the name starts with neither a separator nor a drive.
pub open spec fn joins(dir: Seq<char>, name: Seq<char>) -> bool {
    &&& dir.len() > 0
    &&& dir.last() != '/' && dir.last() != '\\' && dir.last() != ':'
    &&& !(starts_doubly(dir) && dir.len() > 2 && dir[2] == '?')
    &&& name.len() > 0
    &&& name[0] != '/' && name[0] != '\\'
    &&& !(name.len() > 1 && name[1] == ':')
}

/// A folder and a name with a separator between them.
pub open spec fn joined_by(dir: Seq<char>, separator: char, name: Seq<char>) -> Seq<char> {
    dir + seq![separator] + name
}

/// Whether a path is that of a name in a folder.
pub open spec fn path_in(dir: Seq<char>, name: Seq<char>, full: Seq<char>) -> bool {
    joins(dir, name) ==> full == joined_by(dir, '/', name) || full == joined_by(dir, '\\', name)
}

/// `std::path::Path::join`: the name is added to the folder with the system's
/// separator. Left open where the folder is empty, ends in a separator or a
/// colon or is one that Windows takes literally, and where the name is empty or
/// starts with a separator or a drive.
#[verifier::external_body]
fn std_join(dir: &str, name: &str) -> (r: String)
    ensures
        path_in(dir@, name@, r@),
{
    Path::new(dir).join(name).to_string_lossy().into_owned()
}

/// The folder of a path.
pub fn parent(path: &str) -> (r: Option<String>)
    ensures
        is_parent(path@, opt_view(r)),
{
    std_parent(path)
}

/// A name in a folder.
pub fn join(dir: &str, name: &str) -> (r: String)
    ensures
        path_in(dir@, name@, r@),
{
    std_join(dir, name)
}

/// What is known of the file name of a path.
pub open spec fn tells_name(path: Seq<char>, r: Option<Seq<char>>) -> bool {
    &&& is_name(path, r)
    &&& names_file(path) ==> r == Some(last_name(path))
}

/// What is known of the stem of a path.
pub open spec fn tells_stem(path: Seq<char>, r: Option<Seq<char>>) -> bool {
    &&& is_stem(path, r)
    &&& names_file(path) ==> r == Some(name_stem(last_name(path)))
}

/// What is known of the extension of a path.
pub open spec fn tells_extension(path: Seq<char>, r: Option<Seq<char>>) -> bool {
    &&& is_extension(path, r)
    &&& names_file(path) ==> r == name_extension(last_name(path))
    &&& dotted(path) && !starts_doubly(path) ==> r == name_extension(tail(path))
    &&& undotted(path) && !starts_doubly(path) ==> r is None
}

/// A text that may be missing, or else another.
pub open spec fn or_else(t: Option<Seq<char>>, other: Seq<char>) -> Seq<char> {
    match t {
        Some(t) => t,
        None => other,
    }
}

/// What is known of the file name of a path, where `other` stands for none.
pub open spec fn tells_name_or(path: Seq<char>, other: Seq<char>, r: Seq<char>) -> bool {
    exists|n: Option<Seq<char>>| #[trigger] tells_name(path, n) && r == or_else(n, other)
}

/// What is known of the stem of a path, where `other` stands for none.
pub open spec fn tells_stem_or(path: Seq<char>, other: Seq<char>, r: Seq<char>) -> bool {
    exists|n: Option<Seq<char>>| #[trigger] tells_stem(path, n) && r == or_else(n, other)
}

proof fn lemma_tells_extension(path: Seq<char>, r: Option<Seq<char>>)
    requires
        is_extension(path, r),
    ensures
        tells_extension(path, r),
{
    if !starts_doubly(path) {
        let sys = choose|sys: System| r == #[trigger] extension_read(path, sys);
        if names_file(path) {
            lemma_names_file(path, sys);
        }
        if dotted(path) {
            lemma_dotted(path, sys);
        }
        if undotted(path) {
            lemma_undotted(path, sys);
        }
    } else if names_file(path) {
        lemma_names_file(path, System::Unix);
    }
}

/// The file name of a path.
pub fn file_name(path: &str) -> (r: Option<String>)
    ensures
        tells_name(path@, opt_view(r)),
{
    proof {
        if names_file(path@) {
            lemma_names_file(path@, System::Unix);
            lemma_names_file(path@, System::Windows);
        }
    }
    std_file_name(path)
}

/// The file name of a path, or else `other`.
pub fn file_name_or(path: &str, other: &str) -> (r: String)
    ensures
        tells_name_or(path@, other@, r@),
{
    let n = file_name(path);
    let ghost known = tells_name(path@, opt_view(n));
    match n {
        Some(n) => n,
        None => other.to_owned(),
    }
}

/// The file name of a path without its extension, or else `other`.
pub fn file_stem_or(path: &str, other: &str) -> (r: String)
    ensures
        tells_stem_or(path@, other@, r@),
{
    let n = file_stem(path);
    let ghost known = tells_stem(path@, opt_view(n));
    match n {
        Some(n) => n,
        None => other.to_owned(),
    }
}

/// The file name of a path without its extension.
pub fn file_stem(path: &str) -> (r: Option<String>)
    ensures
        tells_stem(path@, opt_view(r)),
{
    proof {
        if names_file(path@) {
            lemma_names_file(path@, System::Unix);
            lemma_names_file(path@, System::Windows);
        }
    }
    std_file_stem(path)
}

/// The extension of a path's file name.
pub fn extension(path: &str) -> (r: Option<String>)
    ensures
        tells_extension(path@, opt_view(r)),
{
    let r = std_extension(path);
    proof {
        lemma_tells_extension(path@, opt_view(r));
    }
    r
}

/// An extension in small letters; empty where there is none.
pub open spec fn format_text(ext: Option<Seq<char>>) -> Seq<char> {
    match ext {
        Some(e) => lower(e),
        None => Seq::empty(),
    }
}

/// An extension in small letters.
pub fn extension_format(ext: &Option<String>) -> (r: String)
    ensures
        r@ == format_text(opt_view(*ext)),
{
    match ext {
        Some(e) => ascii_lower(e.as_str()),
        None => String::new(),
    }
}

/// What is known of the extension of a path in small letters.
pub open spec fn tells_format(path: Seq<char>, r: Seq<char>) -> bool {
    exists|e: Option<Seq<char>>| #[trigger] tells_extension(path, e) && r == format_text(e)
}

/// The extension of a path's file name, in small letters.
pub fn format_of(path: &str) -> (r: String)
    ensures
        tells_format(path@, r@),
{
    let e = extension(path);
    let ghost known = tells_extension(path@, opt_view(e));
    extension_format(&e)
}

/// A path parted by slashes that ends in the extension: as it is where it does
/// already, whatever the case of its letters.
pub open spec fn with_extension(path: Seq<char>, ext: Seq<char>) -> Seq<char> {
    if fits(name_extension(last_name(path)), ext) {
        path
    } else {
        replaced_extension(path, ext)
    }
}

/// A path with its file's extension replaced, or with one added.
pub open spec fn replaced_extension(path: Seq<char>, ext: Seq<char>) -> Seq<char> {
    path.take(last_place(path, '/') + 1) + name_stem(last_name(path)) + seq!['.'] + ext
}

/// A path with the extension behind a dot at `k`: as it is where it was there,
/// whatever the case of its letters.
pub open spec fn dotted_with(path: Seq<char>, k: int, ext: Seq<char>) -> Seq<char> {
    if lower(path.skip(k + 1)) == lower(ext) {
        path
    } else {
        cut_and_dotted(path, k, ext)
    }
}

/// Whether every system gives the path an extension alike.
pub open spec fn takes_extension(path: Seq<char>) -> bool {
    names_file(path) && !dot_stem(last_name(path))
}

/// What is known of a path that was given an extension: the path itself where
/// its extension is the wanted one, and else with the extension replaced or
/// added. The two steps may, as far as is known, read the path by different
/// systems; where all read it alike, the result is known.
pub open spec fn tells_ensured(path: Seq<char>, ext: Seq<char>, r: Seq<char>) -> bool {
    &&& exists|e: Option<Seq<char>>| #[trigger]
        tells_extension(path, e) && (if fits(e, ext) {
            r == path
        } else {
            is_replaced(path, ext, r)
        })
    &&& takes_extension(path) ==> r == with_extension(path, ext)
    &&& dotted(path) && !dot_stem(tail(path)) && !starts_doubly(path) ==> r == dotted_with(
        path,
        dot_of(path),
        ext,
    )
    &&& dotted(path) && !dot_stem(tail(path)) ==> r == path || r == cut_and_dotted(
        path,
        dot_of(path),
        ext,
    )
    &&& undotted(path) && !starts_doubly(path) ==> r == path + seq!['.'] + ext
}

/// Whether an extension is the wanted one, whatever the case of its letters.
fn extension_fits(found: &Option<String>, ext: &str) -> (r: bool)
    ensures
        r == fits(opt_view(*found), ext@),
{
    match found {
        Some(e) => eq_ignore_case(e.as_str(), ext),
        None => false,
    }
}

/// A path that ends in the extension: as it is where it does already, whatever
/// the case of its letters.
pub fn ensure_extension(path: String, ext: &str) -> (r: String)
    requires
        !ext@.contains('/'),
        !ext@.contains('\\'),
        ext@.len() > 0,
    ensures
        tells_ensured(path@, ext@, r@),
{
    let found = extension(path.as_str());
    if extension_fits(&found, ext) {
        proof {
            lemma_tells_ensured(path@, ext@, opt_view(found), path@);
        }
        path
    } else {
        let to = std_with_extension(path.as_str(), ext);
        proof {
            lemma_tells_ensured(path@, ext@, opt_view(found), to@);
        }
        to
    }
}

#[verifier::spinoff_prover]
#[verifier::rlimit(40)]
proof fn lemma_tells_ensured(path: Seq<char>, ext: Seq<char>, e: Option<Seq<char>>, r: Seq<char>)
    requires
        tells_extension(path, e),
        if fits(e, ext) {
            r == path
        } else {
            is_replaced(path, ext, r)
        },
    ensures
        tells_ensured(path, ext, r),
{
    if names_file(path) {
        lemma_names_file(path, System::Unix);
    }
    if dotted(path) {
        lemma_dotted(path, System::Unix);
    }
    if !starts_doubly(path) && !fits(e, ext) {
        let sys = choose|sys: System| #[trigger] replaced_by(path, ext, sys, r);
        lemma_settled(path, sys);
        if dotted(path) {
            lemma_dotted(path, sys);
        }
        if undotted(path) {
            lemma_undotted(path, sys);
            let n = name_read(path, sys)->0;
            lemma_last_among(n, set!['.']);
            assert(name_stem(n) == n);
            assert(path.take(path.len() as int) =~= path);
        }
        if takes_extension(path) {
            lemma_names_file(path, sys);
            let n = last_name(path);
            let p = last_place(path, '/');
            lemma_last_among(path, set!['/']);
            lemma_last_among(n, set!['.']);
            assert(path.take(stem_end(path, n)) =~= path.take(p + 1) + name_stem(n));
        }
    }
}

/// Extensions that hold flat or foreign pictures.
pub open spec fn foreign_extension(e: Seq<char>) -> bool {
    ||| e == "png"@
    ||| e == "jpg"@
    ||| e == "jpeg"@
    ||| e == "bmp"@
    ||| e == "webp"@
    ||| e == "psd"@
    ||| e == "gif"@
    ||| e == "tga"@
}

/// Whether a file of this extension may be overwritten as a project. One
/// without an extension may not; an unknown extension may.
pub open spec fn native_extension(ext: Option<Seq<char>>) -> bool {
    match ext {
        Some(e) => !foreign_extension(lower(e)),
        None => false,
    }
}

/// Whether a path with this extension may be overwritten as a project.
pub fn extension_is_native(ext: &Option<String>) -> (r: bool)
    ensures
        r == native_extension(opt_view(*ext)),
{
    match ext {
        Some(e) => {
            let low = ascii_lower(e.as_str());
            let s = low.as_str();
            !(same_text(s, "png") || same_text(s, "jpg") || same_text(s, "jpeg") || same_text(
                s,
                "bmp",
            ) || same_text(s, "webp") || same_text(s, "psd") || same_text(s, "gif") || same_text(
                s,
                "tga",
            ))
        },
        None => false,
    }
}

/// What is known of whether a file may be overwritten as a project.
pub open spec fn tells_native(path: Seq<char>, r: bool) -> bool {
    exists|e: Option<Seq<char>>| #[trigger] tells_extension(path, e) && r == native_extension(e)
}

/// Whether saving may overwrite the file as a project, and not as a flat
/// picture.
pub fn path_is_native_project(path: &str) -> (r: bool)
    ensures
        tells_native(path@, r),
{
    let e = extension(path);
    let ghost known = tells_extension(path@, opt_view(e));
    extension_is_native(&e)
}

/// A path parted by slashes keeps its start and names a file when it was given
/// an extension.
pub proof fn lemma_with_extension(path: Seq<char>, ext: Seq<char>)
    requires
        names_file(path),
        ext.len() > 0,
        !ext.contains('/'),
        !ext.contains('.'),
        !ext.contains('\\'),
        !ext.contains(':'),
    ensures
        names_file(with_extension(path, ext)),
        with_extension(path, ext)[0] == path[0],
{
    lemma_replaced(path, ext);
}

#[verifier::spinoff_prover]
#[verifier::rlimit(40)]
proof fn lemma_replaced(path: Seq<char>, ext: Seq<char>)
    requires
        names_file(path),
        ext.len() > 0,
        !ext.contains('/'),
        !ext.contains('.'),
        !ext.contains('\\'),
        !ext.contains(':'),
    ensures
        names_file(replaced_extension(path, ext)),
        replaced_extension(path, ext)[0] == path[0],
{
    let slash = last_place(path, '/');
    lemma_last_among(path, set!['/']);
    let dir = path.take(slash + 1);
    let name = last_name(path);
    let stem = name_stem(name);
    let dot = last_place(name, '.');
    lemma_last_among(name, set!['.']);
    let r = replaced_extension(path, ext);
    let tail = stem + seq!['.'] + ext;
    assert(r =~= dir + tail);
    assert(stem.len() > 0);
    assert forall|j: int| 0 <= j < name.len() implies name[j] != '/' && name[j] != '\\' && name[j]
        != ':' by {
        assert(name[j] == path[slash + 1 + j]);
        assert(path.contains(path[slash + 1 + j]));
    }
    assert forall|j: int| 0 <= j < tail.len() implies tail[j] != '/' && tail[j] != '\\' && tail[j]
        != ':' by {
        if j < stem.len() {
            assert(tail[j] == name[j]);
        } else if j > stem.len() {
            assert(tail[j] == ext[j - stem.len() - 1]);
            assert(ext.contains(ext[j - stem.len() - 1]));
        }
    }
    assert(last_place(r, '/') == slash) by {
        lemma_last_among(r, set!['/']);
        if slash >= 0 {
            assert(r[slash] == path[slash]);
            assert forall|j: int| slash < j < r.len() implies r[j] != '/' by {
                assert(r[j] == tail[j - slash - 1]);
            }
            lemma_last_among_at(r, set!['/'], slash);
        } else {
            let k = last_place(r, '/');
            if k >= 0 {
                assert(r[k] == tail[k]);
            }
        }
    }
    assert(r.take(slash + 1) =~= dir);
    assert(last_name(r) =~= tail);
    assert(last_place(tail, '.') == stem.len()) by {
        assert(tail[stem.len() as int] == '.');
        assert forall|j: int| stem.len() < j < tail.len() implies tail[j] != '.' by {
            assert(tail[j] == ext[j - stem.len() - 1]);
            assert(ext.contains(ext[j - stem.len() - 1]));
        }
        lemma_last_among_at(tail, set!['.'], stem.len() as int);
    }
    assert(tail.skip(stem.len() as int + 1) =~= ext);
    assert(tail.take(stem.len() as int) =~= stem);
    assert(portable(r)) by {
        assert forall|j: int| 0 <= j < r.len() implies r[j] != '\\' && r[j] != ':' by {
            if j < dir.len() {
                assert(r[j] == path[j]);
                assert(path.contains(path[j]));
            } else {
                assert(r[j] == tail[j - dir.len()]);
            }
        }
        if r.len() >= 2 && r[0] == '/' && r[1] == '/' {
            if dir.len() < 2 {
                assert(r[1] == tail[1 - dir.len()]);
            }
        }
    }
    assert(tail.len() >= 3 || tail[1] == '.');
    assert(tail != seq!['.']);
    assert(tail != seq!['.', '.']) by {
        if tail.len() == 2 {
            assert(ext.len() > 0);
        }
    }
    assert(dir + stem + seq!['.'] + ext =~= r);
}

/// A path cut behind its stem, with an extension, has the same drive, and the
/// same names before its last.
#[verifier::spinoff_prover]
#[verifier::rlimit(40)]
proof fn lemma_given_body(path: Seq<char>, ext: Seq<char>, sys: System)
    requires
        name_read(path, sys) is Some,
        ends_in_name(path, sys),
    ensures
        ({
            let n = name_read(path, sys)->0;
            let s = body_of(path, sys);
            let r = cut_and_dotted(path, stem_end(path, n), ext);
            let m = name_stem(n) + seq!['.'] + ext;
            &&& r == path.take(path.len() - n.len()) + m
            &&& drive_len(r, sys) == drive_len(path, sys)
            &&& body_of(r, sys) == s.take(last_among(s, parting(sys)) + 1) + m
        }),
{
    let n = name_read(path, sys)->0;
    lemma_read_name(path, sys);
    lemma_last_among(n, set!['.']);
    lemma_stem_not_empty(n);
    let d = drive_len(path, sys);
    let s = body_of(path, sys);
    let k = last_among(s, parting(sys));
    let stem = name_stem(n);
    let m = stem + seq!['.'] + ext;
    let cut = path.len() - n.len();
    let r = cut_and_dotted(path, stem_end(path, n), ext);
    assert forall|j: int| 0 <= j < stem.len() implies stem[j] == path[cut + j] by {
        assert(n[j] == path[cut + j]);
    }
    assert(r =~= path.take(cut) + m);
    let e = stem_end(path, n);
    assert(e >= 1);
    assert(r[0] == path[0]);
    assert(drive_len(r, sys) == d) by {
        if e >= 2 {
            assert(r[1] == path[1]);
        } else {
            assert(r[1] == '.');
            if path.len() >= 2 {
                assert(cut == 0 && stem.len() == 1);
                assert(path[1] == n[1]);
                assert(last_place(n, '.') == 1);
            }
        }
    }
    assert(body_of(r, sys) =~= s.take(k + 1) + m);
}

proof fn lemma_dotted_name(stem: Seq<char>, ext: Seq<char>)
    requires
        stem.len() > 0,
        !ext.contains('.'),
    ensures
        name_extension(stem + seq!['.'] + ext) == Some(ext),
        name_stem(stem + seq!['.'] + ext) == stem,
{
    let m = stem + seq!['.'] + ext;
    assert(m[stem.len() as int] == '.');
    assert forall|j: int| stem.len() < j < m.len() implies !set!['.'].contains(m[j]) by {
        assert(m[j] == ext[j - stem.len() - 1]);
        assert(ext.contains(m[j]));
    }
    lemma_last_among_at(m, set!['.'], stem.len() as int);
    assert(m.skip(stem.len() as int + 1) =~= ext);
    assert(m.take(stem.len() as int) =~= stem);
}

#[verifier::spinoff_prover]
#[verifier::rlimit(40)]
proof fn lemma_given_names(path: Seq<char>, ext: Seq<char>, sys: System)
    requires
        name_read(path, sys) is Some,
        ends_in_name(path, sys),
        ext.len() > 0,
        !ext.contains('/'),
        !ext.contains('\\'),
    ensures
        ({
            let n = name_read(path, sys)->0;
            let m = name_stem(n) + seq!['.'] + ext;
            forall|j: int| 0 <= j < m.len() ==> !parting(sys).contains(#[trigger] m[j])
        }),
{
    let n = name_read(path, sys)->0;
    lemma_read_name(path, sys);
    lemma_last_among(n, set!['.']);
    let s = body_of(path, sys);
    let k = last_among(s, parting(sys));
    lemma_last_among(s, parting(sys));
    let stem = name_stem(n);
    let m = stem + seq!['.'] + ext;
    assert forall|j: int| 0 <= j < m.len() implies !parting(sys).contains(m[j]) by {
        if j < stem.len() {
            assert(m[j] == n[j]);
            assert(n[j] == s[k + 1 + j]);
        } else if j > stem.len() {
            assert(m[j] == ext[j - stem.len() - 1]);
            assert(ext.contains(m[j]));
        }
    }
}

#[verifier::spinoff_prover]
#[verifier::rlimit(40)]
proof fn lemma_given(path: Seq<char>, ext: Seq<char>, sys: System)
    requires
        name_read(path, sys) is Some,
        ends_in_name(path, sys),
        ext.len() > 0,
        !ext.contains('/'),
        !ext.contains('.'),
        !ext.contains('\\'),
    ensures
        ({
            let n = name_read(path, sys)->0;
            let r = cut_and_dotted(path, stem_end(path, n), ext);
            let m = name_stem(n) + seq!['.'] + ext;
            &&& ends_in_name(r, sys)
            &&& name_read(r, sys) == Some(m)
            &&& name_extension(m) == Some(ext)
            &&& name_stem(m) == name_stem(n)
            &&& r.take(r.len() - m.len()) == path.take(path.len() - n.len())
        }),
{
    let n = name_read(path, sys)->0;
    lemma_read_name(path, sys);
    lemma_last_among(n, set!['.']);
    lemma_stem_not_empty(n);
    lemma_given_body(path, ext, sys);
    let s = body_of(path, sys);
    let k = last_among(s, parting(sys));
    lemma_last_among(s, parting(sys));
    let stem = name_stem(n);
    let m = stem + seq!['.'] + ext;
    let r = cut_and_dotted(path, stem_end(path, n), ext);
    let t = body_of(r, sys);
    lemma_given_names(path, ext, sys);
    assert(t.last() == ext.last());
    assert(ext.contains(ext.last()));
    assert(settled_end(t, sys) == t);
    assert forall|j: int| k < j < t.len() implies !parting(sys).contains(t[j]) by {
        assert(t[j] == m[j - k - 1]);
    }
    lemma_last_among_at(t, parting(sys), k);
    assert(t.skip(k + 1) =~= m);
    assert(m.len() >= 3);
    lemma_dotted_name(stem, ext);
    assert(r.take(r.len() - m.len()) =~= path.take(path.len() - n.len()));
}

/// A path that was given an extension has it, in the same folder and under the
/// same stem; where it had it, the path is as it was; and giving it again
/// changes nothing. This holds of each way of reading a path.
pub proof fn law_ensured_extension(path: Seq<char>, ext: Seq<char>, sys: System, r: Seq<char>)
    requires
        name_read(path, sys) is Some,
        !dot_stem(name_read(path, sys)->0) || fits(extension_read(path, sys), ext),
        ensured_by(path, ext, sys, r),
        ext.len() > 0,
        !ext.contains('/'),
        !ext.contains('.'),
        !ext.contains('\\'),
    ensures
        ({
            let n = name_read(path, sys)->0;
            let m = name_read(r, sys)->0;
            let from = settled(path, sys);
            let to = settled(r, sys);
            &&& name_read(r, sys) is Some
            &&& fits(extension_read(r, sys), ext)
            &&& stem_read(r, sys) == stem_read(path, sys)
            &&& to.take(to.len() - m.len()) == from.take(from.len() - n.len())
            &&& fits(extension_read(path, sys), ext) ==> r == path
            &&& ensured_by(r, ext, sys, r)
        }),
        forall|again: Seq<char>| #[trigger] ensured_by(r, ext, sys, again) ==> again == r,
{
    if !fits(extension_read(path, sys), ext) {
        lemma_settled(path, sys);
        lemma_settled(r, sys);
        lemma_given(settled(path, sys), ext, sys);
    }
}

} // verus!
