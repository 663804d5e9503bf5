//! Names, endings and folders of paths that are put together.
use vstd::prelude::*;
use crate::paths::{format_text, native_extension, with_extension};
use crate::paths::parts::{Part, lies_under, names_in, parts, same_place, start_of};
use crate::paths::reading::{
    System, body_of, last_name, last_place, lemma_last_among_at, name_extension, name_read,
    name_stem, parting, settled_end,
};
use crate::text::lower;

verus! {

/// A name made of a stem, a dot and an ending has that stem and that ending.
pub proof fn law_stem_and_extension(stem: Seq<char>, ext: Seq<char>)
    requires
        stem.len() > 0,
        !ext.contains('.'),
    ensures
        name_stem(stem + seq!['.'] + ext) == stem,
        name_extension(stem + seq!['.'] + ext) == Some(ext),
{
    let n = stem + seq!['.'] + ext;
    let k = stem.len() as int;
    assert forall|j: int| k < j < n.len() implies n[j] != '.' by {
        assert(n[j] == ext[j - k - 1]);
        assert(ext.contains(ext[j - k - 1]));
    }
    assert(n[k] == '.');
    lemma_last_among_at(n, set!['.'], k);
    assert(n.take(k) =~= stem);
    assert(n.skip(k + 1) =~= ext);
}

/// A name without a dot, or with one in front only, has no ending.
pub proof fn law_no_extension(name: Seq<char>)
    requires
        forall|i: int| 1 <= i < name.len() ==> name[i] != '.',
    ensures
        name_extension(name) is None,
        name_stem(name) == name,
{
    let k: int = if name.len() > 0 && name[0] == '.' {
        0
    } else {
        -1
    };
    lemma_last_among_at(name, set!['.'], k);
}

/// The name of a file in a folder is what stands behind the folder.
pub proof fn law_last_name(dir: Seq<char>, name: Seq<char>)
    requires
        !name.contains('/'),
    ensures
        last_name(dir + seq!['/'] + name) == name,
        last_name(name) == name,
{
    let p = dir + seq!['/'] + name;
    let k = dir.len() as int;
    assert forall|j: int| k < j < p.len() implies p[j] != '/' by {
        assert(p[j] == name[j - k - 1]);
        assert(name.contains(name[j - k - 1]));
    }
    assert(p[k] == '/');
    lemma_last_among_at(p, set!['/'], k);
    assert(p.skip(k + 1) =~= name);
    assert forall|j: int| 0 <= j < name.len() implies name[j] != '/' by {
        assert(name.contains(name[j]));
    }
    lemma_last_among_at(name, set!['/'], -1);
    assert(name.skip(0) =~= name);
}

/// Giving a file another ending changes its ending and nothing else; the ending
/// it has already, in any case, stays as it is; and a file without an ending gets
/// one.
pub proof fn law_with_extension(dir: Seq<char>, stem: Seq<char>, old: Seq<char>, new: Seq<char>)
    requires
        stem.len() > 0,
        !stem.contains('/'),
        !old.contains('/'),
        !old.contains('.'),
    ensures
        ({
            let head = dir + seq!['/'];
            let path = head + stem + seq!['.'] + old;
            &&& lower(old) != lower(new) ==> with_extension(path, new) == head + stem + seq!['.'] + new
            &&& lower(old) == lower(new) ==> with_extension(path, new) == path
            &&& !stem.contains('.') ==> with_extension(head + stem, new) == head + stem + seq!['.']
                + new
        }),
{
    let head = dir + seq!['/'];
    let name = stem + seq!['.'] + old;
    let path = head + stem + seq!['.'] + old;
    assert(path =~= dir + seq!['/'] + name);
    assert forall|i: int| 0 <= i < name.len() implies name[i] != '/' by {
        if i < stem.len() {
            assert(stem.contains(stem[i]));
        } else if i > stem.len() {
            assert(old.contains(old[i - stem.len() - 1]));
        }
    }
    assert(!name.contains('/'));
    law_last_name(dir, name);
    law_stem_and_extension(stem, old);
    lemma_head(dir, name);
    assert(path.take(dir.len() as int + 1) =~= head);
    if lower(old) != lower(new) {
        assert(with_extension(path, new) =~= head + stem + seq!['.'] + new);
    }
    if !stem.contains('.') {
        let plain = head + stem;
        assert(plain =~= dir + seq!['/'] + stem);
        law_last_name(dir, stem);
        assert forall|i: int| 1 <= i < stem.len() implies stem[i] != '.' by {
            assert(stem.contains(stem[i]));
        }
        law_no_extension(stem);
        lemma_head(dir, stem);
        assert(plain.take(dir.len() as int + 1) =~= head);
        assert(with_extension(plain, new) =~= head + stem + seq!['.'] + new);
    }
}

proof fn lemma_head(dir: Seq<char>, name: Seq<char>)
    requires
        !name.contains('/'),
    ensures
        last_place(dir + seq!['/'] + name, '/') == dir.len(),
{
    let p = dir + seq!['/'] + name;
    let k = dir.len() as int;
    assert forall|j: int| k < j < p.len() implies p[j] != '/' by {
        assert(p[j] == name[j - k - 1]);
        assert(name.contains(name[j - k - 1]));
    }
    assert(p[k] == '/');
    lemma_last_among_at(p, set!['/'], k);
}

/// The format of a file is its ending in small letters.
pub proof fn law_format_text(e: Seq<char>)
    ensures
        format_text(Some(e)) == lower(e),
        format_text(None).len() == 0,
{
}

/// Which endings are those of pictures of other programs, whatever their case;
/// a file with any other ending is the program's own, and one without is not.
pub proof fn law_native(e: Seq<char>)
    ensures
        lower(e) == "png"@ || lower(e) == "jpg"@ || lower(e) == "jpeg"@ || lower(e) == "bmp"@
            || lower(e) == "webp"@ || lower(e) == "psd"@ || lower(e) == "gif"@ || lower(e) == "tga"@
            <==> !native_extension(Some(e)),
        !native_extension(None),
{
}

/// A folder's child lies under it, at one place further down, and is another
/// place than the folder.
pub proof fn law_child(dir: Seq<char>, name: Seq<char>)
    requires
        dir.len() > 0,
        dir.last() != '/',
        name.len() > 0,
        name != seq!['.'],
        !name.contains('/'),
    ensures
        ({
            let path = dir + seq!['/'] + name;
            &&& parts(path, System::Unix) == parts(dir, System::Unix).push(Part::Name(name))
            &&& lies_under(path, dir, System::Unix)
            &&& !same_place(path, dir, System::Unix)
            &&& !lies_under(dir, path, System::Unix)
        }),
{
    let sys = System::Unix;
    let path = dir + seq!['/'] + name;
    let k = dir.len() as int;
    assert(body_of(path, sys) =~= path);
    assert(body_of(dir, sys) =~= dir);
    assert forall|j: int| k < j < path.len() implies path[j] != '/' by {
        assert(path[j] == name[j - k - 1]);
        assert(name.contains(name[j - k - 1]));
    }
    assert(path[k] == '/');
    lemma_last_among_at(path, parting(sys), k);
    assert(path.skip(k + 1) =~= name);
    assert(path.take(k) =~= dir);
    assert(names_in(path, sys) == names_in(dir, sys).push(Part::Name(name)));
    assert(path[0] == dir[0]);
    if dir.len() > 1 {
        assert(path[1] == dir[1]);
    }
    assert(start_of(path, sys) == start_of(dir, sys));
    reveal(parts);
    let (p, d) = (parts(path, sys), parts(dir, sys));
    let (a, b) = (start_of(dir, sys), names_in(dir, sys));
    assert(p == a + b.push(Part::Name(name)));
    assert(d == a + b);
    assert(a + b.push(Part::Name(name)) =~= (a + b).push(Part::Name(name)));
    assert(p.take(d.len() as int) =~= d);
}

/// A file in a folder has its name, whatever the folder.
pub proof fn law_name_in_folder(dir: Seq<char>, name: Seq<char>)
    requires
        name.len() > 0,
        name != seq!['.'],
        name != seq!['.', '.'],
        !name.contains('/'),
    ensures
        name_read(dir + seq!['/'] + name, System::Unix) == Some(name),
{
    let sys = System::Unix;
    let path = dir + seq!['/'] + name;
    let k = dir.len() as int;
    assert(body_of(path, sys) =~= path);
    assert forall|j: int| k < j < path.len() implies path[j] != '/' by {
        assert(path[j] == name[j - k - 1]);
        assert(name.contains(name[j - k - 1]));
    }
    assert(path[k] == '/');
    assert(path.last() != '/');
    if name.len() == 1 {
        assert(name =~= seq![name[0]]);
        assert(path.last() == name[0]);
    } else {
        assert(path[path.len() - 2] != '/');
    }
    assert(settled_end(path, sys) == path);
    lemma_last_among_at(path, parting(sys), k);
    assert(path.skip(k + 1) =~= name);
}

} // verus!
