//! The folders of the side bar and the folder that the browser starts in.
//!
//! Which folders there are is asked by the caller and handed in.
use vstd::prelude::*;
use crate::browser::state::{Place, SidePlace, place_views};
use crate::paths::{join, path_in};
use crate::paths::parts::{same_path, same_place};
use crate::paths::reading::System;
use crate::text::{chars_of, decimal, decimal_text, glue3, opt_view, slice_text, texts};

verus! {

/// The folders of a home that are offered, with the label of each. One may go
/// by another name on a system in Russian.
pub open spec fn known_folders() -> Seq<(Seq<char>, Seq<char>)> {
    seq![
        ("Desktop"@, "Desktop"@),
        ("Desktop"@, "Рабочий стол"@),
        ("Documents"@, "Documents"@),
        ("Documents"@, "Документы"@),
        ("Downloads"@, "Downloads"@),
        ("Downloads"@, "Загрузки"@),
        ("Music"@, "Music"@),
        ("Music"@, "Музыка"@),
        ("Pictures"@, "Pictures"@),
        ("Pictures"@, "Изображения"@),
        ("Videos"@, "Videos"@),
        ("Videos"@, "Видео"@),
    ]
}

pub open spec fn pair_texts(v: Seq<(&'static str, &'static str)>) -> Seq<(Seq<char>, Seq<char>)> {
    v.map_values(|p: (&'static str, &'static str)| (p.0@, p.1@))
}

/// The folders of a home that are offered, with the label of each.
pub fn folder_table() -> (r: Vec<(&'static str, &'static str)>)
    ensures
        pair_texts(r@) == known_folders(),
        r.len() == 12,
{
    let r = vec![
        ("Desktop", "Desktop"),
        ("Desktop", "Рабочий стол"),
        ("Documents", "Documents"),
        ("Documents", "Документы"),
        ("Downloads", "Downloads"),
        ("Downloads", "Загрузки"),
        ("Music", "Music"),
        ("Music", "Музыка"),
        ("Pictures", "Pictures"),
        ("Pictures", "Изображения"),
        ("Videos", "Videos"),
        ("Videos", "Видео"),
    ];
    assert(pair_texts(r@) =~= known_folders());
    r
}

/// The paths of the folders of a home that are offered.
pub fn system_candidates(home: &str) -> (r: Vec<String>)
    ensures
        r.len() == 12,
        forall|i: int|
            0 <= i < 12 ==> path_in(home@, known_folders()[i].1, (#[trigger] r@[i])@),
{
    let table = folder_table();
    let mut out: Vec<String> = Vec::new();
    let mut i: usize = 0;
    while i < 12
        invariant
            i <= 12,
            table.len() == 12,
            pair_texts(table@) == known_folders(),
            out.len() == i,
            forall|j: int|
                0 <= j < i ==> path_in(home@, known_folders()[j].1, (#[trigger] out@[j])@),
        decreases 12 - i,
    {
        assert(pair_texts(table@)[i as int].1 == table@[i as int].1@);
        out.push(join(home, table[i].1));
        i += 1;
    }
    out
}

/// Whether one of the places is at a path.
pub open spec fn place_at(places: Seq<Place>, path: Seq<char>, system: System) -> bool {
    exists|i: int| 0 <= i < places.len() && same_place((#[trigger] places[i]).path, path, system)
}

/// The places with the first `n` candidates added that are folders and not
/// there yet.
pub open spec fn places_with(
    places: Seq<Place>,
    labels: Seq<Seq<char>>,
    paths: Seq<Seq<char>>,
    is_dir: Seq<bool>,
    system: System,
    n: int,
) -> Seq<Place>
    decreases n,
{
    if n <= 0 {
        places
    } else {
        let before = places_with(places, labels, paths, is_dir, system, n - 1);
        if is_dir[n - 1] && !place_at(before, paths[n - 1], system) {
            before.push(Place { label: labels[n - 1], path: paths[n - 1] })
        } else {
            before
        }
    }
}

pub open spec fn known_labels() -> Seq<Seq<char>> {
    known_folders().map_values(|p: (Seq<char>, Seq<char>)| p.0)
}

fn has_place_at(places: &Vec<SidePlace>, path: &str, system: System) -> (r: bool)
    ensures
        r == place_at(place_views(places@), path@, system),
{
    let n: usize = places.len();
    let mut i: usize = 0;
    while i < n
        invariant
            i <= n,
            n == places.len(),
            forall|j: int|
                0 <= j < i ==> !same_place(
                    (#[trigger] place_views(places@)[j]).path,
                    path@,
                    system,
                ),
        decreases n - i,
    {
        if same_path(places[i].path.as_str(), path, system) {
            assert(same_place(place_views(places@)[i as int].path, path@, system));
            return true;
        }
        i += 1;
    }
    false
}

/// The places of a home: the home itself, then the offered folders that are
/// there, each once. `candidates` are their paths and `is_dir` tells of each
/// whether it is a folder.
pub fn build_system_places(
    home: Option<&str>,
    candidates: &Vec<String>,
    is_dir: &Vec<bool>,
    system: System,
) -> (r: Vec<SidePlace>)
    requires
        candidates.len() == 12,
        is_dir.len() == 12,
    ensures
        place_views(r@) == (match home {
            None => Seq::empty(),
            Some(h) => places_with(
                seq![Place { label: "Home"@, path: h@ }],
                known_labels(),
                texts(candidates@),
                is_dir@,
                system,
                12,
            ),
        }),
{
    let mut out: Vec<SidePlace> = Vec::new();
    match home {
        None => {
            assert(place_views(out@) =~= Seq::empty());
        },
        Some(h) => {
            let table = folder_table();
            let ghost start = seq![Place { label: "Home"@, path: h@ }];
            out.push(SidePlace { label: "Home".to_owned(), path: h.to_owned() });
            assert(place_views(out@) =~= start);
            let mut i: usize = 0;
            while i < 12
                invariant
                    i <= 12,
                    table.len() == 12,
                    candidates.len() == 12,
                    is_dir.len() == 12,
                    pair_texts(table@) == known_folders(),
                    place_views(out@) == places_with(
                        start,
                        known_labels(),
                        texts(candidates@),
                        is_dir@,
                        system,
                        i as int,
                    ),
                decreases 12 - i,
            {
                let ghost before = place_views(out@);
                assert(pair_texts(table@)[i as int].0 == table@[i as int].0@);
                if is_dir[i] && !has_place_at(&out, candidates[i].as_str(), system) {
                    let p = SidePlace {
                        label: table[i].0.to_owned(),
                        path: candidates[i].as_str().to_owned(),
                    };
                    out.push(p);
                    assert(place_views(out@) =~= before.push(p@));
                }
                i += 1;
            }
        },
    }
    out
}

/// The top folder of a drive.
pub open spec fn drive_root(letter: char) -> Seq<char> {
    seq![letter, ':', '\\']
}

/// The letter of the drive with that number, from C on.
pub open spec fn drive_letter(i: int) -> char {
    (67 + i) as char
}

/// The text without the backslashes it ends with.
pub open spec fn without_backslashes(s: Seq<char>) -> Seq<char>
    decreases s.len(),
{
    if s.len() > 0 && s.last() == '\\' {
        without_backslashes(s.drop_last())
    } else {
        s
    }
}

/// The label of a drive, on a system that has drives.
pub fn volume_label(root: &str, windows: bool) -> (r: Option<String>)
    ensures
        opt_view(r) == (if windows {
            Some("Disk ("@ + without_backslashes(root@) + ")"@)
        } else {
            None
        }),
{
    if !windows {
        return None;
    }
    let c = chars_of(root);
    let mut n: usize = c.len();
    assert(c@.subrange(0, n as int) =~= c@);
    while n > 0 && c[n - 1] == '\\'
        invariant
            n <= c.len(),
            without_backslashes(c@) == without_backslashes(c@.subrange(0, n as int)),
        decreases n,
    {
        assert(c@.subrange(0, n as int).drop_last() =~= c@.subrange(0, n - 1));
        n -= 1;
    }
    assert(n > 0 ==> c@.subrange(0, n as int).last() == c@[n - 1]);
    let name = slice_text(&c, 0, n);
    Some(glue3("Disk (", name.as_str(), ")"))
}

/// The drives among the first `n` that are there.
pub open spec fn drives(exists_at: Seq<bool>, n: int) -> Seq<Place>
    decreases n,
{
    if n <= 0 {
        Seq::empty()
    } else {
        let before = drives(exists_at, n - 1);
        if exists_at[n - 1] {
            before.push(
                Place {
                    label: "Disk ("@ + without_backslashes(drive_root(drive_letter(n - 1)))
                        + ")"@,
                    path: drive_root(drive_letter(n - 1)),
                },
            )
        } else {
            before
        }
    }
}

/// The top folders of the drives C to Z, of which the caller finds out whether
/// they are there.
pub fn drive_roots() -> (r: Vec<String>)
    ensures
        r.len() == 24,
        forall|i: int| 0 <= i < 24 ==> (#[trigger] r@[i])@ == drive_root(drive_letter(i)),
{
    let mut out: Vec<String> = Vec::new();
    let mut i: u8 = 0;
    while i < 24
        invariant
            i <= 24,
            out.len() == i,
            forall|j: int| 0 <= j < i ==> (#[trigger] out@[j])@ == drive_root(drive_letter(j)),
        decreases 24 - i,
    {
        let mut s = String::new();
        s.push((67 + i) as char);
        s.push(':');
        s.push('\\');
        assert(s@ =~= drive_root(drive_letter(i as int)));
        out.push(s);
        i += 1;
    }
    out
}

/// The drives that are there, on a system that has drives. `exists_at` tells
/// of each from C to Z whether it is.
pub fn build_volumes(windows: bool, exists_at: &Vec<bool>) -> (r: Vec<SidePlace>)
    requires
        exists_at.len() == 24,
    ensures
        place_views(r@) == (if windows {
            drives(exists_at@, 24)
        } else {
            Seq::empty()
        }),
{
    let mut out: Vec<SidePlace> = Vec::new();
    assert(place_views(out@) =~= Seq::empty());
    if !windows {
        return out;
    }
    let roots = drive_roots();
    let mut i: usize = 0;
    while i < 24
        invariant
            i <= 24,
            windows,
            exists_at.len() == 24,
            roots.len() == 24,
            forall|j: int|
                0 <= j < 24 ==> (#[trigger] roots@[j])@ == drive_root(drive_letter(j)),
            place_views(out@) == drives(exists_at@, i as int),
        decreases 24 - i,
    {
        let ghost before = place_views(out@);
        if exists_at[i] {
            let root = roots[i].as_str();
            if let Some(label) = volume_label(root, windows) {
                let p = SidePlace { label, path: root.to_owned() };
                out.push(p);
                assert(place_views(out@) =~= before.push(p@));
            }
        }
        i += 1;
    }
    out
}

/// The folder that the browser starts in where nothing else is known: the
/// pictures of a home, else the home, else the current folder, else `.`.
pub fn default_start_dir(
    pictures: Option<String>,
    pictures_is_dir: bool,
    home: Option<String>,
    home_is_dir: bool,
    current: Option<String>,
) -> (r: String)
    ensures
        r@ == fallback_folder(
            opt_view(pictures),
            pictures_is_dir,
            opt_view(home),
            home_is_dir,
            opt_view(current),
        ),
{
    if pictures_is_dir {
        if let Some(p) = pictures {
            return p;
        }
    }
    if home_is_dir {
        if let Some(h) = home {
            return h;
        }
    }
    match current {
        Some(c) => c,
        None => ".".to_owned(),
    }
}

pub open spec fn fallback_folder(
    pictures: Option<Seq<char>>,
    pictures_is_dir: bool,
    home: Option<Seq<char>>,
    home_is_dir: bool,
    current: Option<Seq<char>>,
) -> Seq<char> {
    if pictures_is_dir && pictures is Some {
        pictures->Some_0
    } else if home_is_dir && home is Some {
        home->Some_0
    } else if current is Some {
        current->Some_0
    } else {
        "."@
    }
}

/// A path that may be a folder.
pub struct Candidate {
    pub path: Option<String>,
    pub is_dir: bool,
}

impl Candidate {
    /// The path, where it is a folder.
    pub open spec fn folder(self) -> Option<Seq<char>> {
        if self.is_dir {
            opt_view(self.path)
        } else {
            None
        }
    }

    fn into_folder(self) -> (r: Option<String>)
        ensures
            opt_view(r) == self.folder(),
    {
        if self.is_dir {
            self.path
        } else {
            None
        }
    }
}

/// The folder to start in: the last one, else the one that was asked for, else
/// the one it is in, else the fallback.
pub open spec fn first_folder(
    last: Option<Seq<char>>,
    asked: Option<Seq<char>>,
    above: Option<Seq<char>>,
    fallback: Seq<char>,
) -> Seq<char> {
    if last is Some {
        last->Some_0
    } else if asked is Some {
        asked->Some_0
    } else if above is Some {
        above->Some_0
    } else {
        fallback
    }
}

/// The folder to start in. `above` is the folder that the one asked for is in.
pub fn start_folder(last: Candidate, asked: Candidate, above: Candidate, fallback: String) -> (r:
    String)
    ensures
        r@ == first_folder(last.folder(), asked.folder(), above.folder(), fallback@),
{
    if let Some(p) = last.into_folder() {
        return p;
    }
    if let Some(p) = asked.into_folder() {
        return p;
    }
    if let Some(p) = above.into_folder() {
        return p;
    }
    fallback
}

/// The names that a new folder may get: the plain one, then numbered ones.
pub open spec fn new_folder_text(i: int) -> Seq<char> {
    if i <= 1 {
        "New Folder"@
    } else {
        "New Folder ("@ + decimal(i as nat) + ")"@
    }
}

/// The name of the new folder with that number, from 1 on.
pub fn new_folder_name(i: u32) -> (r: String)
    ensures
        r@ == new_folder_text(i as int),
{
    if i <= 1 {
        "New Folder".to_owned()
    } else {
        let n = decimal_text(i as u64);
        glue3("New Folder (", n.as_str(), ")")
    }
}

/// The number of the next name to try after one that is taken; none once they
/// have run out.
pub fn next_folder_number(i: u32) -> (r: Option<u32>)
    requires
        i >= 1,
    ensures
        r == (if i < 998 {
            Some((i + 1) as u32)
        } else {
            None
        }),
{
    if i < 998 {
        Some(i + 1)
    } else {
        None
    }
}

} // verus!
