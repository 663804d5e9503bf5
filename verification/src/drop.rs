//! Files dropped onto the window from outside.
//!
//! Only paths are handled here. What is at a path, and the clock in
//! milliseconds, are handed in.
use vstd::prelude::*;
use crate::paths::{format_of, tells_format};
use crate::text::{glue, is_blank, same_text, texts};

verus! {

/// How many paths are looked at.
pub const MAX_DROPPED: usize = 64;

/// How many files of a dropped folder are looked at.
pub const MAX_CHILDREN: usize = 128;

/// Milliseconds after which files that hovered are taken to have left.
pub const HOVER_TIMEOUT: u64 = 120;

/// Milliseconds between two messages about hovering files.
pub const STATUS_EVERY: u64 = 250;

/// The files that hover over the window.
pub struct FileDropManager {
    pub hovered: Vec<String>,
    pub last_hover_at: Option<u64>,
    pub last_status_at: Option<u64>,
}

/// The same as a value.
#[verifier::ext_equal]
pub struct Hover {
    pub hovered: Seq<Seq<char>>,
    pub last_hover_at: Option<u64>,
    pub last_status_at: Option<u64>,
}

impl View for FileDropManager {
    type V = Hover;

    open spec fn view(&self) -> Hover {
        Hover {
            hovered: texts(self.hovered@),
            last_hover_at: self.last_hover_at,
            last_status_at: self.last_status_at,
        }
    }
}

impl Default for FileDropManager {
    fn default() -> (r: FileDropManager)
        ensures
            r@ == (Hover { hovered: Seq::empty(), last_hover_at: None, last_status_at: None }),
    {
        let r = FileDropManager {
            hovered: Vec::new(),
            last_hover_at: None,
            last_status_at: None,
        };
        assert(texts(r.hovered@) =~= Seq::empty());
        r
    }
}

/// Why nothing of a drop can be opened.
#[derive(Debug)]
pub enum FileDropError {
    Empty,
    /// None of the files can be; the path is that of the first.
    Unsupported(String),
}

impl FileDropError {
    pub fn message(&self) -> (r: String)
        ensures
            r@ == (match self {
                FileDropError::Empty => "No files in drop"@,
                FileDropError::Unsupported(p) => "Unsupported file: "@ + p@,
            }),
    {
        match self {
            FileDropError::Empty => "No files in drop".to_owned(),
            FileDropError::Unsupported(p) => glue("Unsupported file: ", p.as_str()),
        }
    }
}

/// The extensions of files that can be opened.
pub open spec fn supported_format(format: Seq<char>) -> bool {
    ||| format == "txmh"@
    ||| format == "beautiful"@
    ||| format == "psd"@
    ||| format == "png"@
    ||| format == "jpg"@
    ||| format == "jpeg"@
    ||| format == "bmp"@
    ||| format == "webp"@
    ||| format == "gif"@
    ||| format == "tga"@
}

/// Whether files of that extension, in small letters, can be opened.
pub fn is_supported_format(format: &str) -> (r: bool)
    ensures
        r == supported_format(format@),
{
    same_text(format, "txmh") || same_text(format, "beautiful") || same_text(format, "psd")
        || same_text(format, "png") || same_text(format, "jpg") || same_text(format, "jpeg")
        || same_text(format, "bmp") || same_text(format, "webp") || same_text(format, "gif")
        || same_text(format, "tga")
}

/// Whether the file can be opened, by its extension.
pub fn is_supported_file(path: &str) -> (r: bool)
    ensures
        tells_opens(path@, r),
{
    let f = format_of(path);
    let ghost known = tells_format(path@, f@);
    is_supported_format(f.as_str())
}

/// What is at a dropped path.
pub enum DroppedKind {
    /// Nothing that can be read.
    Unreadable,
    File,
    /// A folder, with what is in it.
    Folder(Vec<FolderEntry>),
    /// Neither a file nor a folder.
    Other,
}

/// Something in a dropped folder.
pub struct FolderEntry {
    pub path: String,
    pub is_file: bool,
}

/// A dropped path and what is there.
pub struct DroppedPath {
    pub path: String,
    pub kind: DroppedKind,
}

/// The first items of a list, at most `n`.
pub open spec fn first<A>(list: Seq<A>, n: int) -> Seq<A> {
    if list.len() > n {
        list.take(n)
    } else {
        list
    }
}

/// What is known of whether a path's extension is that of a file that can be
/// opened.
pub open spec fn tells_opens(path: Seq<char>, r: bool) -> bool {
    exists|f: Seq<char>| #[trigger] tells_format(path, f) && r == supported_format(f)
}

/// Of each path whether it can be opened, as far as the answers go.
pub open spec fn told(paths: Seq<Seq<char>>, answers: Seq<bool>) -> Seq<Seq<char>>
    decreases paths.len(),
{
    if paths.len() == 0 {
        Seq::empty()
    } else {
        let before = told(paths.drop_last(), answers);
        if answers[paths.len() - 1] {
            before.push(paths.last())
        } else {
            before
        }
    }
}

/// Whether a list is what can be opened of some paths, by their extensions.
pub open spec fn sorted_out(paths: Seq<Seq<char>>, kept: Seq<Seq<char>>) -> bool {
    exists|answers: Seq<bool>| #[trigger]
        told(paths, answers) == kept && answers.len() == paths.len() && forall|i: int|
            0 <= i < paths.len() ==> tells_opens(paths[i], #[trigger] answers[i])
}

fn keep_openable(paths: &Vec<String>) -> (r: Vec<String>)
    ensures
        sorted_out(texts(paths@), texts(r@)),
{
    let n: usize = paths.len();
    let ghost all = texts(paths@);
    let mut out: Vec<String> = Vec::new();
    let ghost mut answers: Seq<bool> = Seq::empty();
    let mut i: usize = 0;
    assert(all.take(0) =~= Seq::empty());
    assert(texts(out@) =~= Seq::empty());
    while i < n
        invariant
            i <= n,
            n == paths.len(),
            all == texts(paths@),
            answers.len() == i,
            texts(out@) == told(all.take(i as int), answers),
            forall|j: int|
                0 <= j < i ==> tells_opens(all[j], #[trigger] answers[j]),
        decreases n - i,
    {
        let ok: bool = is_supported_file(paths[i].as_str());
        let ghost before = texts(out@);
        let ghost next = answers.push(ok);
        proof {
            let t = all.take(i + 1);
            assert(t.drop_last() =~= all.take(i as int));
            assert(t.last() == paths@[i as int]@);
            lemma_told_more(all.take(i as int), answers, next);
        }
        if ok {
            out.push(paths[i].as_str().to_owned());
            assert(texts(out@) =~= before.push(paths@[i as int]@));
        }
        proof {
            answers = next;
        }
        i += 1;
    }
    assert(all.take(n as int) =~= all);
    assert(told(all, answers) == texts(out@));
    out
}

proof fn lemma_told_more(paths: Seq<Seq<char>>, a: Seq<bool>, b: Seq<bool>)
    requires
        paths.len() <= a.len(),
        a.len() <= b.len(),
        forall|i: int| 0 <= i < a.len() ==> a[i] == b[i],
    ensures
        told(paths, a) == told(paths, b),
    decreases paths.len(),
{
    if paths.len() > 0 {
        lemma_told_more(paths.drop_last(), a, b);
    }
}

/// The paths of the files among the entries of a folder.
pub open spec fn files_in(entries: Seq<FolderEntry>) -> Seq<Seq<char>>
    decreases entries.len(),
{
    if entries.len() == 0 {
        Seq::empty()
    } else {
        let before = files_in(entries.drop_last());
        if entries.last().is_file {
            before.push(entries.last().path@)
        } else {
            before
        }
    }
}

/// The paths that a dropped path stands for: itself, or the files among the
/// first entries of a folder.
pub open spec fn stands_for(d: DroppedPath) -> Seq<Seq<char>> {
    if d.path@.len() == 0 {
        Seq::empty()
    } else {
        match d.kind {
            DroppedKind::File => seq![d.path@],
            DroppedKind::Folder(children) => files_in(first(children@, MAX_CHILDREN as int)),
            _ => Seq::empty(),
        }
    }
}

/// The paths that all dropped ones stand for, in order.
pub open spec fn all_stand_for(list: Seq<DroppedPath>) -> Seq<Seq<char>>
    decreases list.len(),
{
    if list.len() == 0 {
        Seq::empty()
    } else {
        all_stand_for(list.drop_last()) + stands_for(list.last())
    }
}

fn expand(d: &DroppedPath) -> (r: Vec<String>)
    ensures
        texts(r@) == stands_for(*d),
{
    let mut r: Vec<String> = Vec::new();
    if is_blank(d.path.as_str()) {
        assert(texts(r@) =~= Seq::empty());
        return r;
    }
    match &d.kind {
        DroppedKind::File => {
            r.push(d.path.as_str().to_owned());
            assert(texts(r@) =~= seq![d.path@]);
        },
        DroppedKind::Folder(children) => {
            let n: usize = if children.len() > MAX_CHILDREN {
                MAX_CHILDREN
            } else {
                children.len()
            };
            let ghost looked = first(children@, MAX_CHILDREN as int);
            let mut i: usize = 0;
            assert(looked.take(0) =~= Seq::empty());
            assert(texts(r@) =~= Seq::empty());
            while i < n
                invariant
                    i <= n,
                    n == looked.len(),
                    n <= children.len(),
                    forall|j: int| 0 <= j < n ==> looked[j] == children@[j],
                    texts(r@) == files_in(looked.take(i as int)),
                decreases n - i,
            {
                let ghost before = texts(r@);
                proof {
                    let t = looked.take(i + 1);
                    assert(t.drop_last() =~= looked.take(i as int));
                    assert(t.last() == children@[i as int]);
                }
                if children[i].is_file {
                    r.push(children[i].path.as_str().to_owned());
                    assert(texts(r@) =~= before.push(children@[i as int].path@));
                }
                i += 1;
            }
            assert(looked.take(n as int) =~= looked);
        },
        _ => {
            assert(texts(r@) =~= Seq::empty());
        },
    }
    r
}

impl FileDropManager {
    pub fn is_hovering(&self) -> (r: bool)
        ensures
            r == (self@.hovered.len() > 0),
    {
        assert(self@.hovered.len() == self.hovered.len());
        self.hovered.len() > 0
    }

    pub fn hovered_paths(&self) -> (r: &Vec<String>)
        ensures
            texts(r@) == self@.hovered,
    {
        &self.hovered
    }

    /// Takes note of the files that hover over the window in a frame, and of
    /// those that were dropped. Gives what can be opened of the latter, if there
    /// are any: nothing where none of them can.
    pub fn poll(&mut self, hovered: Vec<String>, dropped: Vec<DroppedPath>, now: u64) -> (r:
        Option<Vec<String>>)
        ensures
            ({
                let gone = old(self)@.last_hover_at matches Some(t) && now - t > HOVER_TIMEOUT;
                let seen = if hovered@.len() > 0 {
                    Hover {
                        hovered: first(texts(hovered@), MAX_DROPPED as int),
                        last_hover_at: Some(now),
                        ..old(self)@
                    }
                } else if gone {
                    Hover { hovered: Seq::empty(), last_hover_at: None, ..old(self)@ }
                } else {
                    old(self)@
                };
                if dropped@.len() == 0 {
                    r is None && final(self)@ == seen
                } else {
                    &&& r is Some
                    &&& sorted_out(
                        all_stand_for(first(dropped@, MAX_DROPPED as int)),
                        texts(r->0@),
                    )
                    &&& final(self)@ == (Hover {
                        hovered: Seq::empty(),
                        last_hover_at: None,
                        ..old(self)@
                    })
                }
            }),
    {
        let gone: bool = match self.last_hover_at {
            Some(t) => now > t && now - t > HOVER_TIMEOUT,
            None => false,
        };
        if hovered.len() > 0 {
            let mut list = hovered;
            let ghost all = texts(list@);
            assert(all.len() == list.len());
            if list.len() > MAX_DROPPED {
                list.truncate(MAX_DROPPED);
            }
            assert(texts(list@) =~= first(all, MAX_DROPPED as int));
            self.hovered = list;
            self.last_hover_at = Some(now);
        } else if gone {
            self.hovered = Vec::new();
            assert(texts(self.hovered@) =~= Seq::empty());
            self.last_hover_at = None;
        }
        if dropped.len() == 0 {
            return None;
        }
        self.hovered = Vec::new();
        assert(texts(self.hovered@) =~= Seq::empty());
        self.last_hover_at = None;
        match FileDropManager::validate_paths(&dropped) {
            Result::Ok(v) => Some(v),
            Result::Err(_) => {
                let none: Vec<String> = Vec::new();
                assert(texts(none@) =~= Seq::empty());
                Some(none)
            },
        }
    }

    /// Whether to say again that files hover: not too often.
    pub fn should_status_tick(&mut self, now: u64) -> (r: bool)
        ensures
            r == !(old(self)@.last_status_at matches Some(t) && now - t < STATUS_EVERY),
            final(self)@ == (if r {
                Hover { last_status_at: Some(now), ..old(self)@ }
            } else {
                old(self)@
            }),
    {
        let soon: bool = match self.last_status_at {
            Some(t) => now < t || now - t < STATUS_EVERY,
            None => false,
        };
        if soon {
            return false;
        }
        self.last_status_at = Some(now);
        true
    }

    /// The files of a drop that can be opened, folders being looked into. Only
    /// the first paths are looked at.
    pub fn validate_paths(list: &Vec<DroppedPath>) -> (r: Result<Vec<String>, FileDropError>)
        ensures
            match r {
                Result::Ok(v) => v@.len() > 0 && sorted_out(
                    all_stand_for(first(list@, MAX_DROPPED as int)),
                    texts(v@),
                ),
                Result::Err(FileDropError::Empty) => list@.len() == 0,
                Result::Err(FileDropError::Unsupported(p)) => list@.len() > 0 && p@
                    == list@[0].path@ && sorted_out(
                    all_stand_for(first(list@, MAX_DROPPED as int)),
                    Seq::empty(),
                ),
            },
    {
        if list.len() == 0 {
            return Result::Err(FileDropError::Empty);
        }
        let n: usize = if list.len() > MAX_DROPPED {
            MAX_DROPPED
        } else {
            list.len()
        };
        let ghost looked = first(list@, MAX_DROPPED as int);
        let mut all: Vec<String> = Vec::new();
        let mut i: usize = 0;
        assert(looked.take(0) =~= Seq::empty());
        assert(texts(all@) =~= Seq::empty());
        while i < n
            invariant
                i <= n,
                n == looked.len(),
                n <= list.len(),
                forall|j: int| 0 <= j < n ==> looked[j] == list@[j],
                texts(all@) == all_stand_for(looked.take(i as int)),
            decreases n - i,
        {
            let mut more = expand(&list[i]);
            let ghost before = texts(all@);
            let ghost added = texts(more@);
            proof {
                let t = looked.take(i + 1);
                assert(t.drop_last() =~= looked.take(i as int));
                assert(t.last() == list@[i as int]);
            }
            all.append(&mut more);
            assert(texts(all@) =~= before + added);
            i += 1;
        }
        assert(looked.take(n as int) =~= looked);
        let kept = keep_openable(&all);
        if kept.len() == 0 {
            assert(texts(kept@) =~= Seq::empty());
            Result::Err(FileDropError::Unsupported(list[0].path.as_str().to_owned()))
        } else {
            Result::Ok(kept)
        }
    }
}

/// The formats of the files that can be opened.
pub proof fn law_formats_that_open(format: Seq<char>)
    ensures
        supported_format("txmh"@) && supported_format("beautiful"@) && supported_format("psd"@),
        supported_format("png"@) && supported_format("jpg"@) && supported_format("jpeg"@),
        supported_format("bmp"@) && supported_format("webp"@) && supported_format("gif"@),
        supported_format("tga"@),
        supported_format(format) ==> 3 <= format.len() <= 9,
{
    reveal_strlit("txmh");
    reveal_strlit("beautiful");
    reveal_strlit("psd");
    reveal_strlit("png");
    reveal_strlit("jpg");
    reveal_strlit("jpeg");
    reveal_strlit("bmp");
    reveal_strlit("webp");
    reveal_strlit("gif");
    reveal_strlit("tga");
}

/// Of the dropped paths those are kept that open, each as often and in the order
/// as it was dropped, and no other.
pub proof fn law_kept_files_open(paths: Seq<Seq<char>>, kept: Seq<Seq<char>>)
    requires
        sorted_out(paths, kept),
    ensures
        kept.len() <= paths.len(),
        forall|x: Seq<char>| #[trigger] kept.contains(x) ==> paths.contains(x) && tells_opens(x, true),
        forall|x: Seq<char>| #[trigger]
            paths.contains(x) && !tells_opens(x, false) ==> kept.contains(x),
        (forall|i: int| 0 <= i < paths.len() ==> !tells_opens(#[trigger] paths[i], false)) ==> kept
            == paths,
        (forall|i: int| 0 <= i < paths.len() ==> !tells_opens(#[trigger] paths[i], true))
            ==> kept.len() == 0,
{
    let answers = choose|answers: Seq<bool>| #[trigger]
        told(paths, answers) == kept && answers.len() == paths.len() && forall|i: int|
            0 <= i < paths.len() ==> tells_opens(paths[i], #[trigger] answers[i]);
    lemma_told_which(paths, answers);
    assert forall|x: Seq<char>| #[trigger] paths.contains(x) && !tells_opens(x, false) implies kept.contains(
        x,
    ) by {
        let i = choose|i: int| 0 <= i < paths.len() && paths[i] == x;
        assert(tells_opens(paths[i], answers[i]));
    }
    if forall|i: int| 0 <= i < paths.len() ==> !tells_opens(#[trigger] paths[i], false) {
        assert forall|i: int| 0 <= i < paths.len() implies #[trigger] answers[i] by {
            assert(tells_opens(paths[i], answers[i]));
        }
    }
    if forall|i: int| 0 <= i < paths.len() ==> !tells_opens(#[trigger] paths[i], true) {
        assert forall|i: int| 0 <= i < paths.len() implies !#[trigger] answers[i] by {
            assert(tells_opens(paths[i], answers[i]));
        }
    }
}

proof fn lemma_told_which(paths: Seq<Seq<char>>, answers: Seq<bool>)
    requires
        answers.len() >= paths.len(),
        forall|i: int| 0 <= i < paths.len() ==> tells_opens(paths[i], #[trigger] answers[i]),
    ensures
        told(paths, answers).len() <= paths.len(),
        forall|x: Seq<char>| #[trigger]
            told(paths, answers).contains(x) ==> paths.contains(x) && tells_opens(x, true),
        forall|i: int|
            0 <= i < paths.len() && answers[i] ==> told(paths, answers).contains(#[trigger] paths[i]),
        (forall|i: int| 0 <= i < paths.len() ==> #[trigger] answers[i]) ==> told(paths, answers)
            == paths,
        (forall|i: int| 0 <= i < paths.len() ==> !#[trigger] answers[i]) ==> told(
            paths,
            answers,
        ).len() == 0,
    decreases paths.len(),
{
    if paths.len() > 0 {
        let t = paths.drop_last();
        let n = paths.len() - 1;
        assert forall|i: int| 0 <= i < t.len() implies tells_opens(t[i], #[trigger] answers[i]) by {
            assert(tells_opens(paths[i], answers[i]));
        }
        lemma_told_which(t, answers);
        let b = told(t, answers);
        let r = told(paths, answers);
        assert(tells_opens(paths[n], answers[n]));
        assert forall|x: Seq<char>| #[trigger] r.contains(x) implies paths.contains(x)
            && tells_opens(x, true) by {
            let k = choose|k: int| 0 <= k < r.len() && r[k] == x;
            if k < b.len() {
                assert(b[k] == x);
                assert(b.contains(x));
                let j = choose|j: int| 0 <= j < t.len() && t[j] == x;
                assert(paths[j] == x);
            } else {
                assert(paths[n] == x);
            }
        }
        assert forall|i: int| 0 <= i < paths.len() && answers[i] implies r.contains(
            #[trigger] paths[i],
        ) by {
            if i < n {
                assert(t[i] == paths[i]);
                assert(b.contains(t[i]));
                let k = choose|k: int| 0 <= k < b.len() && b[k] == t[i];
                assert(r[k] == paths[i]);
            } else {
                assert(r[r.len() - 1] == paths[i]);
            }
        }
        if forall|i: int| 0 <= i < paths.len() ==> #[trigger] answers[i] {
            assert(answers[n]);
            assert(r =~= paths);
        }
        if forall|i: int| 0 <= i < paths.len() ==> !#[trigger] answers[i] {
            assert(!answers[n]);
        }
    }
}

proof fn lemma_files_in(entries: Seq<FolderEntry>, k: int)
    requires
        0 <= k < entries.len(),
    ensures
        entries[k].is_file ==> files_in(entries).contains(entries[k].path@),
    decreases entries.len(),
{
    let t = entries.drop_last();
    let b = files_in(t);
    let r = files_in(entries);
    if k < t.len() {
        lemma_files_in(t, k);
        if entries[k].is_file {
            let j = choose|j: int| 0 <= j < b.len() && b[j] == entries[k].path@;
            assert(r[j] == entries[k].path@);
        }
    } else if entries[k].is_file {
        assert(r[r.len() - 1] == entries[k].path@);
    }
}

proof fn lemma_files_from(entries: Seq<FolderEntry>, j: int)
    requires
        0 <= j < files_in(entries).len(),
    ensures
        files_in(entries).len() <= entries.len(),
        exists|k: int|
            0 <= k < entries.len() && (#[trigger] entries[k]).is_file && entries[k].path@
                == files_in(entries)[j],
    decreases entries.len(),
{
    let t = entries.drop_last();
    let b = files_in(t);
    if b.len() > 0 {
        lemma_files_from(t, 0);
    }
    if j < b.len() {
        lemma_files_from(t, j);
        let k = choose|k: int| 0 <= k < t.len() && (#[trigger] t[k]).is_file && t[k].path@ == b[j];
        assert(entries[k].is_file && entries[k].path@ == b[j]);
    } else {
        assert(entries[entries.len() - 1].is_file);
    }
}

/// A dropped file stands for itself, a dropped folder for the files among the
/// first 128 things in it, and anything else for nothing.
pub proof fn law_stands_for(d: DroppedPath)
    ensures
        d.path@.len() == 0 || d.kind is Unreadable || d.kind is Other ==> stands_for(d).len() == 0,
        d.path@.len() > 0 && d.kind is File ==> stands_for(d) == seq![d.path@],
        d.path@.len() > 0 ==> (d.kind matches DroppedKind::Folder(children) ==> {
            &&& stands_for(d).len() <= 128
            &&& forall|k: int|
                0 <= k < children@.len() && k < 128 && (#[trigger] children@[k]).is_file
                    ==> stands_for(d).contains(children@[k].path@)
            &&& forall|j: int|
                0 <= j < stands_for(d).len() ==> exists|k: int|
                    0 <= k < children@.len() && k < 128 && (#[trigger] children@[k]).is_file
                        && children@[k].path@ == #[trigger] stands_for(d)[j]
        }),
{
    if d.path@.len() > 0 && d.kind is Folder {
        let all = d.kind->Folder_0@;
        let some = first(all, 128);
        let r = stands_for(d);
        assert(r == files_in(some));
        if r.len() > 0 {
            lemma_files_from(some, 0);
        }
        assert forall|k: int| 0 <= k < all.len() && k < 128 && (#[trigger] all[k]).is_file implies r.contains(
            all[k].path@,
        ) by {
            assert(some[k] == all[k]);
            lemma_files_in(some, k);
        }
        assert forall|j: int| 0 <= j < r.len() implies exists|k: int|
            0 <= k < all.len() && k < 128 && (#[trigger] all[k]).is_file && all[k].path@
                == #[trigger] r[j] by {
            lemma_files_from(some, j);
            let k = choose|k: int|
                0 <= k < some.len() && (#[trigger] some[k]).is_file && some[k].path@ == r[j];
            assert(all[k].is_file && all[k].path@ == r[j]);
        }
    }
}

/// What several dropped things stand for comes in the order in which they were
/// dropped.
pub proof fn law_all_stand_for(a: Seq<DroppedPath>, b: Seq<DroppedPath>)
    ensures
        all_stand_for(a + b) == all_stand_for(a) + all_stand_for(b),
        a.len() == 1 ==> all_stand_for(a) == stands_for(a[0]),
    decreases b.len(),
{
    if a.len() == 1 {
        assert(a.drop_last() =~= Seq::empty());
        assert(all_stand_for(a.drop_last()) =~= Seq::empty());
        assert(all_stand_for(a) =~= stands_for(a[0]));
    }
    if b.len() == 0 {
        assert(a + b =~= a);
        assert(all_stand_for(a + b) =~= all_stand_for(a) + all_stand_for(b));
    } else {
        law_all_stand_for(a, b.drop_last());
        assert((a + b).drop_last() =~= a + b.drop_last());
        assert(all_stand_for(a + b) =~= all_stand_for(a) + all_stand_for(b));
    }
}

} // verus!
