//! In which order the browser does what a frame asks for, and what it shows
//! beside its list.
use vstd::prelude::*;
use crate::browser::address::PathKind;
use crate::browser::going_laws::law_files_among;
use crate::browser::open::is_offered;
use crate::browser::select::files_among;
use crate::browser::state::Browser;
use crate::browser::view::{
    AddressInput, FrameEvents, OneFolder, Step, choice_steps, file_steps, gathered,
    path_format_line, recent_block, step_if, steps_of, window_steps,
};
use crate::files::format::ExportFormat;
use crate::lists::lemma_cat_contains;
use crate::paths::parts::{all_parts, has_place, parts};
use crate::paths::reading::System;
use crate::text::{lower, trimmed};

verus! {

/// The place of a step among the others of a frame.
pub open spec fn turn_of(s: Step) -> int {
    match s {
        Step::DropSection => 0,
        Step::Close => 1,
        Step::FilterChanged => 2,
        Step::Back => 3,
        Step::Forward => 4,
        Step::Up => 5,
        Step::Refresh => 6,
        Step::AddBookmark => 7,
        Step::NewFolder => 8,
        Step::Delete => 9,
        Step::RemoveBookmark => 10,
        Step::OpenGallery => 11,
        Step::GoPlace => 12,
        Step::GoAddress => 13,
        Step::OpenAddressFile => 14,
        Step::Select => 15,
        Step::Activate => 16,
        Step::Confirm => 17,
    }
}

/// Whether a frame asks for a step.
pub open spec fn asks(e: FrameEvents, s: Step) -> bool {
    match s {
        Step::DropSection => e.drop_section is Some,
        Step::Close => e.closed || e.cancel,
        Step::FilterChanged => e.filter_changed,
        Step::Back => e.go_back,
        Step::Forward => e.go_forward,
        Step::Up => e.go_up,
        Step::Refresh => e.refresh,
        Step::AddBookmark => e.add_bookmark,
        Step::NewFolder => e.new_folder,
        Step::Delete => e.delete,
        Step::RemoveBookmark => e.remove_bookmark,
        Step::OpenGallery => e.open_gallery,
        Step::GoPlace => e.place,
        Step::GoAddress => e.address_folder,
        Step::OpenAddressFile => e.address_file,
        Step::Select => e.select,
        Step::Activate => e.activate,
        Step::Confirm => e.confirm,
    }
}

/// Whether steps are exactly those of the turns in a range that a frame asks
/// for, each once and in turn.
pub open spec fn done_in_turn(list: Seq<Step>, e: FrameEvents, lo: int, hi: int) -> bool {
    &&& forall|s: Step|
        (#[trigger] list.contains(s)) == (asks(e, s) && lo <= turn_of(s) < hi)
    &&& forall|i: int, j: int|
        0 <= i < j < list.len() ==> turn_of(#[trigger] list[i]) < turn_of(#[trigger] list[j])
}

proof fn lemma_one_step(e: FrameEvents, s: Step)
    ensures
        done_in_turn(step_if(asks(e, s), s), e, turn_of(s), turn_of(s) + 1),
{
    let list = step_if(asks(e, s), s);
    if asks(e, s) {
        assert(list[0] == s);
    }
    assert forall|t: Step| (#[trigger] list.contains(t)) == (asks(e, t) && turn_of(s) <= turn_of(t)
        < turn_of(s) + 1) by {
        if turn_of(t) == turn_of(s) {
            assert(t == s);
        }
    }
}

proof fn lemma_more_steps(a: Seq<Step>, b: Seq<Step>, e: FrameEvents, lo: int, mid: int, hi: int)
    requires
        lo <= mid <= hi,
        done_in_turn(a, e, lo, mid),
        done_in_turn(b, e, mid, hi),
    ensures
        done_in_turn(a + b, e, lo, hi),
{
    let r = a + b;
    assert forall|s: Step| (#[trigger] r.contains(s)) == (asks(e, s) && lo <= turn_of(s) < hi) by {
        lemma_cat_contains(a, b, s);
        assert(a.contains(s) == (asks(e, s) && lo <= turn_of(s) < mid));
        assert(b.contains(s) == (asks(e, s) && mid <= turn_of(s) < hi));
    }
    assert forall|i: int, j: int| 0 <= i < j < r.len() implies turn_of(#[trigger] r[i]) < turn_of(
        #[trigger] r[j],
    ) by {
        if i < a.len() && j >= a.len() {
            assert(a.contains(a[i]));
            assert(b.contains(b[j - a.len()]));
        }
    }
}

/// A frame does exactly what it asks for, each once: blocks and the window
/// first, then ways, then files and folders, then what was chosen.
#[verifier::rlimit(40)]
pub proof fn law_steps_of(e: FrameEvents)
    ensures
        done_in_turn(steps_of(e), e, 0, 18),
{
    lemma_one_step(e, Step::DropSection);
    lemma_one_step(e, Step::Close);
    lemma_one_step(e, Step::FilterChanged);
    lemma_one_step(e, Step::Back);
    lemma_one_step(e, Step::Forward);
    lemma_one_step(e, Step::Up);
    lemma_one_step(e, Step::Refresh);
    let w1 = step_if(e.drop_section is Some, Step::DropSection);
    let w2 = w1 + step_if(e.closed || e.cancel, Step::Close);
    let w3 = w2 + step_if(e.filter_changed, Step::FilterChanged);
    let w4 = w3 + step_if(e.go_back, Step::Back);
    let w5 = w4 + step_if(e.go_forward, Step::Forward);
    let w6 = w5 + step_if(e.go_up, Step::Up);
    lemma_more_steps(w1, step_if(e.closed || e.cancel, Step::Close), e, 0, 1, 2);
    lemma_more_steps(w2, step_if(e.filter_changed, Step::FilterChanged), e, 0, 2, 3);
    lemma_more_steps(w3, step_if(e.go_back, Step::Back), e, 0, 3, 4);
    lemma_more_steps(w4, step_if(e.go_forward, Step::Forward), e, 0, 4, 5);
    lemma_more_steps(w5, step_if(e.go_up, Step::Up), e, 0, 5, 6);
    lemma_more_steps(w6, step_if(e.refresh, Step::Refresh), e, 0, 6, 7);
    lemma_one_step(e, Step::AddBookmark);
    lemma_one_step(e, Step::NewFolder);
    lemma_one_step(e, Step::Delete);
    lemma_one_step(e, Step::RemoveBookmark);
    lemma_one_step(e, Step::OpenGallery);
    lemma_one_step(e, Step::GoPlace);
    let f1 = step_if(e.add_bookmark, Step::AddBookmark);
    let f2 = f1 + step_if(e.new_folder, Step::NewFolder);
    let f3 = f2 + step_if(e.delete, Step::Delete);
    let f4 = f3 + step_if(e.remove_bookmark, Step::RemoveBookmark);
    let f5 = f4 + step_if(e.open_gallery, Step::OpenGallery);
    lemma_more_steps(f1, step_if(e.new_folder, Step::NewFolder), e, 7, 8, 9);
    lemma_more_steps(f2, step_if(e.delete, Step::Delete), e, 7, 9, 10);
    lemma_more_steps(f3, step_if(e.remove_bookmark, Step::RemoveBookmark), e, 7, 10, 11);
    lemma_more_steps(f4, step_if(e.open_gallery, Step::OpenGallery), e, 7, 11, 12);
    lemma_more_steps(f5, step_if(e.place, Step::GoPlace), e, 7, 12, 13);
    lemma_one_step(e, Step::GoAddress);
    lemma_one_step(e, Step::OpenAddressFile);
    lemma_one_step(e, Step::Select);
    lemma_one_step(e, Step::Activate);
    lemma_one_step(e, Step::Confirm);
    let c1 = step_if(e.address_folder, Step::GoAddress);
    let c2 = c1 + step_if(e.address_file, Step::OpenAddressFile);
    let c3 = c2 + step_if(e.select, Step::Select);
    let c4 = c3 + step_if(e.activate, Step::Activate);
    lemma_more_steps(c1, step_if(e.address_file, Step::OpenAddressFile), e, 13, 14, 15);
    lemma_more_steps(c2, step_if(e.select, Step::Select), e, 13, 15, 16);
    lemma_more_steps(c3, step_if(e.activate, Step::Activate), e, 13, 16, 17);
    lemma_more_steps(c4, step_if(e.confirm, Step::Confirm), e, 13, 17, 18);
    lemma_more_steps(window_steps(e), file_steps(e), e, 0, 7, 13);
    lemma_more_steps(window_steps(e) + file_steps(e), choice_steps(e), e, 0, 13, 18);
}

/// The address bar shows where one is, unless it is being written in.
pub proof fn law_address_bar(b: Browser, i: AddressInput)
    ensures
        b.path_edit_focused ==> b.address_synced() == b,
        !b.path_edit_focused && b.in_gallery ==> b.address_synced().path_edit == "Gallery"@,
        !b.path_edit_focused && !b.in_gallery ==> b.address_synced().path_edit == b.cwd,
        b.address_synced().cwd == b.cwd,
        b.edited(i) == (b.path_edit_focused || i.gained_focus || i.has_focus),
{
}

/// The side bar marks the folder that is shown and those above it, and none
/// while the gallery is.
pub proof fn law_marks_of_the_side_bar(b: Browser, path: Seq<char>)
    ensures
        b.in_gallery ==> !b.is_here(path) && !b.is_within(path),
        !b.in_gallery ==> b.is_here(b.cwd) && b.is_within(b.cwd),
        b.is_here(path) ==> b.is_within(path),
{
    let p = parts(b.cwd, b.system);
    assert(p.take(p.len() as int) =~= p);
}

/// The preview shows what it was asked for, else the file selected last, else
/// what was selected last, else nothing.
pub proof fn law_shown_path(b: Browser, kinds: Seq<PathKind>)
    requires
        kinds.len() == b.selected.len(),
    ensures
        ({
            let files = files_among(b.selected, kinds);
            &&& b.detail.path is Some ==> b.shown_path(kinds) == b.detail.path
            &&& b.detail.path is None && files.len() > 0 ==> b.shown_path(kinds) == Some(files.last())
            &&& b.detail.path is None && files.len() == 0 && b.selected.len() > 0 ==> b.shown_path(
                kinds,
            ) == Some(b.selected.last())
            &&& b.detail.path is None && b.selected.len() == 0 ==> b.shown_path(kinds) is None
        }),
{
    law_files_among(b.selected, kinds);
}

/// A name follows the format that is chosen for saving.
pub proof fn law_reformatted(b: Browser, format: ExportFormat, stem: Seq<char>)
    ensures
        b.reformatted(format, stem).save_format == format,
        b.reformatted(format, stem).file_name == stem + "."@ + format.extension_text(),
{
}

/// Without a name one is offered that is plain, with the format's ending.
pub proof fn law_offered_for_nothing(ext: Seq<char>, name: Seq<char>)
    requires
        is_offered(Seq::empty(), ext, name),
    ensures
        name == "untitled"@ + "."@ + ext,
{
    assert(trimmed(Seq::empty()).len() == 0);
}

/// The menu shows the first twelve remembered folders; with none remembered, at
/// most ten folders of canvases, each once and only where it is there.
pub proof fn law_recent_block(remembered: Seq<Seq<char>>, canvases: Seq<OneFolder>, system: System)
    ensures
        recent_block(remembered, canvases, system).len() <= 12,
        0 < remembered.len() <= 12 ==> recent_block(remembered, canvases, system) == remembered,
        remembered.len() > 12 ==> recent_block(remembered, canvases, system) == remembered.take(12),
{
}

/// Folders are gathered in the order of their canvases: each that is there and
/// not gathered yet, up to ten.
pub proof fn law_gathered(list: Seq<OneFolder>, i: int, have: Seq<Seq<char>>, system: System)
    requires
        0 <= i <= list.len(),
        have.len() < 10,
    ensures
        ({
            let r = gathered(list, i, have, system);
            &&& have.is_prefix_of(r)
            &&& r.len() <= 10
            &&& forall|k: int|
                have.len() <= k < r.len() ==> exists|j: int|
                    i <= j < list.len() && (#[trigger] list[j]).is_dir && list[j].folder == Some(
                        #[trigger] r[k],
                    )
            &&& r.len() < 10 ==> forall|j: int|
                i <= j < list.len() && (#[trigger] list[j]).is_dir && list[j].folder is Some
                    ==> has_place(r, list[j].folder->0, system)
        }),
    decreases list.len() - i,
{
    let r = gathered(list, i, have, system);
    if i < list.len() {
        let c = list[i];
        let adds = c.is_dir && c.folder is Some && !has_place(have, c.folder->Some_0, system);
        let more = if adds {
            have.push(c.folder->Some_0)
        } else {
            have
        };
        assert(have =~= more.take(have.len() as int));
        if more.len() < 10 {
            law_gathered(list, i + 1, more, system);
            assert(more =~= r.take(more.len() as int));
            if r.len() < 10 {
                assert forall|j: int|
                    i <= j < list.len() && (#[trigger] list[j]).is_dir && list[j].folder is Some implies has_place(
                    r,
                    list[j].folder->0,
                    system,
                ) by {
                    if j == i {
                        lemma_prefix_has(more, r, c.folder->0, system, have, adds);
                    }
                }
            }
        }
        assert(have =~= r.take(have.len() as int));
        assert forall|k: int| have.len() <= k < r.len() implies exists|j: int|
            i <= j < list.len() && (#[trigger] list[j]).is_dir && list[j].folder == Some(
                #[trigger] r[k],
            ) by {
            if k < more.len() {
                assert(r[k] == more[k]);
                assert(list[i].is_dir && list[i].folder == Some(r[k]));
            } else {
                let j = choose|j: int|
                    i + 1 <= j < list.len() && (#[trigger] list[j]).is_dir && list[j].folder == Some(
                        r[k],
                    );
                assert(list[j].is_dir);
            }
        }
    } else {
        assert(have =~= r.take(have.len() as int));
    }
}

proof fn lemma_prefix_has(
    more: Seq<Seq<char>>,
    r: Seq<Seq<char>>,
    x: Seq<char>,
    system: System,
    have: Seq<Seq<char>>,
    adds: bool,
)
    requires
        more.is_prefix_of(r),
        adds ==> more == have.push(x),
        !adds ==> more == have && has_place(have, x, system),
    ensures
        has_place(r, x, system),
{
    let all = all_parts(r, system);
    assert(more =~= r.take(more.len() as int));
    if adds {
        assert(r[have.len() as int] == more[have.len() as int]);
        assert(all[have.len() as int] == parts(x, system));
    } else {
        let m = all_parts(have, system);
        let k = choose|k: int| 0 <= k < m.len() && m[k] == parts(x, system);
        assert(r[k] == more[k]);
        assert(all[k] == parts(x, system));
    }
}

/// The line of a format names it in small letters, or with a question mark.
pub proof fn law_path_format_line(ext: Seq<char>)
    ensures
        path_format_line(Some(ext)) == "Формат: ."@ + lower(ext),
        path_format_line(None) == "Формат: ."@ + "?"@,
{
}

} // verus!
