use beautiful_app::files::catalog::LegacyRecentEntry;
use beautiful_app::files::clipboard::{
    copy_extent, masked_pixels, Copied, PasteAnswer, PasteSource, SystemPicture,
};
use beautiful_app::files::format::ExportFormat;
use beautiful_app::files::jobs::{
    open_outcome, opens_workspace, save_outcome, CloseAnswer, OpenEvent, SaveEvent,
};
use beautiful_app::files::library::{LibraryStore, PendingCanvasMeta};
use beautiful_app::files::naming::safe_name;
use beautiful_app::files::state::{ClosePrompt, FileState, OpenIntent};
use beautiful_app::paths::parts::is_under;
use beautiful_app::paths::reading::System;

fn store() -> LibraryStore {
    LibraryStore {
        entries: Vec::new(),
        collections: Vec::new(),
        tags: Vec::new(),
        total_app_secs: 0,
        system: System::Unix,
    }
}

fn state() -> FileState {
    FileState::new(store())
}

fn meta(name: &str, collection: &str) -> PendingCanvasMeta {
    PendingCanvasMeta {
        name: name.to_string(),
        collection: collection.to_string(),
        tags: vec!["t".to_string()],
        nsfw: true,
    }
}

#[test]
fn the_latest_canvas_comes_first() {
    let mut s = store();
    s.push_library("a/one.psd", 100, Some(90), None, 0);
    s.push_library("a/two.txmh", 200, None, Some(meta("Two", "Set")), 7);
    assert_eq!(s.entries[0].path, "a/two.txmh");
    assert_eq!(s.entries[0].collection, "Set");
    assert_eq!(s.entries[0].time_spent_secs, 7);
    assert_eq!(s.entries[0].tags, vec!["t"]);
    assert!(s.entries[0].nsfw);
    assert_eq!(s.entries[1].format, "psd");
    assert_eq!((s.entries[1].modified, s.entries[1].last_opened), (90, 100));
    s.push_library("a/one.psd", 300, Some(250), None, 5);
    assert_eq!(s.entries.len(), 2);
    assert_eq!(s.entries[0].path, "a/one.psd");
    assert_eq!((s.entries[0].last_opened, s.entries[0].time_spent_secs), (300, 5));
}

#[test]
fn toggling_twice_changes_nothing() {
    let mut s = store();
    s.push_library("x.png", 1, None, None, 0);
    assert!(s.toggle_pin("x.png"));
    assert!(s.entries[0].pinned);
    s.toggle_pin("x.png");
    assert!(!s.entries[0].pinned);
    s.toggle_entry_nsfw("x.png");
    assert!(s.is_path_nsfw("x.png"));
    s.toggle_entry_nsfw("x.png");
    assert!(!s.is_path_nsfw("x.png"));
    s.toggle_entry_tag("x.png", "sky");
    assert_eq!(s.entries[0].tags, vec!["sky"]);
    s.toggle_entry_tag("x.png", "sky");
    assert!(s.entries[0].tags.is_empty());
    assert!(!s.toggle_pin("unknown.png"));
}

#[test]
fn collections_are_named_once() {
    let mut s = store();
    assert!(s.ensure_collection("Set"));
    assert!(!s.ensure_collection("Set"));
    s.push_library("x.png", 1, None, Some(meta("x", "Other")), 0);
    let names = s.collection_names();
    assert_eq!(names.len(), 4);
    assert_eq!(&names[2..], &["Set".to_string(), "Other".to_string()]);
    assert!(s.ensure_tag("t2", [1, 2, 3]));
    assert!(s.ensure_tag(" t2 ", [4, 5, 6]));
    assert!(!s.ensure_tag("  ", [4, 5, 6]));
    assert_eq!((s.tags.len(), s.tags[0].color), (1, [4, 5, 6]));
}

#[test]
fn old_lists_are_taken_over_once() {
    let mut s = store();
    let old = LegacyRecentEntry { path: "a.PNG".to_string(), name: "A".to_string(), modified: 5 };
    s.migrate_recent(vec![old]);
    assert_eq!((s.entries[0].format.as_str(), s.entries[0].last_opened), ("png", 5));
    let more = LegacyRecentEntry { path: "b.png".to_string(), name: "B".to_string(), modified: 6 };
    s.migrate_recent(vec![more]);
    assert_eq!(s.entries.len(), 1);
}

#[test]
fn missing_canvases_are_dropped() {
    let mut s = store();
    for p in ["/app/documents/a.txmh", "/home/b.txmh", "/home/c.txmh"] {
        s.push_library(p, 1, None, None, 0);
    }
    assert_eq!(s.recent_paths(&vec![true, false, true], 1), vec![(
        "/home/c.txmh".to_string(),
        s.entries[0].name.clone(),
    )]);
    assert!(s.retain_saved(&vec![true, false, true], Some("/app//documents/")));
    assert_eq!(s.entries.len(), 1);
    assert_eq!(s.entries[0].path, "/home/c.txmh");
    assert!(!s.retain_saved(&vec![true], None));
    assert!(is_under("/a/b/c", "/a/b", System::Unix));
    assert!(!is_under("/a/bc", "/a/b", System::Unix));
}

#[test]
fn time_is_kept() {
    let mut f = state();
    f.push_library("a.txmh", 1, None);
    f.path = Some("a.txmh".to_string());
    assert!(!f.add_time_spent(999));
    assert_eq!(f.library.entries[0].time_spent_secs, 0);
    assert!(!f.add_time_spent(2001));
    assert_eq!(f.library.entries[0].time_spent_secs, 3);
    assert!(f.add_time_spent(12_000));
    assert_eq!(f.library.entries[0].time_spent_secs, 15);
    assert!(!f.add_time_spent(-5));
    f.path = None;
    f.add_time_spent(4000);
    assert_eq!(f.orphan_time_secs, 4);
    f.push_library("b.txmh", 2, None);
    assert_eq!(f.library.entries[0].time_spent_secs, 4);
    assert!(!f.add_app_time(1500));
    assert_eq!(f.total_app_secs(), 1);
    assert!(f.add_app_time(13_500));
    assert_eq!(f.total_app_secs(), 15);
    assert!(f.flush_time());
    assert!(!f.flush_time());
}

#[test]
fn opening_one_document_at_a_time() {
    let mut f = state();
    assert!(f.start_open("a.png", OpenIntent::NewSheet, 1));
    assert!(f.is_opening());
    assert!(!f.open_path("b.png", 2));
    assert_eq!(f.status.as_deref(), Some("Already opening a document"));
    assert!(f.status_is_error);
    assert!(f.poll_open(OpenEvent::Reading, 3).is_none());
    let job = f.poll_open(OpenEvent::Loaded, 4).unwrap();
    assert_eq!(job.path, "a.png");
    assert!(matches!(job.intent, OpenIntent::NewSheet));
    assert!(!f.is_opening());
    assert!(f.start_open("c.png", OpenIntent::ReplaceActive, 5));
    assert!(f.poll_open(OpenEvent::Failed("bad".to_string()), 6).is_none());
    assert!(f.status.as_deref().unwrap().contains("bad"));
    assert!(!f.is_opening());
}

#[test]
fn outcomes_of_workers() {
    assert!(matches!(open_outcome(Some(Ok(()))), OpenEvent::Loaded));
    assert!(matches!(open_outcome(Some(Err("x".to_string()))), OpenEvent::Failed(_)));
    assert!(matches!(open_outcome(None), OpenEvent::Failed(_)));
    assert!(matches!(save_outcome(Some(Ok(())), Ok(10)), SaveEvent::Written));
    assert!(matches!(save_outcome(Some(Ok(())), Ok(0)), SaveEvent::Failed(_)));
    assert!(matches!(save_outcome(Some(Ok(())), Err("e".to_string())), SaveEvent::Failed(_)));
    assert!(matches!(save_outcome(None, Ok(3)), SaveEvent::Failed(_)));
    assert!(opens_workspace("A.TXMH"));
    assert!(!opens_workspace("a.psd"));
}

#[test]
fn saving_a_project_makes_it_clean() {
    let mut f = state();
    assert!(f.is_dirty(3));
    assert!(f.save_to("d/a.txmh", ExportFormat::Txmh, 3, 10));
    assert!(f.is_saving());
    assert!(!f.save_to("d/b.txmh", ExportFormat::Txmh, 3, 11));
    assert!(!f.poll_save(SaveEvent::Writing, 12, 100, None));
    assert!(f.poll_save(SaveEvent::Written, 13, 100, Some(99)));
    assert!(!f.is_dirty(3));
    assert_eq!(f.path.as_deref(), Some("d/a.txmh"));
    assert_eq!(f.library.entries[0].path, "d/a.txmh");
    assert!(f.can_native_save());
    assert_eq!(f.saved_edit_gen(), 3);
    assert_eq!(f.display_name(), "a");
}

#[test]
fn an_export_is_no_save() {
    let mut f = state();
    f.set_saved_edit_gen(1);
    f.close_after_save = Some(ClosePrompt::Quit);
    f.save_to("d/a.png", ExportFormat::Png, 2, 10);
    f.poll_save(SaveEvent::Written, 11, 100, None);
    assert!(f.is_dirty(2));
    assert!(f.path.is_none());
    assert_eq!(f.status.as_deref(), Some("Exported d/a.png (project still unsaved)"));
    assert!(f.show_save_as);
    assert!(f.close_after_save.is_some());
}

#[test]
fn a_failed_save_asks_again() {
    let mut f = state();
    f.close_after_save = Some(ClosePrompt::ToGallery);
    f.save_to("d/a.txmh", ExportFormat::Txmh, 2, 10);
    f.poll_save(SaveEvent::Failed("disk full".to_string()), 11, 100, None);
    assert_eq!(f.status.as_deref(), Some("Save failed: disk full"));
    assert!(matches!(f.close_prompt, Some(ClosePrompt::ToGallery)));
    f.save_to("d/a.txmh", ExportFormat::Txmh, 2, 12);
    f.poll_save(SaveEvent::Gone, 13, 100, None);
    assert_eq!(f.status.as_deref(), Some("Save failed: background writer stopped"));
}

#[test]
fn answers_to_closing() {
    let mut f = state();
    f.close_prompt = Some(ClosePrompt::Quit);
    f.answer_close(CloseAnswer::Cancel, 4);
    assert!(f.close_prompt.is_none() && f.leave_after_prompt.is_none());
    f.close_prompt = Some(ClosePrompt::Quit);
    f.answer_close(CloseAnswer::Discard, 4);
    assert!(matches!(f.leave_after_prompt, Some(ClosePrompt::Quit)));
    assert!(!f.is_dirty(4));
    f.close_prompt = Some(ClosePrompt::ToGallery);
    f.answer_close(CloseAnswer::Save, 5);
    assert!(matches!(f.close_after_save, Some(ClosePrompt::ToGallery)));
    assert!(f.show_save_as);
    assert!(!f.take_want_save());
    f.show_save_as = false;
    assert!(f.take_want_save());
    assert!(!f.take_want_save());
}

#[test]
fn names_offered_for_a_save() {
    assert_eq!(safe_name("a<b>:c/d\\e|f?g*h\"i"), "a_b__c_d_e_f_g_h_i");
    let mut f = state();
    f.pending_meta = Some(meta("Мой холст", "  Лето/осень "));
    assert_eq!(f.suggested_save_name(), "Мой холст.txmh");
    assert_eq!(f.save_subfolder().as_deref(), Some("Лето_осень"));
    assert_eq!(f.suggested_save_dir(None), None);
    assert_eq!(
        f.suggested_save_dir(Some("/root".to_string())),
        Some(std::path::Path::new("/root").join("Лето_осень").to_str().unwrap().to_string())
    );
    f.pending_meta = None;
    assert_eq!(f.suggested_save_dir(Some("/root".to_string())).as_deref(), Some("/root"));
    f.path = Some("x/old.psd".to_string());
    assert_eq!(f.suggested_save_name(), "old.txmh");
}

#[test]
fn picked_exports_get_their_extension() {
    let mut f = state();
    assert_eq!(f.export_picked("d/a".to_string(), ExportFormat::Png), None);
    let (path, format) = f.pending_raster_export.clone().unwrap();
    assert_eq!((path.as_str(), format), ("d/a.png", ExportFormat::Png));
    assert_eq!(
        f.export_picked("d/a".to_string(), ExportFormat::Bmp).as_deref(),
        Some("d/a.bmp")
    );
}

#[test]
fn clipboard_masks_and_extents() {
    let px = vec![10, 20, 30, 200, 40, 50, 60, 255];
    let m = masked_pixels(&px, &vec![255, 0]);
    assert_eq!(&m[0..4], &[10, 20, 30, 200]);
    assert_eq!(m[7], 0);
    assert_eq!(copy_extent(-5, 50, 0, 40, 30), Some((0, 30)));
    assert_eq!(copy_extent(10, 50, 0, 40, 300), Some((10, 40)));
    assert_eq!(copy_extent(60, 70, 0, 40, 300), None);
}

#[test]
fn the_last_copy_is_pasted() {
    let mut f = state();
    f.copy_floating(1, 1, vec![1, 2, 3, 4], 5, 6);
    f.copied(Copied::Floating, Ok(()), Some(10), 0);
    let nothing = SystemPicture::Nothing("empty".to_string());
    assert!(f.in_app_clipboard_is_current(Some(10), &nothing));
    match f.paste_source(Some(10), &nothing) {
        PasteSource::Selection(c) => assert_eq!((c.width, c.origin_x, c.rgba), (1, 5, vec![1, 2, 3, 4])),
        PasteSource::System => panic!("the selection is current"),
    }
    assert!(matches!(f.paste_source(Some(11), &nothing), PasteSource::System));
    assert!(f.selection_clipboard.is_none());
    assert!(!f.begin_paste(true, 1));
    assert_eq!(f.status.as_deref(), Some("Finish transform (Apply/Cancel) before paste"));
    assert!(f.begin_paste(false, 1));
    assert!(!f.pasted_picture(2, 2, PasteAnswer::Refused, 2));
    f.paste_failed("nothing there".to_string(), 3);
    assert!(f.status_is_error);
}

#[test]
fn new_documents_and_the_editor() {
    let mut f = state();
    f.open_new_dialog();
    assert!(f.show_new_dialog);
    f.create_from_dialog(" Имя ", "Set".to_string(), vec![], false, Ok((7, 3)), 1);
    assert_eq!(f.display_name(), "Имя");
    assert!(f.take_enter_editor());
    assert!(!f.take_enter_editor());
    let mut g = state();
    g.create_from_dialog("x", String::new(), vec![], false, Err("too large".to_string()), 1);
    assert!(g.status_is_error);
    g.set_untitled_name_hint("Черновик".to_string());
    assert_eq!(g.display_name(), "Черновик");
}

#[test]
fn one_canvas_under_two_spellings() {
    let mut s = store();
    s.push_library("/art/a.txmh", 5, None, None, 0);
    s.push_library("/art//./a.txmh", 9, None, None, 0);
    assert_eq!(s.entries.len(), 1);
    assert_eq!(s.entries[0].path, "/art/a.txmh");
    assert_eq!(s.entries[0].last_opened, 9);
    assert!(s.toggle_pin("/art/a.txmh/"));
    assert!(s.entries[0].pinned);
    s.push_library("./a.txmh", 10, None, None, 0);
    s.push_library("a.txmh", 11, None, None, 0);
    assert_eq!(s.entries.len(), 3);
}
