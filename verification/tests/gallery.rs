use beautiful_app::files::library::{LibraryEntry, LibraryStore, COLLECTION_ALL, COLLECTION_RECENT};
use beautiful_app::gallery::blur::make_footer_blur;
use beautiful_app::gallery::cards::{tag_color, CardStep, GalleryState, MAX_PER_FRAME};
use beautiful_app::gallery::date::{civil_from_days, format_date, format_duration};
use beautiful_app::gallery::entries::{
    collection_entries, display_name_format, filter_entries, pinned_entries, query_matches,
    sort_entries, SearchIn, SortMode,
};
use beautiful_app::dock::geometry::{Point, Rect};
use beautiful_app::files::library::LibraryTag;
use beautiful_app::paths::parts::this_system;
use beautiful_app::gallery::hover::{
    card_title, hover_lines, nsfw_label, own_collections, pin_label, place_panel, tag_lines,
};

fn entry(name: &str, collection: &str, opened: u64) -> LibraryEntry {
    LibraryEntry {
        path: format!("/d/{name}.txmh"),
        name: name.to_string(),
        format: "txmh".to_string(),
        collection: collection.to_string(),
        time_spent_secs: opened % 7,
        modified: opened + 1,
        last_opened: opened,
        pinned: false,
        thumb_path: None,
        tags: Vec::new(),
        nsfw: false,
    }
}

fn library() -> LibraryStore {
    LibraryStore {
        entries: vec![entry("Банан", "A", 3), entry("апельсин", "B", 9), entry("Вишня", "A", 6)],
        collections: vec!["A".to_string()],
        tags: Vec::new(),
        total_app_secs: 0,
        system: this_system(),
    }
}

fn names(v: &[LibraryEntry]) -> Vec<&str> {
    v.iter().map(|e| e.name.as_str()).collect()
}

#[test]
fn dates_of_the_calendar() {
    assert_eq!(civil_from_days(0), (1970, 1, 1));
    assert_eq!(civil_from_days(-1), (1969, 12, 31));
    assert_eq!(civil_from_days(11_016), (2000, 2, 29));
    assert_eq!(civil_from_days(19_782), (2024, 2, 29));
    assert_eq!(civil_from_days(20_000), (2024, 10, 4));
    let mut last = civil_from_days(-800_000);
    for z in -799_999i64..800_000 {
        let d = civil_from_days(z);
        let next_day = d.0 == last.0 && d.1 == last.1 && d.2 == last.2 + 1;
        let next_month = d.0 == last.0 && d.1 == last.1 + 1 && d.2 == 1 && last.2 >= 28;
        let next_year = d.0 == last.0 + 1 && d == (d.0, 1, 1) && (last.1, last.2) == (12, 31);
        assert!(next_day || next_month || next_year);
        last = d;
    }
}

#[test]
fn times_in_words() {
    let day = 86_400u64;
    let now = 20_000 * day;
    assert_eq!(format_date(0, now), "—");
    assert_eq!(format_date(now - 5, now), "сегодня");
    assert_eq!(format_date(now - day, now), "вчера");
    assert_eq!(format_date(now - 29 * day, now), "29 дн. назад");
    assert_eq!(format_date(19_782 * day, now), "29 фев. 2024 г.");
    assert_eq!(format_duration(59), "59 с");
    assert_eq!(format_duration(61), "1 мин 1 с");
    assert_eq!(format_duration(3 * 3600 + 125), "3 ч 2 мин");
}

#[test]
fn sorting_cards() {
    let mut v = library().entries;
    sort_entries(&mut v, SortMode::LastOpened);
    assert_eq!(names(&v), vec!["апельсин", "Вишня", "Банан"]);
    sort_entries(&mut v, SortMode::Name);
    assert_eq!(names(&v), vec!["апельсин", "Банан", "Вишня"]);
    sort_entries(&mut v, SortMode::TimeSpent);
    assert_eq!(names(&v), vec!["Вишня", "Банан", "апельсин"]);
}

#[test]
fn collections_and_pins() {
    let mut l = library();
    assert_eq!(names(&collection_entries(&l, "A")), vec!["Банан", "Вишня"]);
    assert_eq!(collection_entries(&l, COLLECTION_ALL).len(), 3);
    assert_eq!(collection_entries(&l, COLLECTION_RECENT).len(), 3);
    l.entries[1].pinned = true;
    assert_eq!(names(&pinned_entries(&l)), vec!["апельсин"]);
    assert_eq!(display_name_format(&l.entries[0]), "Банан.txmh");
}

#[test]
fn searching() {
    let all = SearchIn { name: true, format: true, collection: true };
    let l = library();
    assert_eq!(names(&filter_entries(&l.entries, all, "БАН")), vec!["Банан"]);
    assert_eq!(filter_entries(&l.entries, all, "  ").len(), 3);
    assert_eq!(filter_entries(&l.entries, all, "txm").len(), 3);
    let only_names = SearchIn { name: true, format: false, collection: false };
    assert_eq!(filter_entries(&l.entries, only_names, "txm").len(), 0);
    assert!(query_matches(all, "b", "x", "y", "b"));
    assert!(!query_matches(only_names, "b", "x", "y", "b"));
}

#[test]
fn cards_are_made_a_few_at_a_time() {
    let mut g = GalleryState::default();
    g.begin_frame();
    for i in 0..MAX_PER_FRAME {
        let p = format!("/d/{i}.txmh");
        assert!(matches!(g.card_step(&p, 1, true), CardStep::Load));
        g.card_made(&p);
        assert!(matches!(g.card_step(&p, 1, true), CardStep::Keep));
    }
    assert!(matches!(g.card_step("/d/more.txmh", 1, true), CardStep::Later));
    g.begin_frame();
    assert!(matches!(g.card_step("/d/more.txmh", 1, true), CardStep::Load));
}

#[test]
fn creating_a_collection() {
    let mut l = library();
    let mut g = GalleryState::default();
    g.new_collection_buf = "  Новая ".to_string();
    assert!(g.create_collection(&mut l));
    assert!(l.collections.iter().any(|c| c == "Новая"));
    assert_eq!(tag_color(&l, "нет"), None);
    g.sort = SortMode::Name;
    assert_eq!(names(&g.grid_cards(&l)), vec!["апельсин", "Банан", "Вишня"]);
}

#[test]
fn a_plain_picture_has_a_plain_strip() {
    let px: Vec<u8> = (0..10 * 10).flat_map(|_| [80u8, 90, 100, 255]).collect();
    let strip = make_footer_blur(&px, 10, 10);
    assert_eq!(strip.len(), 160 * 64 * 4);
    assert!(strip.chunks(4).all(|p| p == &strip[0..4]));
}

#[test]
fn what_a_card_says() {
    let mut l = library();
    l.tags = vec![
        LibraryTag { name: "небо".to_string(), color: [1, 2, 3] },
        LibraryTag { name: "лес".to_string(), color: [4, 5, 6] },
    ];
    let mut e = entry("очень_длинное_имя_холста_для_карточки", "", 100);
    e.tags = vec!["лес".to_string()];
    e.time_spent_secs = 61;
    assert_eq!(card_title(&e), "очень_длинное_имя_холст…");
    assert_eq!(tag_lines(&e, &l), vec!["  небо", "✓ лес"]);
    let h = hover_lines(&e);
    assert_eq!(h.format, "Формат: .txmh");
    assert_eq!(h.collection, "Коллекция: Без коллекции");
    assert_eq!(h.tags, vec!["[лес]"]);
    assert_eq!(h.time, "Время в холсте: 1 мин 1 с");
    assert_eq!(pin_label(true), "★ Убрать из важных");
    assert_eq!(nsfw_label(false), "☑ Пометить как NSFW");
    let names = vec![COLLECTION_RECENT.to_string(), "A".to_string(), COLLECTION_ALL.to_string()];
    assert_eq!(own_collections(&names), vec!["A"]);
    assert_eq!(own_collections(&vec![String::new(), COLLECTION_ALL.to_string()]), vec![""]);
    assert_eq!(tag_color(&l, "лес"), Some([4, 5, 6]));
}

#[test]
fn the_panel_stands_beside_its_card() {
    let screen = Rect { left: 0, top: 0, right: 1_000_000, bottom: 800_000 };
    let card = Rect { left: 100_000, top: 50_000, right: 300_000, bottom: 350_000 };
    assert_eq!(place_panel(&card, &screen), Point { x: 312_000, y: 50_000 });
    let right = Rect { left: 700_000, top: 700_000, right: 900_000, bottom: 790_000 };
    assert_eq!(place_panel(&right, &screen), Point { x: 288_000, y: 580_000 });
    let narrow = Rect { left: 0, top: 0, right: 300_000, bottom: 800_000 };
    assert_eq!(place_panel(&card, &narrow).x, 8_000);
}
