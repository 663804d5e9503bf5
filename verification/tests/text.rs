use beautiful_app::lists::{choose_texts, join_texts, keep_first};
use beautiful_app::numbers::{
    divide_round_even, fit_side, fixed_text, round_to_float, single_floor_of, single_of, DOUBLE,
    SINGLE,
};
use beautiful_app::text::{
    ascii_lower, contains_text, decimal_text, eq_ignore_case, has_text, is_blank, padded_text,
    place_of, same_text, space_char, text_before, trim,
};

fn list(items: &[&str]) -> Vec<String> {
    items.iter().map(|s| s.to_string()).collect()
}

#[test]
fn white_space_is_that_of_the_standard_library() {
    for n in 0..=0x10ffffu32 {
        if let Some(c) = char::from_u32(n) {
            assert_eq!(space_char(c), c.is_whitespace(), "{n:#x}");
        }
    }
}

#[test]
fn trimming() {
    for s in ["", " ", "a", "  a b\t", "\u{3000}x\u{a0}", "\nимя \r"] {
        assert_eq!(trim(s), s.trim());
        assert_eq!(trim(trim(s).as_str()), s.trim());
    }
    assert!(is_blank(""));
    assert!(!is_blank("a"));
}

#[test]
fn letters_and_numerals() {
    for s in ["", "AbC-Я", "İstanbul", "ZZ99"] {
        assert_eq!(ascii_lower(s), s.to_ascii_lowercase());
    }
    assert!(eq_ignore_case("PnG", "pNg"));
    assert!(!eq_ignore_case("png", "pn"));
    for n in [0u64, 7, 10, 99, 100, 12_345, u64::MAX] {
        assert_eq!(decimal_text(n), n.to_string());
        assert_eq!(padded_text(n), format!("{n:02}"));
    }
}

#[test]
fn texts_in_lists() {
    let l = list(&["a", "b", "a"]);
    assert_eq!(place_of(&l, "a"), 0);
    assert_eq!(place_of(&l, "b"), 1);
    assert_eq!(place_of(&l, "c"), 3);
    assert!(has_text(&l, "b"));
    assert!(!has_text(&l, "B"));
    assert_eq!(choose_texts(&l, &vec![true, false, true]), list(&["a", "a"]));
    let mut m = list(&["a", "b", "a"]);
    keep_first(&mut m, 2);
    assert_eq!(m, list(&["a", "b"]));
    keep_first(&mut m, 5);
    assert_eq!(m, list(&["a", "b"]));
    assert_eq!(join_texts(&l, ", "), "a, b, a");
    assert_eq!(join_texts(&Vec::new(), ", "), "");
}

#[test]
fn containing_and_comparing() {
    for (hay, needle) in [("abcab", "cab"), ("abc", ""), ("", "a"), ("Привет", "ив"), ("aab", "ab")] {
        assert_eq!(contains_text(hay, needle), hay.contains(needle));
    }
    let words = ["", "a", "ab", "b", "ä", "я", "A", "aa"];
    for x in words {
        for y in words {
            assert_eq!(text_before(x, y), x < y, "{x} {y}");
            assert_eq!(same_text(x, y), x == y);
        }
    }
}

#[test]
fn halves_go_to_the_even_number() {
    assert_eq!(divide_round_even(5, 2), 2);
    assert_eq!(divide_round_even(7, 2), 4);
    assert_eq!(divide_round_even(8, 3), 3);
    assert_eq!(divide_round_even(0, 9), 0);
}

#[test]
fn rounding_as_floating_point_does() {
    let mut n: u64 = 1;
    for i in 0..4000u64 {
        n = n.wrapping_mul(6_364_136_223_846_793_005).wrapping_add(i);
        assert_eq!(round_to_float(n, DOUBLE), n as f64 as u128);
        assert_eq!(round_to_float(n >> 20, SINGLE), (n >> 20) as f32 as u128);
        let m = (n >> 32) as u32;
        assert_eq!(single_of(m), m as f32 as u32);
    }
    assert_eq!(single_of(u32::MAX), u32::MAX);
}

#[test]
fn fixed_numbers_are_written_as_the_formatter_writes_them() {
    let mut n: u64 = 99;
    for i in 0..3000u64 {
        n = n.wrapping_mul(6_364_136_223_846_793_005).wrapping_add(i);
        let v = n >> (n % 50);
        for unit in [1024u64, 1024 * 1024, 1024 * 1024 * 1024] {
            let x = v as f64 / unit as f64;
            assert_eq!(fixed_text(v, unit, 0), format!("{x:.0}"));
            assert_eq!(fixed_text(v, unit, 1), format!("{x:.1}"));
            assert_eq!(fixed_text(v, unit, 2), format!("{x:.2}"));
        }
    }
}

#[test]
fn sides_fit_as_single_precision_computes_them() {
    let mut n: u64 = 7;
    for i in 0..20_000u64 {
        n = n.wrapping_mul(6_364_136_223_846_793_005).wrapping_add(i);
        let w = (n >> 33) as u32 % 30_000 + 1;
        let h = (n >> 13) as u32 % 30_000 + 1;
        for most in [1280u32, 2048, 37] {
            let longest = w.max(h);
            let scale = (most as f32 / longest as f32).min(1.0);
            let tw = ((w as f32) * scale).round().max(1.0) as u32;
            let th = ((h as f32) * scale).round().max(1.0) as u32;
            assert_eq!(fit_side(w, longest, most), tw);
            assert_eq!(fit_side(h, longest, most), th);
        }
    }
    assert_eq!(fit_side(4000, 4000, 1280), 1280);
    assert_eq!(fit_side(1, 4_000_000, 1280), 1);
}

#[test]
fn quotients_are_cut_as_in_single_precision() {
    let mut n: u64 = 3;
    for i in 0..20_000u64 {
        n = n.wrapping_mul(6_364_136_223_846_793_005).wrapping_add(i);
        let d = (n >> 40) % 5000 + 1;
        let a = ((n >> 8) % (d * 20_000)) & 0xff_ffff;
        assert_eq!(single_floor_of(a, d), (a as f32 / d as f32) as u64);
    }
}
