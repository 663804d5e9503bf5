use beautiful_app::filters::choice::{rgb, LevelsChannel, ToneChannel, TransferCurve};
use beautiful_app::filters::control::Control;
use beautiful_app::filters::cover::{
    apply_progress, bake_selection_coverage, composite_filtered_preview, punch_selection_alpha,
    sampled_coverage, stack_outline_expand, Selection,
};
use beautiful_app::filters::eyedrop::kinds_in;
use beautiful_app::filters::key::{prefix_keys, stack_key, StackEntry};
use beautiful_app::filters::kind::{all_kinds, categories, StudioFilterKind, StudioVisibility};
use beautiful_app::filters::params::FilterParams;
use beautiful_app::filters::pixels::{downscale_cov, preview_lod_factor};
use beautiful_app::filters::presets::{builtin_filter_presets, FilterPreset};
use beautiful_app::filters::range::{
    expand_range, expand_u32_range, fit_range, fit_u32_range, SliderSpan,
};
use beautiful_app::filters::render::{
    apply_targets, composition_order, hydrate_overlay_image, overlays_to_read, primary_target,
    render_steps,
};
use beautiful_app::filters::setting::{ControlValue, OverlayPicture};
use beautiful_app::filters::studio::{BasePlate, FilterStudioState, PreviewJob};
use beautiful_app::filters::tone::{
    choose_hsl, hsl_presets, reset_all, reset_channel, set_levels, show_tab, toggle_colorize,
};
use beautiful_app::filters::window::{chip_label, CloseAnswer};

fn entry(kind: StudioFilterKind) -> StackEntry {
    StackEntry { params: FilterParams::defaults(kind), advanced_open: false }
}

fn plate() -> BasePlate {
    BasePlate { original: vec![9; 16], context: vec![7; 16], cover: None, pixels: 4 }
}

#[test]
fn every_kind_has_its_defaults() {
    let all = all_kinds();
    assert_eq!(all.len(), 46);
    let mut numbers: Vec<i128> = all.iter().map(|k| k.ordinal()).collect();
    numbers.sort();
    numbers.dedup();
    assert_eq!(numbers.len(), 46);
    for k in all.iter() {
        assert_eq!(FilterParams::defaults(*k).kind(), *k);
        assert!(!k.label().is_empty());
        assert!(categories().contains(&k.category()), "{}", k.category());
        let copy = FilterParams::defaults(*k).copy();
        assert_eq!(copy.value_list(), FilterParams::defaults(*k).value_list());
    }
}

#[test]
fn keys_tell_stacks_apart() {
    let a = vec![entry(StudioFilterKind::Gaussian), entry(StudioFilterKind::Invert)];
    let b = vec![entry(StudioFilterKind::Invert), entry(StudioFilterKind::Gaussian)];
    let all = StudioVisibility::AllLayers;
    assert_eq!(stack_key(all, &a), stack_key(all, &a));
    assert_ne!(stack_key(all, &a), stack_key(all, &b));
    assert_ne!(stack_key(all, &a), stack_key(StudioVisibility::ThisLayer, &a));
    let mut c = vec![entry(StudioFilterKind::Gaussian), entry(StudioFilterKind::Invert)];
    c[1].advanced_open = true;
    assert_eq!(prefix_keys(&a)[0], prefix_keys(&c)[0]);
    assert_ne!(prefix_keys(&a)[1], prefix_keys(&c)[1]);
}

#[test]
fn plates_are_reused() {
    let stack = vec![entry(StudioFilterKind::Gaussian), entry(StudioFilterKind::Sepia)];
    let keys = prefix_keys(&stack);
    let cache: Vec<(u64, Vec<u8>)> = keys.iter().map(|k| (*k, vec![0u8; 16])).collect();
    let steps = render_steps(&stack, &cache, 16);
    assert!(steps.iter().all(|s| s.reuse));
    assert_eq!(steps[1].key, keys[1]);
    assert!(render_steps(&stack, &cache, 20).iter().all(|s| !s.reuse));
    let changed = vec![entry(StudioFilterKind::Gaussian), entry(StudioFilterKind::Noise)];
    let steps = render_steps(&changed, &cache, 16);
    assert!(steps[0].reuse && !steps[1].reuse);
    assert!(render_steps(&stack, &Vec::new(), 16).iter().all(|s| !s.reuse));
}

#[test]
fn layers_that_are_worked_on() {
    let folders = vec![false, true, false];
    assert_eq!(apply_targets(&vec![2, 1, 7, 0], &folders), vec![2, 0]);
}

#[test]
fn overlays_are_read_once() {
    let mut e = entry(StudioFilterKind::ImageOverlay);
    if let FilterParams::ImageOverlay { path, .. } = &mut e.params {
        *path = Some("a.png".to_string());
    }
    let stack = vec![entry(StudioFilterKind::Invert), e, entry(StudioFilterKind::ImageOverlay)];
    assert_eq!(overlays_to_read(&stack), vec![1]);
    let mut stack = stack;
    let got = hydrate_overlay_image(stack.remove(1), 2, 1, vec![1, 2, 3, 4, 5, 6, 7, 8]);
    match &got.params {
        FilterParams::ImageOverlay { path, rgba, tex_w, tex_h, tile, .. } => {
            assert_eq!(path.as_deref(), Some("a.png"));
            assert_eq!(rgba.as_ref().unwrap().len(), 8);
            assert_eq!((*tex_w, *tex_h, *tile), (2, 1, true));
        }
        _ => panic!("an overlay"),
    }
    assert!(overlays_to_read(&vec![got]).is_empty());
}

#[test]
fn the_stack_is_edited() {
    let mut s = FilterStudioState::new(Vec::new());
    s.add_kind(StudioFilterKind::Gaussian);
    s.add_kind(StudioFilterKind::Invert);
    s.add_kind(StudioFilterKind::Sepia);
    assert_eq!(s.selected, Some(2));
    s.move_stack(2, -2);
    assert_eq!(s.stack[0].params.kind(), StudioFilterKind::Sepia);
    assert_eq!(s.selected, Some(0));
    s.move_stack(0, 2);
    assert_eq!(s.stack[2].params.kind(), StudioFilterKind::Sepia);
    s.move_stack(0, -1);
    assert_eq!(s.stack[0].params.kind(), StudioFilterKind::Gaussian);
    s.select_stack_at(1);
    s.remove_stack_at(0);
    assert_eq!((s.stack.len(), s.selected), (2, Some(0)));
    assert_eq!(s.count_kind(StudioFilterKind::Sepia), 1);
    assert!(s.has_pending_stack());
    assert_eq!(chip_label(StudioFilterKind::Invert, 0), StudioFilterKind::Invert.label());
    assert_eq!(
        chip_label(StudioFilterKind::Invert, 2),
        format!("✓ {} ×2", StudioFilterKind::Invert.label())
    );
}

#[test]
fn presets_are_kept_under_their_names() {
    let mut s = FilterStudioState::new(Vec::new());
    assert_eq!(s.stage_user_preset(), None);
    assert_eq!(s.shelf.status.as_deref(), Some("Enter a preset name"));
    s.shelf.name_buf = " Мой ".to_string();
    assert_eq!(s.stage_user_preset(), None);
    assert_eq!(s.shelf.status.as_deref(), Some("Stack is empty — nothing to save"));
    s.add_kind(StudioFilterKind::Sepia);
    let name = s.stage_user_preset().unwrap();
    assert_eq!(name, "Мой");
    s.preset_saved(&name, Ok(()));
    assert_eq!(s.shelf.status.as_deref(), Some("Saved «Мой»"));
    assert!(s.shelf.name_buf.is_empty());
    s.shelf.name_buf = "Мой".to_string();
    s.add_kind(StudioFilterKind::Invert);
    s.stage_user_preset();
    assert_eq!(s.shelf.user.len(), 1);
    assert_eq!(s.shelf.user[0].stack.len(), 2);
    s.preset_saved("Мой", Err("занято".to_string()));
    assert_eq!(s.shelf.status.as_deref(), Some("Save failed: занято"));
    let p = FilterPreset { name: "P".to_string(), stack: vec![FilterParams::Invert] };
    s.apply_preset(&p);
    assert_eq!((s.stack.len(), s.selected), (1, Some(0)));
    assert_eq!(s.shelf.status.as_deref(), Some("Loaded «P»"));
    assert_eq!(s.delete_user_preset(0).as_deref(), Some("Мой"));
    assert_eq!(s.delete_user_preset(0), None);
    assert!(builtin_filter_presets().iter().all(|p| !p.stack.is_empty()));
}

#[test]
fn previews_come_from_the_last_change() {
    let mut s = FilterStudioState::new(Vec::new());
    assert!(!s.request_open(false));
    s.set_apply_targets(vec![3]);
    assert!(s.request_open(false));
    s.rebuild_base(Some(plate()));
    s.add_kind(StudioFilterKind::Sepia);
    let (gen, key) = s.kick_preview_job().unwrap();
    assert!(s.kick_preview_job().is_none());
    s.add_kind(StudioFilterKind::Invert);
    let stale = PreviewJob { gen, plate_key: key, rgba: vec![1; 16], intermediates: Vec::new() };
    s.after_frame(0, Some(stale), false);
    assert_ne!(s.preview.rgba, Some(vec![1; 16]));
    s.preview.inflight = None;
    let (gen, key) = s.kick_preview_job().unwrap();
    let fresh = PreviewJob { gen, plate_key: key, rgba: vec![2; 16], intermediates: Vec::new() };
    s.after_frame(1000, Some(fresh), false);
    assert_eq!(s.preview.rgba, Some(vec![2; 16]));
}

#[test]
fn closing_asks_about_a_stack() {
    let mut s = FilterStudioState::new(Vec::new());
    s.set_apply_targets(vec![0]);
    s.request_open(false);
    assert!(s.is_open());
    s.add_kind(StudioFilterKind::Sepia);
    s.want_close();
    assert!(s.close_prompt && s.is_open());
    s.answer_close(CloseAnswer::Cancel);
    assert!(s.is_open() && !s.close_prompt);
    s.want_close();
    s.answer_close(CloseAnswer::Discard);
    assert!(!s.is_open() && s.stack.is_empty());
}

#[test]
fn applying_ends_with_the_window_closed() {
    let mut s = FilterStudioState::new(Vec::new());
    s.set_apply_targets(vec![1]);
    s.request_open(false);
    s.add_kind(StudioFilterKind::Sepia);
    assert!(s.begin_apply());
    assert!(s.is_applying());
    s.apply_ended(false);
    assert!(s.is_open() && !s.is_applying());
    assert!(s.begin_apply());
    s.apply_ended(true);
    assert!(!s.is_open());
}

#[test]
fn covers_and_selections() {
    let orig = vec![0, 0, 0, 255, 0, 0, 0, 255];
    let filt = vec![200, 100, 50, 255, 200, 100, 50, 255];
    assert_eq!(composite_filtered_preview(&orig, &filt, 2, &None), filt);
    let half = composite_filtered_preview(&orig, &filt, 2, &Some(vec![255, 0]));
    assert_eq!(&half[0..4], &filt[0..4]);
    assert_eq!(&half[4..8], &orig[4..8]);
    let p = punch_selection_alpha(filt.clone(), 2, &Some(vec![255, 0]));
    assert_eq!((p[3], p[7]), (255, 0));
    let cov = bake_selection_coverage(&orig, 2, 1, 0, 0, &Selection::Nothing);
    assert_eq!(cov, vec![255, 255]);
    let area = Selection::Area { x0: 1, y0: 0, x1: 2, y1: 1 };
    assert_eq!(bake_selection_coverage(&orig, 2, 1, 0, 0, &area).len(), 2);
    let m = bake_selection_coverage(&orig, 2, 1, 0, 0, &Selection::Mask(vec![3, 4]));
    assert_eq!(m, vec![3, 4]);
    assert_eq!(stack_outline_expand(&vec![entry(StudioFilterKind::Sepia)]), 0);
}

#[test]
fn progress_and_reduction() {
    assert_eq!(apply_progress(0, 0, 4, 1), 12);
    assert_eq!(apply_progress(0, 2, 4, 1), 52);
    assert_eq!(apply_progress(1, 0, 2, 2), 52);
    assert_eq!(preview_lod_factor(100, 100), 1);
    assert!(preview_lod_factor(40_000, 10) > 1);
    assert_eq!(downscale_cov(&vec![0, 255, 255, 255], 2, 2, 2), vec![191]);
    assert_eq!(downscale_cov(&vec![5, 6], 2, 1, 1), vec![5, 6]);
}

#[test]
fn ranges_of_sliders() {
    assert_eq!(fit_range(0, 100_000, SliderSpan::Normal), (0, 100_000));
    assert_eq!(fit_range(-180_000, 180_000, SliderSpan::Fine), (-90_000, 90_000));
    assert_eq!(fit_range(-180_000, 180_000, SliderSpan::Wide), (-360_000, 360_000));
    assert_eq!(fit_range(0, 360_000, SliderSpan::Fine), (0, 180_000));
    assert_eq!(fit_range(0, 255_000, SliderSpan::Fine), (0, 128_000));
    assert_eq!(expand_range((0, 10), 15), (0, 15));
    assert_eq!(expand_u32_range((2, 10), 1), (1, 10));
    assert_eq!(fit_u32_range(2, 64, SliderSpan::Fine), (2, 32));
    assert_eq!(fit_u32_range(2, 64, SliderSpan::Wide), (2, 256));
    assert_eq!(fit_u32_range(2, 2000, SliderSpan::Wide), (2, 4096));
    assert_eq!(SliderSpan::Normal.next().next().next(), SliderSpan::Normal);
}

#[test]
fn controls_of_filters() {
    let c = FilterParams::Gaussian { radius: 4000 }.controls(false);
    assert!(matches!(c[0], Control::Slider { value: 4000, .. }));
    assert!(FilterParams::Invert.controls(true).is_empty());
    for k in all_kinds() {
        let p = FilterParams::defaults(k);
        let plain = p.controls(false).len();
        assert!(p.controls(true).len() >= plain);
        for c in p.controls(true) {
            if let Control::Slider { value, lo, hi, .. } = c {
                assert!(lo <= value && value <= hi, "{:?}", k);
            }
        }
    }
}

#[test]
fn channels_are_kept_apart() {
    let p = FilterParams::defaults(StudioFilterKind::Levels);
    let c = LevelsChannel { black: 1000, mid: 400, white: 200_000 };
    let p = set_levels(p, ToneChannel::Green, c);
    let p = show_tab(p, ToneChannel::Red);
    match &p {
        FilterParams::Levels { black, green, red, edit, .. } => {
            assert_eq!((*black, green.mid, red.mid), (0, 400, 500));
            assert!(matches!(edit, ToneChannel::Red));
        }
        _ => panic!("levels"),
    }
    let p = reset_channel(p);
    assert!(matches!(&p, FilterParams::Levels { green, .. } if green.mid == 400));
    let p = reset_channel(show_tab(p, ToneChannel::Green));
    assert!(matches!(&p, FilterParams::Levels { green, .. } if green.mid == 500));
    let q = FilterParams::Curves {
        rgb: TransferCurve { points: vec![(0, 100)] },
        red: TransferCurve { points: vec![(0, 200)] },
        green: TransferCurve::identity(),
        blue: TransferCurve::identity(),
        edit: ToneChannel::Red,
    };
    let q = reset_channel(q);
    match &q {
        FilterParams::Curves { rgb, red, .. } => {
            assert_eq!(rgb.points, vec![(0, 100)]);
            assert_eq!(red.points, vec![(0, 0), (1000, 1000)]);
        }
        _ => panic!("curves"),
    }
    let q = reset_all(q);
    assert!(matches!(&q, FilterParams::Curves { rgb, .. } if rgb.points.len() == 2));
}

#[test]
fn colouring_brings_values_into_range() {
    let p = FilterParams::HueSaturation { hue: -30_000, saturation: -80_000, lightness: 7, colorize: false };
    let p = toggle_colorize(p);
    assert!(matches!(
        p,
        FilterParams::HueSaturation { hue: 330_000, saturation: 25_000, lightness: 7, colorize: true }
    ));
    let p = toggle_colorize(p);
    assert!(matches!(
        p,
        FilterParams::HueSaturation { hue: 330_000, saturation: 25_000, colorize: false, .. }
    ));
    let list = hsl_presets();
    assert_eq!(list.len(), 9);
    assert_eq!(list[7].name, "Cyanotype");
    let p = choose_hsl(p, &list[7]);
    assert!(matches!(
        p,
        FilterParams::HueSaturation { hue: 200_000, saturation: 45_000, lightness: -5_000, colorize: true }
    ));
}

#[test]
fn filtered_layers_are_laid_from_the_lowest_up() {
    assert_eq!(composition_order(&vec![5, 2, 9, 2]), vec![(2, 1), (2, 3), (5, 0), (9, 2)]);
    assert_eq!(primary_target(&vec![5, 2, 9], 9), Some(2));
    assert_eq!(primary_target(&vec![5, 2, 9], 7), Some(0));
    assert_eq!(primary_target(&vec![], 7), None);
}

#[test]
fn a_colour_is_picked_from_the_preview() {
    let mut s = FilterStudioState::new(Vec::new());
    s.set_apply_targets(vec![0]);
    s.request_open(false);
    s.rebuild_base(Some(plate()));
    s.add_kind(StudioFilterKind::ReplaceColor);
    s.preview.rgba = Some((0..16).collect());
    assert!(!s.pick_colour(1, 1, 2, 2));
    s.toggle_eyedrop();
    assert!(!s.pick_colour(2, 1, 2, 2));
    assert!(s.eyedrop_from);
    assert!(s.pick_colour(1, 1, 2, 2));
    assert!(!s.eyedrop_from);
    match &s.stack[0].params {
        FilterParams::ReplaceColor { from, .. } => assert_eq!((from.r, from.g, from.b), (12, 13, 14)),
        _ => panic!("a colour replacer"),
    }
    s.show_layers(StudioVisibility::ThisLayer);
    assert_eq!(s.visibility, StudioVisibility::ThisLayer);
    assert_eq!(kinds_in("Blur").len(), 4);
    let all: usize = categories().iter().map(|c| kinds_in(c).len()).sum();
    assert_eq!(all, 46);
}

#[test]
fn controls_take_what_they_are_set_to() {
    for kind in all_kinds() {
        for open in [false, true] {
            let list = FilterParams::defaults(kind).controls(open);
            for i in 0..list.len() {
                let p = FilterParams::defaults(kind);
                match list[i] {
                    Control::Slider { label, lo, .. } => {
                        let p = p.set_control(open, i, ControlValue::Slider(lo + 7));
                        assert!(matches!(p.controls(open)[i],
                            Control::Slider { label: l, value, .. } if l == label && value == lo + 7));
                    }
                    Control::Count { lo, .. } => {
                        let p = p.set_control(open, i, ControlValue::Count(lo + 1));
                        assert!(matches!(p.controls(open)[i],
                            Control::Count { value, .. } if value == lo + 1));
                    }
                    Control::Choice { label, .. } => {
                        let names = p.options(label);
                        assert!(names.is_empty() == (label == "Blend"));
                        for n in 0..names.len() {
                            let q = FilterParams::defaults(kind);
                            let q = q.set_control(open, i, ControlValue::Choice(n as i128));
                            assert!(matches!(q.controls(open)[i],
                                Control::Choice { chosen, .. } if chosen == n as i128));
                        }
                        let q = p.set_control(open, i, ControlValue::Choice(1));
                        assert!(matches!(q.controls(open)[i], Control::Choice { chosen: 1, .. }));
                    }
                    Control::Colour { .. } => {
                        let p = p.set_control(open, i, ControlValue::Colour(rgb(1, 2, 3)));
                        assert!(matches!(p.controls(open)[i],
                            Control::Colour { value, .. } if value == rgb(1, 2, 3)));
                    }
                    Control::Switch { on, .. } => {
                        let p = p.set_control(open, i, ControlValue::Switch(!on));
                        assert!(matches!(p.controls(open)[i],
                            Control::Switch { on: now, .. } if now != on));
                    }
                }
            }
        }
    }
}

#[test]
fn overlay_pictures_are_chosen_and_cleared() {
    let p = FilterParams::defaults(StudioFilterKind::ImageOverlay);
    let p = p.choose_image(None);
    assert!(matches!(&p, FilterParams::ImageOverlay { rgba: None, .. }));
    let picture = OverlayPicture { path: "a.png".to_string(), w: 1, h: 1, rgba: vec![1, 2, 3, 4] };
    let p = p.choose_image(Some(picture));
    assert!(matches!(&p, FilterParams::ImageOverlay { path: Some(p), tex_w: 1, .. } if p == "a.png"));
    let p = p.clear_image();
    assert!(matches!(&p, FilterParams::ImageOverlay { path: None, rgba: None, tex_w: 0, .. }));
}

#[test]
fn coverage_of_a_reduced_preview() {
    let area = Selection::Area { x0: 12_000, y0: 20_000, x1: 15_000, y1: 30_000 };
    assert_eq!(sampled_coverage(3, 2, 10, 20, 2, 6, &area), Some(vec![0, 255, 255, 0, 255, 255]));
    let mask = Selection::Mask((0..24).collect());
    assert_eq!(sampled_coverage(3, 2, 10, 20, 2, 6, &mask), Some(vec![0, 2, 4, 12, 14, 16]));
    assert_eq!(sampled_coverage(2, 1, 0, 0, 0, 6, &mask), Some(vec![0, 1]));
    assert_eq!(sampled_coverage(3, 2, 10, 20, 2, 6, &Selection::Nothing), None);
}

#[test]
fn coverage_reduced_by_more_than_its_sides() {
    assert_eq!(downscale_cov(&vec![10, 20, 30, 41], 2, 2, u32::MAX), vec![25]);
    assert_eq!(downscale_cov(&vec![10, 20, 30], 3, 1, 5000), vec![20]);
}
