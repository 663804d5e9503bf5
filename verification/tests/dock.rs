use beautiful_app::dock::adjust::{
    inferred_work_area, panel_splitter, panel_splitter_h, snap_host_pos,
};
use beautiful_app::dock::column::{DockColumn, DockSide, PanelKind};
use beautiful_app::dock::geometry::{opposite_side, Point, Rect};
use beautiful_app::dock::layout::{DockLayout, DropTarget};
use beautiful_app::dock::preview::{edge_rails, Preview};
use beautiful_app::dock::stored::{describes_old_layout, is_old_form};

fn all_panels(d: &DockLayout) -> Vec<PanelKind> {
    let mut v: Vec<PanelKind> = Vec::new();
    for cols in [&d.left_columns, &d.right_columns, &d.top_rows, &d.bottom_rows] {
        for c in cols {
            v.extend(c.panels.iter().copied());
        }
    }
    for h in &d.float_hosts {
        v.extend(h.panels.iter().copied());
    }
    v.extend(d.hidden.iter().copied());
    v
}

fn each_once(d: &DockLayout) -> bool {
    let v = all_panels(d);
    PanelKind::all().iter().all(|k| v.iter().filter(|x| *x == k).count() == 1)
}

fn rect(left: i32, top: i32, right: i32, bottom: i32) -> Rect {
    Rect { left, top, right, bottom }
}

#[test]
fn the_first_arrangement() {
    let d = DockLayout::default();
    assert_eq!(d.left_columns.len(), 1);
    assert_eq!(
        d.left_columns[0].panels,
        vec![PanelKind::Color, PanelKind::Tools, PanelKind::Brush]
    );
    assert_eq!(d.left_columns[0].width, 270_000);
    assert_eq!(d.left_columns[0].weights, vec![2_200_000, 700_000, 1_100_000]);
    assert_eq!(d.right_columns[0].panels, vec![PanelKind::Navigator, PanelKind::Layers]);
    assert!(each_once(&d));
}

#[test]
fn panels_stay_complete_through_moves() {
    let mut d = DockLayout::default();
    d.insert(PanelKind::Brush, DockSide::Right, 0, 1);
    assert_eq!(
        d.right_columns[0].panels,
        vec![PanelKind::Navigator, PanelKind::Brush, PanelKind::Layers]
    );
    assert!(each_once(&d));
    d.insert_new_column(PanelKind::Layers, DockSide::Bottom, 0);
    assert_eq!(d.bottom_rows[0].panels, vec![PanelKind::Layers]);
    assert!(each_once(&d));
    d.undock_at(PanelKind::Tools, Point { x: 0, y: 0 }, Point { x: 300_000, y: 300_000 });
    assert_eq!(d.float_hosts.len(), 1);
    assert!(each_once(&d));
    let id = d.float_hosts[0].id;
    d.join_into_host(PanelKind::Color, id, 0, 0);
    assert_eq!(d.float_hosts[0].panels, vec![PanelKind::Color, PanelKind::Tools]);
    assert!(each_once(&d));
    d.join_new_column_in_host(PanelKind::Navigator, id, 1);
    assert!(each_once(&d));
    d.dock_host_as_strip(id, DockSide::Top, 0);
    assert!(d.float_hosts.is_empty());
    assert!(each_once(&d));
    d.move_column(DockSide::Bottom, 0, DockSide::Left, 0);
    assert!(each_once(&d));
}

#[test]
fn hiding_and_showing() {
    let mut d = DockLayout::default();
    assert!(d.is_visible(PanelKind::Brush));
    d.hide_panel(PanelKind::Brush);
    assert!(!d.is_visible(PanelKind::Brush));
    assert_eq!(d.hidden, vec![PanelKind::Brush]);
    d.show_panel(PanelKind::Brush);
    assert!(d.is_visible(PanelKind::Brush));
    assert!(each_once(&d));
    d.set_visible(PanelKind::Layers, false);
    assert!(!d.is_visible(PanelKind::Layers));
}

#[test]
fn splits_keep_their_sum() {
    let mut c = DockColumn::new(vec![PanelKind::Color, PanelKind::Tools], 270_000);
    let sum: i32 = c.weights.iter().sum();
    c.move_split(0, 300_000);
    assert_eq!(c.weights.iter().sum::<i32>(), sum);
    c.move_split(0, -1_000_000_000);
    assert_eq!(c.weights.iter().sum::<i32>(), sum);
    assert!(c.weights.iter().all(|w| *w > 0));
}

#[test]
fn splitters_follow_the_pointer() {
    let mut d = DockLayout::default();
    d.left_columns = vec![DockColumn::new(
        vec![PanelKind::all()[0], PanelKind::all()[1]],
        280_000,
    )];
    let left = DockSide::Left;
    assert!(panel_splitter(Some(30_000), left, 0, 0, &mut d, 300_000));
    assert_eq!(d.left_columns[0].weights, vec![1_200_000, 800_000]);
    assert!(panel_splitter_h(Some(-15_000), left, 0, 0, &mut d, 300_000));
    assert_eq!(d.left_columns[0].weights, vec![1_100_000, 900_000]);
    assert!(!panel_splitter(None, left, 0, 0, &mut d, 300_000));
    assert!(!panel_splitter(Some(10), left, 0, 0, &mut d, 300_000));
    assert!(!panel_splitter(Some(30_000), left, 0, 0, &mut d, 1000));
    assert_eq!(d.left_columns[0].weights, vec![1_100_000, 900_000]);
    assert!(panel_splitter(Some(30_000), left, 7, 0, &mut d, 300_000));
    assert_eq!(d.left_columns[0].weights, vec![1_100_000, 900_000]);
    assert!(panel_splitter(Some(100), left, 0, 0, &mut d, 300_000));
    assert_eq!(d.left_columns[0].weights, vec![1_100_667, 899_333]);
    d.resize_panel_split(left, 0, 0, 5_000_000);
    assert_eq!(d.left_columns[0].weights, vec![1_800_000, 200_000]);
}

#[test]
fn a_broken_arrangement_is_mended() {
    let mut d = DockLayout::default();
    d.left_columns[0].weights = vec![];
    d.left_columns[0].width = 5;
    d.right_columns.insert(0, DockColumn::new(Vec::new(), 100_000));
    d.next_float_id = 0;
    d.sanitize();
    assert!(each_once(&d));
    assert_eq!(d.right_columns.len(), 1);
    assert!(d.left_columns[0].width > 5);
    assert_eq!(d.next_float_id, 1);
    for c in d.left_columns.iter().chain(d.right_columns.iter()) {
        assert_eq!(c.panels.len(), c.weights.len());
    }
    let before = all_panels(&d);
    d.sanitize();
    assert_eq!(all_panels(&d), before);
}

#[test]
fn old_settings_are_understood() {
    let d = DockLayout::from_old(
        Some(vec![PanelKind::Layers]),
        None,
        Some(300_000),
        None,
        None,
    );
    assert_eq!(d.left_columns[0].panels, vec![PanelKind::Layers]);
    assert_eq!(d.left_columns[0].width, 300_000);
    assert_eq!(d.right_columns[0].panels, vec![PanelKind::Navigator, PanelKind::Layers]);
    assert_eq!(d.right_columns[0].width, 260_000);
    assert!(is_old_form(true, false));
    assert!(!is_old_form(true, true));
    assert!(describes_old_layout("{\"left\":[],\"right\":[]}"));
    assert!(!describes_old_layout("{\"left_columns\":[],\"left\":[]}"));
    assert!(!describes_old_layout("not json"));
    assert!(!describes_old_layout("[1]"));
}

#[test]
fn dragging_to_an_edge_docks() {
    let mut d = DockLayout::default();
    let content = rect(0, 0, 1_000_000, 800_000);
    d.begin_frame(content, Some(content), Some(content));
    d.start_drag(PanelKind::Brush, Point { x: 5000, y: 400_000 }, Some(DockSide::Left), Some(0), None);
    d.drag_to(PanelKind::Brush, Point { x: 995_000, y: 400_000 });
    assert!(matches!(d.drop_target, Some(DropTarget::NewColumn { side: DockSide::Right, .. })));
    assert!(matches!(d.drop_preview(), Some(Preview::Rail { row: false, .. })));
    assert!(d.finish_drag());
    assert!(d.drag.is_none());
    assert!(each_once(&d));
    assert_eq!(d.right_columns[0].panels, vec![PanelKind::Brush]);
}

#[test]
fn marks_in_a_detached_host() {
    let mut d = DockLayout::default();
    let cols = vec![(0usize, rect(0, 0, 100_000, 400_000)), (1, rect(100_000, 0, 200_000, 400_000))];
    let slots = vec![(0usize, 0usize, rect(0, 0, 100_000, 150_000))];
    d.drop_target = Some(DropTarget::JoinNewColumn { host_id: 3, column: 1 });
    assert_eq!(
        d.float_drop_preview(3, &cols, &slots),
        Some(Preview::Rail { area: rect(100_000, 0, 122_000, 400_000), row: false })
    );
    assert_eq!(d.float_drop_preview(4, &cols, &slots), None);
    d.drop_target = Some(DropTarget::JoinNewColumn { host_id: 3, column: 2 });
    assert_eq!(
        d.float_drop_preview(3, &cols, &slots),
        Some(Preview::Rail { area: rect(178_000, 0, 200_000, 400_000), row: false })
    );
    d.drop_target = Some(DropTarget::JoinInsert { host_id: 3, column: 0, index: 1 });
    assert_eq!(
        d.float_drop_preview(3, &cols, &slots),
        Some(Preview::Line { line: rect(6000, 147_000, 94_000, 153_000), strip: cols[0].1 })
    );
    d.drop_target = Some(DropTarget::JoinInsert { host_id: 3, column: 1, index: 0 });
    assert_eq!(
        d.float_drop_preview(3, &cols, &slots),
        Some(Preview::Line { line: rect(106_000, 5000, 194_000, 11_000), strip: cols[1].1 })
    );
}

#[test]
fn edges_and_sides() {
    let (l, r, t, b) = edge_rails(&rect(0, 0, 500_000, 400_000));
    assert_eq!(l, rect(0, 0, 36_000, 400_000));
    assert_eq!(r, rect(464_000, 0, 500_000, 400_000));
    assert_eq!(t, rect(0, 0, 500_000, 28_000));
    assert_eq!(b, rect(0, 372_000, 500_000, 400_000));
    for s in [DockSide::Left, DockSide::Right, DockSide::Top, DockSide::Bottom] {
        assert_eq!(opposite_side(opposite_side(s)), s);
    }
}

#[test]
fn hosts_snap_to_guides() {
    let size = Point { x: 200_000, y: 200_000 };
    let guides = vec![rect(500_000, 0, 900_000, 700_000)];
    let far = Point { x: 10_000, y: 300_000 };
    assert_eq!(snap_host_pos(far, size, &guides, None), far);
    let near = Point { x: 301_000, y: 300_000 };
    assert_eq!(snap_host_pos(near, size, &guides, None).x, 300_000);
    assert!(inferred_work_area(rect(0, 0, 100_000, 100_000), None).is_none());
}
