//! Layouts at start: the default one, and what a stored one becomes.
use vstd::prelude::*;
use crate::dock::column::{
    Column, DockColumn, DockSide, PanelKind, clamp_i32, clamped, column_width_range, has_panel,
    height_range, row_height_range, width_range,
};
use crate::dock::geometry::Point;
use crate::dock::host::{FloatHost, FloatingPanel, Host, MIN_HOST_WIDTH, columns, drop_empty, live};
use crate::dock::layout::{Arrangement, DockLayout, MAX_HOST_EXTENT, MIN_HOST_HEIGHT, hosts};

verus! {

/// A column with its width in range and its weights settled.
pub open spec fn fit_column(c: Column) -> Column {
    let (lo, hi) = width_range(c.panels);
    Column { width: clamped(c.width as int, lo, hi) as i32, ..c }.synced()
}

/// A row with its height in range and its weights settled.
pub open spec fn fit_row(c: Column) -> Column {
    let (lo, hi) = height_range(c.panels);
    Column { width: clamped(c.width as int, lo, hi) as i32, ..c }.synced()
}

pub open spec fn fit_strips(cols: Seq<Column>, side: DockSide) -> Seq<Column> {
    live(cols).map_values(
        |c: Column|
            if side.vertical() {
                fit_column(c)
            } else {
                fit_row(c)
            },
    )
}

/// A window with settled weights and its size in range.
pub open spec fn fit_host(h: Host) -> Host {
    Host {
        size: Point {
            x: clamped(h.size.x as int, MIN_HOST_WIDTH as int, MAX_HOST_EXTENT as int) as i32,
            y: clamped(h.size.y as int, MIN_HOST_HEIGHT as int, MAX_HOST_EXTENT as int) as i32,
        },
        ..h.synced()
    }
}

/// Whether a window of the list names `kind` in its flat panel list.
pub open spec fn listed(list: Seq<Host>, kind: PanelKind) -> bool {
    exists|i: int| 0 <= i < list.len() && (#[trigger] list[i]).panels.contains(kind)
}

/// The windows, and the next id, after the first `n` single floats became
/// windows: each whose panel no window lists yet.
pub open spec fn migrated(a: Arrangement, n: nat) -> (Seq<Host>, u64)
    decreases n,
{
    if n == 0 {
        (a.hosts, a.next_id)
    } else {
        let (list, next) = migrated(a, (n - 1) as nat);
        let f = a.floating[n - 1];
        if listed(list, f.kind) {
            (list, next)
        } else {
            let id: u64 = if next == 0 {
                1
            } else {
                next
            };
            (list.push(Host::fresh(id, f.kind, f.pos, f.size)), (id + 1) as u64)
        }
    }
}

/// The least id above `next` and above every window's id.
pub open spec fn id_above(list: Seq<Host>, next: u64) -> u64
    decreases list.len(),
{
    if list.len() == 0 {
        next
    } else {
        let rest = id_above(list.drop_last(), next);
        if list.last().id + 1 > rest {
            (list.last().id + 1) as u64
        } else {
            rest
        }
    }
}

/// What a stored arrangement becomes.
pub open spec fn sanitized(a: Arrangement) -> Arrangement {
    let (list, next) = migrated(a, a.floating.len());
    let fitted = list.map_values(|h: Host| fit_host(h));
    let above = id_above(list, next);
    Arrangement {
        left: fit_strips(a.left, DockSide::Left),
        right: fit_strips(a.right, DockSide::Right),
        top: fit_strips(a.top, DockSide::Top),
        bottom: fit_strips(a.bottom, DockSide::Bottom),
        floating: Seq::empty(),
        hosts: fitted,
        next_id: if above == 0 {
            1
        } else {
            above
        },
        hidden: a.hidden,
    }
}

fn fit_all(cols: &mut Vec<DockColumn>, side: DockSide)
    ensures
        columns(final(cols)@) == fit_strips(columns(old(cols)@), side),
{
    drop_empty(cols);
    let ghost kept = columns(cols@);
    let n: usize = cols.len();
    let mut i: usize = 0;
    while i < n
        invariant
            i <= n,
            n == cols.len(),
            n == kept.len(),
            kept == live(columns(old(cols)@)),
            forall|j: int|
                0 <= j < i ==> cols@[j]@ == (if side.vertical() {
                    fit_column(kept[j])
                } else {
                    fit_row(kept[j])
                }),
            forall|j: int| i <= j < n ==> cols@[j]@ == kept[j],
        decreases n - i,
    {
        let (lo, hi) = if side.is_vertical() {
            column_width_range(&cols[i])
        } else {
            row_height_range(&cols[i])
        };
        let w: i32 = clamp_i32(cols[i].width, lo, hi);
        cols[i].width = w;
        cols[i].sync_weights();
        i += 1;
    }
    assert(columns(cols@) =~= fit_strips(columns(old(cols)@), side));
}

fn any_lists(list: &Vec<FloatHost>, kind: PanelKind) -> (r: bool)
    ensures
        r == listed(hosts(list@), kind),
{
    let n: usize = list.len();
    let mut i: usize = 0;
    while i < n
        invariant
            i <= n,
            n == list.len(),
            forall|j: int| 0 <= j < i ==> !(#[trigger] hosts(list@)[j]).panels.contains(kind),
        decreases n - i,
    {
        if has_panel(&list[i].panels, kind) {
            assert(hosts(list@)[i as int].panels.contains(kind));
            return true;
        }
        i += 1;
    }
    false
}

proof fn lemma_migrated_id(a: Arrangement, n: nat)
    requires
        a.free_id() + n <= u64::MAX,
    ensures
        migrated(a, n).1 <= a.free_id() + n,
    decreases n,
{
    if n > 0 {
        lemma_migrated_id(a, (n - 1) as nat);
    }
}

impl DockLayout {
    /// Turns the single floats of older layouts into windows.
    fn migrate_floating_to_hosts(&mut self)
        requires
            old(self)@.free_id() + old(self).floating.len() <= u64::MAX,
        ensures
            final(self)@ == ({
                let (list, next) = migrated(old(self)@, old(self)@.floating.len());
                Arrangement { hosts: list, next_id: next, floating: Seq::empty(), ..old(self)@ }
            }),
            final(self).same_tracking(*old(self)),
    {
        let n: usize = self.floating.len();
        let mut i: usize = 0;
        while i < n
            invariant
                i <= n,
                n == old(self).floating.len(),
                old(self)@.free_id() + n <= u64::MAX,
                self@ == (Arrangement {
                    hosts: migrated(old(self)@, i as nat).0,
                    next_id: migrated(old(self)@, i as nat).1,
                    ..old(self)@
                }),
                self.same_tracking(*old(self)),
            decreases n - i,
        {
            let f: FloatingPanel = self.floating[i];
            proof {
                lemma_migrated_id(old(self)@, i as nat);
            }
            if !any_lists(&self.float_hosts, f.kind) {
                let ghost before = self@.hosts;
                let id: u64 = self.alloc_float_id();
                self.float_hosts.push(FloatHost::single(id, f.kind, f.pos, f.size));
                assert(self@.hosts =~= before.push(Host::fresh(id, f.kind, f.pos, f.size)));
            }
            i += 1;
        }
        self.floating.clear();
    }
}

/// The next id that a stored arrangement comes to: above every window's.
pub open spec fn ids_fit(a: Arrangement) -> bool {
    &&& a.free_id() + a.floating.len() <= u64::MAX
    &&& forall|i: int| 0 <= i < a.hosts.len() ==> (#[trigger] a.hosts[i]).id < u64::MAX
}

pub proof fn lemma_migrated_ids(a: Arrangement, n: nat)
    requires
        ids_fit(a),
        n <= a.floating.len(),
    ensures
        forall|i: int|
            0 <= i < migrated(a, n).0.len() ==> (#[trigger] migrated(a, n).0[i]).id < u64::MAX,
    decreases n,
{
    if n > 0 {
        lemma_migrated_ids(a, (n - 1) as nat);
        lemma_migrated_id(a, (n - 1) as nat);
    }
}

impl DockLayout {
    /// Puts a stored layout in order: nothing is being dragged, strips without
    /// panels are gone, extents and weights are in range, single floats are
    /// windows, and the next id is above every window's.
    pub fn sanitize(&mut self)
        requires
            ids_fit(old(self)@),
        ensures
            final(self)@ == sanitized(old(self)@),
            final(self).drag is None,
            final(self).drop_target is None,
            final(self).host_move is None,
            final(self).last_pointer_screen is None,
            final(self).content_rect is None,
            final(self).main_inner is None,
            final(self).main_outer is None,
            final(self).slot_rects@.len() == 0,
            final(self).column_rects@.len() == 0,
            final(self).float_host_rects@.len() == 0,
            final(self).float_column_rects == old(self).float_column_rects,
            final(self).float_slot_rects == old(self).float_slot_rects,
            final(self).hug_content_h == old(self).hug_content_h,
    {
        self.drag = None;
        self.drop_target = None;
        self.host_move = None;
        self.last_pointer_screen = None;
        self.content_rect = None;
        self.main_inner = None;
        self.main_outer = None;
        self.slot_rects.clear();
        self.column_rects.clear();
        self.float_host_rects.clear();
        fit_all(&mut self.left_columns, DockSide::Left);
        fit_all(&mut self.right_columns, DockSide::Right);
        fit_all(&mut self.top_rows, DockSide::Top);
        fit_all(&mut self.bottom_rows, DockSide::Bottom);
        let ghost a = self@;
        proof {
            lemma_migrated_agrees(a, old(self)@, a.floating.len());
            lemma_migrated_ids(a, a.floating.len());
        }
        self.migrate_floating_to_hosts();
        let ghost list = self@.hosts;
        let ghost next = self.next_float_id;
        let ghost base = *self;
        let n: usize = self.float_hosts.len();
        let mut i: usize = 0;
        assert(list.take(0) =~= Seq::empty());
        while i < n
            invariant
                i <= n,
                n == self.float_hosts.len(),
                n == list.len(),
                forall|j: int| 0 <= j < n ==> (#[trigger] list[j]).id < u64::MAX,
                forall|j: int| 0 <= j < i ==> self.float_hosts@[j]@ == fit_host(list[j]),
                forall|j: int| i <= j < n ==> self.float_hosts@[j]@ == list[j],
                self.next_float_id == id_above(list.take(i as int), next),
                self@ == (Arrangement { hosts: self@.hosts, next_id: self.next_float_id, ..base@ }),
                self.same_tracking(base),
            decreases n - i,
        {
            self.float_hosts[i].sync_weights();
            let size: Point = self.float_hosts[i].size;
            self.float_hosts[i].size =
            Point {
                x: clamp_i32(size.x, MIN_HOST_WIDTH, MAX_HOST_EXTENT),
                y: clamp_i32(size.y, MIN_HOST_HEIGHT, MAX_HOST_EXTENT),
            };
            let id: u64 = self.float_hosts[i].id;
            assert(id == list[i as int].id);
            if id + 1 > self.next_float_id {
                self.next_float_id = id + 1;
            }
            i += 1;
            assert(list.take(i as int).drop_last() =~= list.take(i - 1));
        }
        assert(list.take(n as int) =~= list);
        assert(self@.hosts =~= list.map_values(|h: Host| fit_host(h)));
        if self.next_float_id == 0 {
            self.next_float_id = 1;
        }
    }
}

proof fn lemma_migrated_agrees(a: Arrangement, b: Arrangement, n: nat)
    requires
        a.hosts == b.hosts,
        a.next_id == b.next_id,
        a.floating == b.floating,
    ensures
        migrated(a, n) == migrated(b, n),
    decreases n,
{
    if n > 0 {
        lemma_migrated_agrees(a, b, (n - 1) as nat);
    }
}

/// The arrangement that a first start has.
pub open spec fn default_arrangement() -> Arrangement {
    Arrangement {
        left: seq![
            Column {
                panels: seq![PanelKind::Color, PanelKind::Tools, PanelKind::Brush],
                width: 270_000,
                weights: seq![2_200_000, 700_000, 1_100_000],
            },
        ],
        right: seq![Column::fresh(seq![PanelKind::Navigator, PanelKind::Layers], 260_000)],
        top: Seq::empty(),
        bottom: Seq::empty(),
        floating: Seq::empty(),
        hosts: Seq::empty(),
        next_id: 1,
        hidden: Seq::empty(),
    }
}

fn default_left() -> (r: Vec<PanelKind>)
    ensures
        r@ == seq![PanelKind::Color, PanelKind::Tools, PanelKind::Brush],
{
    let mut out: Vec<PanelKind> = Vec::new();
    out.push(PanelKind::Color);
    out.push(PanelKind::Tools);
    out.push(PanelKind::Brush);
    out
}

fn default_right() -> (r: Vec<PanelKind>)
    ensures
        r@ == seq![PanelKind::Navigator, PanelKind::Layers],
{
    let mut out: Vec<PanelKind> = Vec::new();
    out.push(PanelKind::Navigator);
    out.push(PanelKind::Layers);
    out
}

/// One strip of the given panels, or none where there is no panel.
pub open spec fn as_side(panels: Seq<PanelKind>, width: i32) -> Seq<Column> {
    if panels.len() == 0 {
        Seq::empty()
    } else {
        seq![Column::fresh(panels, width)]
    }
}

fn side_strips(panels: Vec<PanelKind>, width: i32) -> (r: Vec<DockColumn>)
    ensures
        columns(r@) == as_side(panels@, width),
{
    let mut out: Vec<DockColumn> = Vec::new();
    if panels.len() > 0 {
        out.push(DockColumn::new(panels, width));
    }
    assert(columns(out@) =~= as_side(panels@, width));
    out
}

impl DockLayout {
    /// Nothing is dragged and nothing is measured.
    pub open spec fn at_rest(self) -> bool {
        &&& self.drag is None
        &&& self.drop_target is None
        &&& self.host_move is None
        &&& self.last_pointer_screen is None
        &&& self.content_rect is None
        &&& self.main_inner is None
        &&& self.main_outer is None
        &&& self.slot_rects@.len() == 0
        &&& self.column_rects@.len() == 0
        &&& self.float_host_rects@.len() == 0
        &&& self.float_column_rects@.len() == 0
        &&& self.float_slot_rects@.len() == 0
        &&& self.hug_content_h@.len() == 0
    }

    /// A layout at rest with these strips, floats and windows.
    pub fn from_parts(
        left_columns: Vec<DockColumn>,
        right_columns: Vec<DockColumn>,
        floating: Vec<FloatingPanel>,
    ) -> (r: DockLayout)
        ensures
            r@ == (Arrangement {
                left: columns(left_columns@),
                right: columns(right_columns@),
                floating: floating@,
                ..default_arrangement()
            }),
            r.at_rest(),
    {
        let r = DockLayout {
            left_columns,
            right_columns,
            top_rows: Vec::new(),
            bottom_rows: Vec::new(),
            floating,
            float_hosts: Vec::new(),
            next_float_id: 1,
            hidden: Vec::new(),
            drag: None,
            drop_target: None,
            content_rect: None,
            main_inner: None,
            main_outer: None,
            slot_rects: Vec::new(),
            column_rects: Vec::new(),
            float_host_rects: Vec::new(),
            float_column_rects: Vec::new(),
            float_slot_rects: Vec::new(),
            host_move: None,
            last_pointer_screen: None,
            hug_content_h: Vec::new(),
        };
        assert(r@.top =~= Seq::empty());
        assert(r@.bottom =~= Seq::empty());
        assert(r@.hosts =~= Seq::empty());
        r
    }

    /// The layout that an older file describes: one strip at the left and one
    /// at the right. A list that could not be read is the default one.
    pub fn from_old(
        left: Option<Vec<PanelKind>>,
        right: Option<Vec<PanelKind>>,
        left_width: Option<i32>,
        right_width: Option<i32>,
        floating: Option<Vec<FloatingPanel>>,
    ) -> (r: DockLayout)
        requires
            floating matches Some(f) ==> f.len() < u64::MAX,
        ensures
            r@ == sanitized(
                Arrangement {
                    left: as_side(
                        match left {
                            Some(v) => v@,
                            None => seq![PanelKind::Color, PanelKind::Tools, PanelKind::Brush],
                        },
                        match left_width {
                            Some(w) => w,
                            None => 270_000,
                        },
                    ),
                    right: as_side(
                        match right {
                            Some(v) => v@,
                            None => seq![PanelKind::Navigator, PanelKind::Layers],
                        },
                        match right_width {
                            Some(w) => w,
                            None => 260_000,
                        },
                    ),
                    floating: match floating {
                        Some(v) => v@,
                        None => Seq::empty(),
                    },
                    ..default_arrangement()
                },
            ),
            r.at_rest(),
    {
        let left_panels = match left {
            Some(v) => v,
            None => default_left(),
        };
        let right_panels = match right {
            Some(v) => v,
            None => default_right(),
        };
        let lw: i32 = match left_width {
            Some(w) => w,
            None => 270_000,
        };
        let rw: i32 = match right_width {
            Some(w) => w,
            None => 260_000,
        };
        let floats: Vec<FloatingPanel> = match floating {
            Some(v) => v,
            None => Vec::new(),
        };
        let mut d = DockLayout::from_parts(
            side_strips(left_panels, lw),
            side_strips(right_panels, rw),
            floats,
        );
        d.sanitize();
        d
    }
}

impl Default for DockLayout {
    fn default() -> (r: DockLayout)
        ensures
            r@ == default_arrangement(),
            r.at_rest(),
    {
        let mut left = DockColumn::new(default_left(), 270_000);
        let mut weights: Vec<i32> = Vec::new();
        weights.push(2_200_000);
        weights.push(700_000);
        weights.push(1_100_000);
        left.weights = weights;
        let mut left_columns: Vec<DockColumn> = Vec::new();
        left_columns.push(left);
        let mut right_columns: Vec<DockColumn> = Vec::new();
        right_columns.push(DockColumn::new(default_right(), 260_000));
        let r = DockLayout::from_parts(left_columns, right_columns, Vec::new());
        assert(r@.left[0].weights =~= seq![2_200_000, 700_000, 1_100_000]);
        assert(r@.left =~= default_arrangement().left);
        assert(r@.right =~= default_arrangement().right);
        r
    }
}

} // verus!
