//! The arrangement of all panels and the operations that change it.
use vstd::prelude::*;
use crate::dock::column::{Column, DockColumn, DockSide, PanelKind, clamped, has_panel};
use crate::dock::geometry::{Point, Rect};
use crate::dock::host::{
    FloatHost, FloatingPanel, Host, MIN_HOST_WIDTH, any_holds, at_least, columns, strips_hold,
    strips_without, take_from_strips,
};

verus! {

/// Where a dragged panel would go.
#[derive(Clone, Copy, Debug, PartialEq, Eq, Structural)]
pub enum DropTarget {
    /// Into a docked strip, before the panel at `index`.
    Insert { side: DockSide, column: usize, index: usize },
    /// Into a new strip of a side; strip 0 is the outermost.
    NewColumn { side: DockSide, column: usize },
    /// Into a column of a detached window.
    JoinInsert { host_id: u64, column: usize, index: usize },
    /// Into a new column of a detached window.
    JoinNewColumn { host_id: u64, column: usize },
    /// Into a detached window of its own.
    Float,
}

/// A panel being dragged.
#[derive(Clone, Copy, Debug)]
pub struct DragSession {
    pub kind: PanelKind,
    pub pointer: Point,
    pub from_side: Option<DockSide>,
    pub from_column: Option<usize>,
    pub from_host: Option<u64>,
}

/// A detached window being moved; `grab` is the pointer less the window's
/// origin.
#[derive(Clone, Copy, Debug)]
pub struct HostMove {
    pub host_id: u64,
    pub grab: Point,
    pub ready: bool,
}

/// The windows of a list as values.
pub open spec fn hosts(list: Seq<FloatHost>) -> Seq<Host> {
    list.map_values(|h: FloatHost| h@)
}

/// The first window with the given id, or the list's length.
pub open spec fn host_place(list: Seq<Host>, id: u64) -> int
    decreases list.len(),
{
    if list.len() == 0 {
        0
    } else if list[0].id == id {
        0
    } else {
        1 + host_place(list.drop_first(), id)
    }
}

/// The windows that still show something, in order.
pub open spec fn live_hosts(list: Seq<Host>) -> Seq<Host>
    decreases list.len(),
{
    if list.len() == 0 {
        list
    } else if list[0].empty() {
        live_hosts(list.drop_first())
    } else {
        seq![list[0]] + live_hosts(list.drop_first())
    }
}

/// The windows after `kind` has left them; those left empty are gone.
pub open spec fn hosts_without(list: Seq<Host>, kind: PanelKind) -> Seq<Host> {
    live_hosts(list.map_values(|h: Host| h.without(kind)))
}

/// The panels other than `kind`, in order.
pub open spec fn panels_without(list: Seq<PanelKind>, kind: PanelKind) -> Seq<PanelKind> {
    list.filter(|k: PanelKind| k != kind)
}

/// The floats of another kind, in order.
pub open spec fn floats_without(list: Seq<FloatingPanel>, kind: PanelKind) -> Seq<FloatingPanel> {
    list.filter(|f: FloatingPanel| f.kind != kind)
}

/// What of a layout outlives a frame: the strips of the four sides, the
/// detached windows, and the hidden panels.
pub struct Arrangement {
    pub left: Seq<Column>,
    pub right: Seq<Column>,
    pub top: Seq<Column>,
    pub bottom: Seq<Column>,
    pub floating: Seq<FloatingPanel>,
    pub hosts: Seq<Host>,
    pub next_id: u64,
    pub hidden: Seq<PanelKind>,
}

impl Arrangement {
    pub open spec fn strips(self, side: DockSide) -> Seq<Column> {
        match side {
            DockSide::Left => self.left,
            DockSide::Right => self.right,
            DockSide::Top => self.top,
            DockSide::Bottom => self.bottom,
        }
    }

    pub open spec fn with_strips(self, side: DockSide, cols: Seq<Column>) -> Arrangement {
        match side {
            DockSide::Left => Arrangement { left: cols, ..self },
            DockSide::Right => Arrangement { right: cols, ..self },
            DockSide::Top => Arrangement { top: cols, ..self },
            DockSide::Bottom => Arrangement { bottom: cols, ..self },
        }
    }

    /// The arrangement after `kind` has left every strip and window.
    pub open spec fn without(self, kind: PanelKind) -> Arrangement {
        Arrangement {
            left: strips_without(self.left, kind),
            right: strips_without(self.right, kind),
            top: strips_without(self.top, kind),
            bottom: strips_without(self.bottom, kind),
            floating: floats_without(self.floating, kind),
            hosts: hosts_without(self.hosts, kind),
            next_id: self.next_id,
            hidden: panels_without(self.hidden, kind),
        }
    }

    /// Whether `kind` is docked or floating.
    pub open spec fn shows(self, kind: PanelKind) -> bool {
        ||| strips_hold(self.left, kind)
        ||| strips_hold(self.right, kind)
        ||| strips_hold(self.top, kind)
        ||| strips_hold(self.bottom, kind)
        ||| exists|i: int| 0 <= i < self.floating.len() && #[trigger] self.floating[i].kind == kind
        ||| exists|i: int| 0 <= i < self.hosts.len() && #[trigger] self.hosts[i].holds(kind)
    }

    /// The id that the next detached window gets.
    pub open spec fn free_id(self) -> u64 {
        if self.next_id == 0 {
            1
        } else {
            self.next_id
        }
    }

    /// A side's strips after `kind` was appended to the first one, which is
    /// made where there is none.
    pub open spec fn appended(cols: Seq<Column>, kind: PanelKind, width: i32) -> Seq<Column> {
        if cols.len() == 0 {
            seq![Column::fresh(seq![kind], width)]
        } else {
            cols.update(0, Column { panels: cols[0].panels.push(kind), ..cols[0] }.synced())
        }
    }

    /// The arrangement after a hidden panel came back to its home side.
    pub open spec fn shown(self, kind: PanelKind) -> Arrangement {
        if self.shows(kind) {
            self
        } else {
            let a = Arrangement { hidden: panels_without(self.hidden, kind), ..self };
            match kind {
                PanelKind::Navigator | PanelKind::Layers => Arrangement {
                    right: Arrangement::appended(self.right, kind, 260_000),
                    ..a
                },
                _ => Arrangement { left: Arrangement::appended(self.left, kind, 270_000), ..a },
            }
        }
    }

    /// The arrangement after a panel was hidden.
    pub open spec fn concealed(self, kind: PanelKind) -> Arrangement {
        let a = self.without(kind);
        Arrangement { hidden: a.hidden.push(kind), ..a }
    }

    /// The arrangement after a panel got a window of its own.
    pub open spec fn undocked(self, kind: PanelKind, pos: Point, size: Point) -> Arrangement {
        let a = self.without(kind);
        Arrangement {
            hosts: a.hosts.push(Host::fresh(self.free_id(), kind, pos, size)),
            next_id: (self.free_id() + 1) as u64,
            ..a
        }
    }

    /// The arrangement after a panel was put into a docked strip; where the
    /// side has no strip, it gets its first one.
    pub open spec fn inserted(
        self,
        kind: PanelKind,
        side: DockSide,
        column: int,
        index: int,
    ) -> Arrangement {
        let a = self.without(kind);
        let cols = a.strips(side);
        a.with_strips(
            side,
            if cols.len() == 0 {
                seq![Column::fresh(seq![kind], strip_extent(side))]
            } else {
                let c = if column < cols.len() {
                    column
                } else {
                    cols.len() - 1
                };
                cols.update(c, cols[c].with(kind, index))
            },
        )
    }

    /// The arrangement after a panel was put into a new strip of a side.
    pub open spec fn inserted_new(self, kind: PanelKind, side: DockSide, column: int) -> Arrangement {
        let a = self.without(kind);
        let cols = a.strips(side);
        let i = if column < cols.len() {
            column
        } else {
            cols.len() as int
        };
        a.with_strips(side, cols.insert(i, Column::fresh(seq![kind], strip_extent(side))))
    }

    /// The arrangement after a panel was put into a column of a detached
    /// window, or into a window of its own where there is none of that id.
    pub open spec fn joined(
        self,
        kind: PanelKind,
        host_id: u64,
        column: int,
        index: int,
    ) -> Arrangement {
        let a = self.without(kind);
        let i = host_place(a.hosts, host_id);
        if i < a.hosts.len() {
            Arrangement { hosts: a.hosts.update(i, a.hosts[i].joined(kind, column, index)), ..a }
        } else {
            a.undocked(kind, fallback_pos(), float_size())
        }
    }

    /// As `joined`, with a new column of the window.
    pub open spec fn joined_new(self, kind: PanelKind, host_id: u64, column: int) -> Arrangement {
        let a = self.without(kind);
        let i = host_place(a.hosts, host_id);
        if i < a.hosts.len() {
            Arrangement { hosts: a.hosts.update(i, a.hosts[i].joined_new(kind, column)), ..a }
        } else {
            a.undocked(kind, fallback_pos(), float_size())
        }
    }

    /// The arrangement after the first window of that id gave its columns to
    /// a side, before the strip at `column`.
    pub open spec fn host_docked(self, host_id: u64, side: DockSide, column: int) -> Arrangement {
        let k = host_place(self.hosts, host_id);
        if k < self.hosts.len() {
            let dest = self.strips(side);
            let i = if column < dest.len() {
                column
            } else {
                dest.len() as int
            };
            Arrangement { hosts: self.hosts.remove(k), ..self }.with_strips(
                side,
                dest.take(i) + self.hosts[k].as_strips(side) + dest.skip(i),
            )
        } else {
            self
        }
    }

    /// The arrangement after a whole strip moved to a side, before the strip at
    /// `to_index`.
    pub open spec fn column_moved(
        self,
        side: DockSide,
        column: int,
        to_side: DockSide,
        to_index: int,
    ) -> Arrangement {
        let from = self.strips(side);
        if column < from.len() {
            let a = self.with_strips(side, from.remove(column));
            let dest = a.strips(to_side);
            let i = if to_index < dest.len() {
                to_index
            } else {
                dest.len() as int
            };
            a.with_strips(to_side, dest.insert(i, from[column]))
        } else {
            self
        }
    }
}

/// The extent of a new strip on a side.
pub open spec fn strip_extent(side: DockSide) -> i32 {
    if side.vertical() {
        260_000
    } else {
        140_000
    }
}

/// Where a window opens that a panel could not join.
pub open spec fn fallback_pos() -> Point {
    Point { x: 80_000, y: 80_000 }
}

/// The size that a panel floats with at first.
pub open spec fn float_size() -> Point {
    Point { x: 280_000, y: 360_000 }
}

impl Host {
    /// The window after `kind` came into one of its columns.
    pub open spec fn joined(self, kind: PanelKind, column: int, index: int) -> Host {
        let h = self.ensured();
        let cols = if h.columns.len() == 0 {
            seq![Column::fresh(seq![kind], at_least(h.size.x, MIN_HOST_WIDTH))]
        } else {
            let c = if column < h.columns.len() {
                column
            } else {
                h.columns.len() - 1
            };
            h.columns.update(c, h.columns[c].with(kind, index))
        };
        Host { columns: cols, ..h }.flattened()
    }

    /// The window after `kind` came into a new column of it, which makes the
    /// window wider.
    pub open spec fn joined_new(self, kind: PanelKind, column: int) -> Host {
        let h = self.ensured();
        let i = if column < h.columns.len() {
            column
        } else {
            h.columns.len() as int
        };
        let base = at_least(h.size.x, MIN_HOST_WIDTH);
        let w: i32 = if base < 200_000 {
            base
        } else {
            200_000
        };
        Host {
            columns: h.columns.insert(i, Column::fresh(seq![kind], w)),
            size: Point {
                x: clamped(h.size.x + w, MIN_HOST_WIDTH as int, MAX_HOST_EXTENT as int) as i32,
                y: h.size.y,
            },
            ..h
        }.flattened()
    }

    /// The columns of the window as strips of a side.
    pub open spec fn as_strips(self, side: DockSide) -> Seq<Column> {
        if self.columns.len() == 0 {
            let extent = if side.vertical() {
                clamped(self.size.x as int, 52_000, 480_000)
            } else {
                clamped(self.size.y as int, 56_000, 360_000)
            };
            seq![
                Column {
                    panels: self.panels,
                    width: extent as i32,
                    weights: self.weights,
                }.synced(),
            ]
        } else {
            self.columns
        }
    }
}

pub const MAX_HOST_EXTENT: i32 = 1_600_000;

pub const MIN_HOST_HEIGHT: i32 = 80_000;

/// A docking layout: the arrangement of the panels, and what a frame measured
/// and a drag is doing.
pub struct DockLayout {
    pub left_columns: Vec<DockColumn>,
    pub right_columns: Vec<DockColumn>,
    pub top_rows: Vec<DockColumn>,
    pub bottom_rows: Vec<DockColumn>,
    /// Single floats of older layouts, until they become windows.
    pub floating: Vec<FloatingPanel>,
    pub float_hosts: Vec<FloatHost>,
    pub next_float_id: u64,
    pub hidden: Vec<PanelKind>,
    pub drag: Option<DragSession>,
    pub drop_target: Option<DropTarget>,
    /// The area between the docks, in main-window coordinates.
    pub content_rect: Option<Rect>,
    pub main_inner: Option<Rect>,
    pub main_outer: Option<Rect>,
    /// Side, strip, panel and place of each docked panel.
    pub slot_rects: Vec<(DockSide, usize, usize, Rect)>,
    /// Side, strip and place of each docked strip.
    pub column_rects: Vec<(DockSide, usize, Rect)>,
    /// Detached windows, in screen coordinates like the two lists below.
    pub float_host_rects: Vec<(u64, Rect)>,
    pub float_column_rects: Vec<(u64, usize, Rect)>,
    pub float_slot_rects: Vec<(u64, usize, usize, Rect)>,
    pub host_move: Option<HostMove>,
    /// Where the pointer was last seen during a drag, on the screen.
    pub last_pointer_screen: Option<Point>,
    /// How high the contents of panels that hug them were in the frame before:
    /// side, strip, panel and height.
    pub hug_content_h: Vec<(u8, usize, PanelKind, i32)>,
}

impl View for DockLayout {
    type V = Arrangement;

    open spec fn view(&self) -> Arrangement {
        Arrangement {
            left: columns(self.left_columns@),
            right: columns(self.right_columns@),
            top: columns(self.top_rows@),
            bottom: columns(self.bottom_rows@),
            floating: self.floating@,
            hosts: hosts(self.float_hosts@),
            next_id: self.next_float_id,
            hidden: self.hidden@,
        }
    }
}

/// The window at a place of the list, by id.
pub fn find_host(list: &Vec<FloatHost>, id: u64) -> (r: Option<usize>)
    ensures
        match r {
            Some(i) => i == host_place(hosts(list@), id) && i < list.len(),
            None => host_place(hosts(list@), id) == list.len(),
        },
{
    let n: usize = list.len();
    let mut i: usize = 0;
    assert(hosts(list@).skip(0) =~= hosts(list@));
    while i < n
        invariant
            i <= n,
            n == list.len(),
            host_place(hosts(list@), id) == i + host_place(hosts(list@).skip(i as int), id),
        decreases n - i,
    {
        if list[i].id == id {
            return Some(i);
        }
        assert(hosts(list@).skip(i as int).drop_first() =~= hosts(list@).skip(i + 1));
        i += 1;
    }
    None
}

/// The panels other than `kind`, in order.
pub fn panels_except(list: &Vec<PanelKind>, kind: PanelKind) -> (r: Vec<PanelKind>)
    ensures
        r@ == panels_without(list@, kind),
{
    let n: usize = list.len();
    let mut out: Vec<PanelKind> = Vec::new();
    let mut i: usize = 0;
    reveal(Seq::filter);
    while i < n
        invariant
            i <= n,
            n == list.len(),
            out@ == panels_without(list@.take(i as int), kind),
        decreases n - i,
    {
        if list[i] != kind {
            out.push(list[i]);
        }
        i += 1;
        assert(list@.take(i as int).drop_last() =~= list@.take(i - 1));
        reveal(Seq::filter);
    }
    assert(list@.take(n as int) =~= list@);
    out
}

/// The floats of another kind, in order.
fn floats_except(list: &Vec<FloatingPanel>, kind: PanelKind) -> (r: Vec<FloatingPanel>)
    ensures
        r@ == floats_without(list@, kind),
{
    let n: usize = list.len();
    let mut out: Vec<FloatingPanel> = Vec::new();
    let mut i: usize = 0;
    reveal(Seq::filter);
    while i < n
        invariant
            i <= n,
            n == list.len(),
            out@ == floats_without(list@.take(i as int), kind),
        decreases n - i,
    {
        if list[i].kind != kind {
            out.push(list[i]);
        }
        i += 1;
        assert(list@.take(i as int).drop_last() =~= list@.take(i - 1));
        reveal(Seq::filter);
    }
    assert(list@.take(n as int) =~= list@);
    out
}

/// Removes the windows that have nothing left to show.
fn drop_empty_hosts(list: &mut Vec<FloatHost>)
    ensures
        hosts(final(list)@) == live_hosts(hosts(old(list)@)),
{
    let mut i: usize = 0;
    assert(hosts(list@).take(0) + live_hosts(hosts(list@).skip(0)) =~= live_hosts(hosts(list@))) by {
        assert(hosts(list@).skip(0) =~= hosts(list@));
    }
    while i < list.len()
        invariant
            i <= list.len(),
            live_hosts(hosts(old(list)@)) == hosts(list@).take(i as int) + live_hosts(
                hosts(list@).skip(i as int),
            ),
        decreases list.len() - i,
    {
        let ghost before = hosts(list@);
        if list[i].columns.len() == 0 || list[i].panels.len() == 0 {
            list.remove(i);
            assert(hosts(list@) =~= before.remove(i as int));
            assert(hosts(list@).take(i as int) =~= before.take(i as int));
            assert(hosts(list@).skip(i as int) =~= before.skip(i as int).drop_first());
        } else {
            i += 1;
            assert(before.skip(i - 1).drop_first() =~= before.skip(i as int));
            assert(before.take(i - 1) + (seq![before[i - 1]] + live_hosts(before.skip(i as int)))
                =~= before.take(i as int) + live_hosts(before.skip(i as int)));
        }
    }
    assert(hosts(list@).skip(list.len() as int) =~= Seq::empty());
    assert(hosts(list@).take(list.len() as int) =~= hosts(list@));
    assert(hosts(list@) + Seq::empty() =~= hosts(list@));
}

/// Takes `kind` out of every window and removes those that it leaves empty.
fn take_from_hosts(list: &mut Vec<FloatHost>, kind: PanelKind)
    ensures
        hosts(final(list)@) == hosts_without(hosts(old(list)@), kind),
{
    let n: usize = list.len();
    let ghost target = hosts(list@).map_values(|h: Host| h.without(kind));
    let mut i: usize = 0;
    while i < n
        invariant
            i <= n,
            n == list.len(),
            n == old(list).len(),
            target == hosts(old(list)@).map_values(|h: Host| h.without(kind)),
            forall|j: int| 0 <= j < i ==> list@[j]@ == target[j],
            forall|j: int| i <= j < n ==> list@[j] == old(list)@[j],
        decreases n - i,
    {
        list[i].take_out(kind);
        i += 1;
    }
    assert(hosts(list@) =~= target);
    drop_empty_hosts(list);
}

impl DockLayout {
    /// Whether two layouts agree in what a frame measured and a drag is doing.
    pub open spec fn same_tracking(self, other: DockLayout) -> bool {
        &&& self.drag == other.drag
        &&& self.drop_target == other.drop_target
        &&& self.content_rect == other.content_rect
        &&& self.main_inner == other.main_inner
        &&& self.main_outer == other.main_outer
        &&& self.slot_rects == other.slot_rects
        &&& self.column_rects == other.column_rects
        &&& self.float_host_rects == other.float_host_rects
        &&& self.float_column_rects == other.float_column_rects
        &&& self.float_slot_rects == other.float_slot_rects
        &&& self.host_move == other.host_move
        &&& self.last_pointer_screen == other.last_pointer_screen
        &&& self.hug_content_h == other.hug_content_h
    }

    pub open spec fn strips_vec(self, side: DockSide) -> Vec<DockColumn> {
        match side {
            DockSide::Left => self.left_columns,
            DockSide::Right => self.right_columns,
            DockSide::Top => self.top_rows,
            DockSide::Bottom => self.bottom_rows,
        }
    }

    pub open spec fn with_strips_vec(self, side: DockSide, cols: Vec<DockColumn>) -> DockLayout {
        match side {
            DockSide::Left => DockLayout { left_columns: cols, ..self },
            DockSide::Right => DockLayout { right_columns: cols, ..self },
            DockSide::Top => DockLayout { top_rows: cols, ..self },
            DockSide::Bottom => DockLayout { bottom_rows: cols, ..self },
        }
    }

    /// The strips of a side, outermost first.
    pub fn strips(&self, side: DockSide) -> (r: &Vec<DockColumn>)
        ensures
            *r == self.strips_vec(side),
            columns(r@) == self@.strips(side),
    {
        match side {
            DockSide::Left => &self.left_columns,
            DockSide::Right => &self.right_columns,
            DockSide::Top => &self.top_rows,
            DockSide::Bottom => &self.bottom_rows,
        }
    }

    /// The strips of a side, to change them.
    pub fn strips_mut(&mut self, side: DockSide) -> (r: &mut Vec<DockColumn>)
        ensures
            *r == old(self).strips_vec(side),
            *final(self) == old(self).with_strips_vec(side, *final(r)),
    {
        match side {
            DockSide::Left => &mut self.left_columns,
            DockSide::Right => &mut self.right_columns,
            DockSide::Top => &mut self.top_rows,
            DockSide::Bottom => &mut self.bottom_rows,
        }
    }

    /// Whether the strip at `column` of a side exists and holds `kind`.
    pub fn strip_has(&self, side: DockSide, column: usize, kind: PanelKind) -> (r: bool)
        ensures
            r == (column < self@.strips(side).len() && self@.strips(side)[column as int].panels.contains(
                kind,
            )),
    {
        let cols = self.strips(side);
        column < cols.len() && has_panel(&cols[column].panels, kind)
    }

    /// Takes `kind` out of wherever it is.
    pub(crate) fn remove_from_all(&mut self, kind: PanelKind)
        ensures
            final(self)@ == old(self)@.without(kind),
            final(self).same_tracking(*old(self)),
    {
        take_from_strips(&mut self.left_columns, kind);
        take_from_strips(&mut self.right_columns, kind);
        take_from_strips(&mut self.top_rows, kind);
        take_from_strips(&mut self.bottom_rows, kind);
        self.floating = floats_except(&self.floating, kind);
        take_from_hosts(&mut self.float_hosts, kind);
        self.hidden = panels_except(&self.hidden, kind);
    }

    /// Whether `kind` is docked or floating.
    pub fn is_visible(&self, kind: PanelKind) -> (r: bool)
        ensures
            r == self@.shows(kind),
    {
        if any_holds(&self.left_columns, kind) || any_holds(&self.right_columns, kind) || any_holds(
            &self.top_rows,
            kind,
        ) || any_holds(&self.bottom_rows, kind) {
            return true;
        }
        let mut i: usize = 0;
        while i < self.floating.len()
            invariant
                i <= self.floating.len(),
                forall|j: int| 0 <= j < i ==> (#[trigger] self@.floating[j]).kind != kind,
            decreases self.floating.len() - i,
        {
            if self.floating[i].kind == kind {
                assert(self@.floating[i as int].kind == kind);
                return true;
            }
            i += 1;
        }
        let mut k: usize = 0;
        while k < self.float_hosts.len()
            invariant
                k <= self.float_hosts.len(),
                forall|j: int| 0 <= j < k ==> !(#[trigger] self@.hosts[j].holds(kind)),
            decreases self.float_hosts.len() - k,
        {
            if self.float_hosts[k].contains(kind) {
                assert(self@.hosts[k as int].holds(kind));
                return true;
            }
            k += 1;
        }
        false
    }
}

} // verus!
