//! Lists of strips, and the detached windows that hold them.
use vstd::prelude::*;
use crate::dock::column::{Column, DockColumn, PanelKind, copy_panels, copy_weights, has_panel};
use crate::dock::geometry::Point;

verus! {

/// The strips of a list as values.
pub open spec fn columns(cols: Seq<DockColumn>) -> Seq<Column> {
    cols.map_values(|c: DockColumn| c@)
}

/// The strips that hold a panel, in order.
pub open spec fn live(cols: Seq<Column>) -> Seq<Column>
    decreases cols.len(),
{
    if cols.len() == 0 {
        cols
    } else if cols[0].panels.len() == 0 {
        live(cols.drop_first())
    } else {
        seq![cols[0]] + live(cols.drop_first())
    }
}

/// The strips after `kind` has left them; those left empty are gone.
pub open spec fn strips_without(cols: Seq<Column>, kind: PanelKind) -> Seq<Column> {
    live(cols.map_values(|c: Column| c.without(kind)))
}

/// The panels of all strips, strip by strip.
pub open spec fn panels_of(cols: Seq<Column>) -> Seq<PanelKind>
    decreases cols.len(),
{
    if cols.len() == 0 {
        Seq::empty()
    } else {
        panels_of(cols.drop_last()) + cols.last().panels
    }
}

/// Whether a strip of the list holds `kind`.
pub open spec fn strips_hold(cols: Seq<Column>, kind: PanelKind) -> bool {
    exists|i: int| 0 <= i < cols.len() && #[trigger] cols[i].panels.contains(kind)
}

/// Removes the strips without a panel.
pub fn drop_empty(cols: &mut Vec<DockColumn>)
    ensures
        columns(final(cols)@) == live(columns(old(cols)@)),
{
    let mut i: usize = 0;
    assert(columns(cols@).take(0) + live(columns(cols@).skip(0)) =~= live(columns(cols@))) by {
        assert(columns(cols@).skip(0) =~= columns(cols@));
    }
    while i < cols.len()
        invariant
            i <= cols.len(),
            live(columns(old(cols)@)) == columns(cols@).take(i as int) + live(
                columns(cols@).skip(i as int),
            ),
        decreases cols.len() - i,
    {
        let ghost before = columns(cols@);
        if cols[i].panels.len() == 0 {
            cols.remove(i);
            assert(columns(cols@) =~= before.remove(i as int));
            assert(columns(cols@).take(i as int) =~= before.take(i as int));
            assert(columns(cols@).skip(i as int) =~= before.skip(i as int).drop_first());
        } else {
            i += 1;
            assert(before.skip(i - 1).drop_first() =~= before.skip(i as int));
            assert(before.take(i - 1) + (seq![before[i - 1]] + live(before.skip(i as int)))
                =~= before.take(i as int) + live(before.skip(i as int)));
        }
    }
    assert(columns(cols@).skip(cols.len() as int) =~= Seq::empty());
    assert(columns(cols@).take(cols.len() as int) =~= columns(cols@));
    assert(columns(cols@) + Seq::empty() =~= columns(cols@));
}

/// Takes `kind` out of every strip and removes those that it leaves empty.
pub fn take_from_strips(cols: &mut Vec<DockColumn>, kind: PanelKind)
    ensures
        columns(final(cols)@) == strips_without(columns(old(cols)@), kind),
{
    let n: usize = cols.len();
    let ghost target = columns(cols@).map_values(|c: Column| c.without(kind));
    let mut i: usize = 0;
    while i < n
        invariant
            i <= n,
            n == cols.len(),
            n == old(cols).len(),
            target == columns(old(cols)@).map_values(|c: Column| c.without(kind)),
            forall|j: int| 0 <= j < i ==> cols@[j]@ == target[j],
            forall|j: int| i <= j < n ==> cols@[j] == old(cols)@[j],
        decreases n - i,
    {
        cols[i].take_out(kind);
        i += 1;
    }
    assert(columns(cols@) =~= target);
    drop_empty(cols);
}

/// Settles the weights of every strip.
pub fn sync_strips(cols: &mut Vec<DockColumn>)
    ensures
        columns(final(cols)@) == columns(old(cols)@).map_values(|c: Column| c.synced()),
{
    let n: usize = cols.len();
    let mut i: usize = 0;
    while i < n
        invariant
            i <= n,
            n == cols.len(),
            n == old(cols).len(),
            forall|j: int| 0 <= j < i ==> cols@[j]@ == old(cols)@[j]@.synced(),
            forall|j: int| i <= j < n ==> cols@[j] == old(cols)@[j],
        decreases n - i,
    {
        cols[i].sync_weights();
        i += 1;
    }
    assert(columns(cols@) =~= columns(old(cols)@).map_values(|c: Column| c.synced()));
}

/// Whether some strip of the list holds `kind`.
pub fn any_holds(cols: &Vec<DockColumn>, kind: PanelKind) -> (r: bool)
    ensures
        r == strips_hold(columns(cols@), kind),
{
    let n: usize = cols.len();
    let mut i: usize = 0;
    while i < n
        invariant
            i <= n,
            n == cols.len(),
            forall|j: int| 0 <= j < i ==> !(#[trigger] columns(cols@)[j]).panels.contains(kind),
        decreases n - i,
    {
        if has_panel(&cols[i].panels, kind) {
            assert(columns(cols@)[i as int].panels.contains(kind));
            return true;
        }
        i += 1;
    }
    false
}

fn gather_panels(cols: &Vec<DockColumn>) -> (r: Vec<PanelKind>)
    ensures
        r@ == panels_of(columns(cols@)),
{
    let n: usize = cols.len();
    let mut out: Vec<PanelKind> = Vec::new();
    let mut i: usize = 0;
    while i < n
        invariant
            i <= n,
            n == cols.len(),
            out@ == panels_of(columns(cols@).take(i as int)),
        decreases n - i,
    {
        let mut more = copy_panels(&cols[i].panels);
        out.append(&mut more);
        i += 1;
        assert(columns(cols@).take(i as int).drop_last() =~= columns(cols@).take(i - 1));
    }
    assert(columns(cols@).take(n as int) =~= columns(cols@));
    out
}

/// A detached window as a value.
pub struct Host {
    pub id: u64,
    pub panels: Seq<PanelKind>,
    pub weights: Seq<i32>,
    pub columns: Seq<Column>,
    pub pos: Point,
    pub size: Point,
}

/// The narrowest that a column of a detached window starts out with.
pub const MIN_HOST_WIDTH: i32 = 52_000;

pub open spec fn at_least(x: i32, lo: i32) -> i32 {
    if x < lo {
        lo
    } else {
        x
    }
}

pub fn at_least_i32(x: i32, lo: i32) -> (r: i32)
    ensures
        r == at_least(x, lo),
{
    if x < lo {
        lo
    } else {
        x
    }
}

impl Host {
    /// A window with one panel.
    pub open spec fn fresh(id: u64, kind: PanelKind, pos: Point, size: Point) -> Host {
        let col = Column::fresh(seq![kind], at_least(size.x, MIN_HOST_WIDTH));
        Host { id, panels: seq![kind], weights: col.weights, columns: seq![col], pos, size }
    }

    /// The window with its flat panel list turned into a column, where it has
    /// no column yet.
    pub open spec fn ensured(self) -> Host {
        if self.columns.len() == 0 && self.panels.len() > 0 {
            let plain = Column::fresh(self.panels, at_least(self.size.x, MIN_HOST_WIDTH));
            let col = if self.weights.len() > 0 {
                Column { weights: self.weights, ..plain }.synced()
            } else {
                plain
            };
            Host { columns: seq![col], ..self }
        } else {
            self
        }
    }

    /// The window with its flat lists read off its columns.
    pub open spec fn flattened(self) -> Host {
        Host {
            panels: panels_of(self.columns),
            weights: if self.columns.len() > 0 {
                self.columns[0].weights
            } else {
                Seq::empty()
            },
            ..self
        }
    }

    pub open spec fn synced(self) -> Host {
        let h = self.ensured();
        Host { columns: h.columns.map_values(|c: Column| c.synced()), ..h }.flattened()
    }

    /// The window after `kind` has left it.
    pub open spec fn without(self, kind: PanelKind) -> Host {
        let h = self.ensured();
        Host { columns: strips_without(h.columns, kind), ..h }.flattened()
    }

    /// Whether the window shows `kind`.
    pub open spec fn holds(self, kind: PanelKind) -> bool {
        strips_hold(self.columns, kind) || self.panels.contains(kind)
    }

    /// Whether the window has nothing left to show.
    pub open spec fn empty(self) -> bool {
        self.columns.len() == 0 || self.panels.len() == 0
    }
}

/// A single floating panel, as older layouts stored them.
#[derive(Clone, Copy, Debug, PartialEq, Eq, Structural)]
pub struct FloatingPanel {
    pub kind: PanelKind,
    pub pos: Point,
    pub size: Point,
}

/// A detached window with one or more joined panels.
pub struct FloatHost {
    pub id: u64,
    pub panels: Vec<PanelKind>,
    pub weights: Vec<i32>,
    pub columns: Vec<DockColumn>,
    pub pos: Point,
    pub size: Point,
}

impl View for FloatHost {
    type V = Host;

    open spec fn view(&self) -> Host {
        Host {
            id: self.id,
            panels: self.panels@,
            weights: self.weights@,
            columns: columns(self.columns@),
            pos: self.pos,
            size: self.size,
        }
    }
}

impl FloatHost {
    /// A window with one panel.
    pub fn single(id: u64, kind: PanelKind, pos: Point, size: Point) -> (r: FloatHost)
        ensures
            r@ == Host::fresh(id, kind, pos, size),
    {
        let col = DockColumn::single(kind, at_least_i32(size.x, MIN_HOST_WIDTH));
        let weights = copy_weights(&col.weights);
        let panels = copy_panels(&col.panels);
        let mut cols: Vec<DockColumn> = Vec::new();
        cols.push(col);
        let r = FloatHost { id, panels, weights, columns: cols, pos, size };
        assert(r@.columns =~= Host::fresh(id, kind, pos, size).columns);
        r
    }

    pub fn ensure_columns(&mut self)
        ensures
            final(self)@ == old(self)@.ensured(),
    {
        if self.columns.len() == 0 && self.panels.len() > 0 {
            let mut c = DockColumn::new(
                copy_panels(&self.panels),
                at_least_i32(self.size.x, MIN_HOST_WIDTH),
            );
            if self.weights.len() > 0 {
                c.weights = copy_weights(&self.weights);
                c.sync_weights();
            }
            let mut cols: Vec<DockColumn> = Vec::new();
            cols.push(c);
            self.columns = cols;
            assert(self@.columns =~= old(self)@.ensured().columns);
        }
    }

    /// Reads the flat lists off the columns.
    pub fn sync_flat(&mut self)
        ensures
            final(self)@ == old(self)@.flattened(),
    {
        self.panels = gather_panels(&self.columns);
        self.weights =
        if self.columns.len() > 0 {
            copy_weights(&self.columns[0].weights)
        } else {
            Vec::new()
        };
    }

    pub fn sync_weights(&mut self)
        ensures
            final(self)@ == old(self)@.synced(),
    {
        self.ensure_columns();
        sync_strips(&mut self.columns);
        self.sync_flat();
    }

    /// Takes `kind` out of the window.
    pub fn take_out(&mut self, kind: PanelKind)
        ensures
            final(self)@ == old(self)@.without(kind),
    {
        self.ensure_columns();
        take_from_strips(&mut self.columns, kind);
        self.sync_flat();
    }

    /// The panels of the columns, followed by the flat list.
    pub fn panel_list(&self) -> (r: Vec<PanelKind>)
        ensures
            r@ == panels_of(self@.columns) + self@.panels,
    {
        let mut out = gather_panels(&self.columns);
        let mut more = copy_panels(&self.panels);
        out.append(&mut more);
        out
    }

    pub fn contains(&self, kind: PanelKind) -> (r: bool)
        ensures
            r == self@.holds(kind),
    {
        any_holds(&self.columns, kind) || has_panel(&self.panels, kind)
    }
}

} // verus!
