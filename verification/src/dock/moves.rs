//! Showing, hiding, floating, joining and docking panels.
use vstd::prelude::*;
use crate::dock::column::{Column, DockColumn, DockSide, PanelKind, clamp_i32};
use crate::dock::geometry::Point;
use crate::dock::host::{FloatHost, Host, MIN_HOST_WIDTH, at_least, at_least_i32, columns};
use crate::dock::layout::{
    Arrangement, DockLayout, MAX_HOST_EXTENT, find_host, hosts, panels_except, strip_extent,
};

verus! {

/// Appends `kind` to the first strip, which is made where there is none.
fn append_panel(cols: &mut Vec<DockColumn>, kind: PanelKind, width: i32)
    ensures
        columns(final(cols)@) == Arrangement::appended(columns(old(cols)@), kind, width),
{
    if cols.len() == 0 {
        cols.push(DockColumn::single(kind, width));
    } else {
        cols[0].panels.push(kind);
        cols[0].sync_weights();
    }
    assert(columns(cols@) =~= Arrangement::appended(columns(old(cols)@), kind, width));
}

pub fn new_strip_extent(side: DockSide) -> (r: i32)
    ensures
        r == strip_extent(side),
{
    if side.is_vertical() {
        260_000
    } else {
        140_000
    }
}

pub fn no_larger(x: usize, n: usize) -> (r: usize)
    ensures
        r == if x < n { x } else { n },
{
    if x < n {
        x
    } else {
        n
    }
}

impl FloatHost {
    /// Puts `kind` into a column of the window.
    pub fn join(&mut self, kind: PanelKind, column: usize, index: usize)
        ensures
            final(self)@ == old(self)@.joined(kind, column as int, index as int),
    {
        self.ensure_columns();
        let ghost h = self@;
        if self.columns.len() == 0 {
            self.columns.push(
                DockColumn::single(kind, at_least_i32(self.size.x, MIN_HOST_WIDTH)),
            );
            assert(self@.columns =~= seq![
                Column::fresh(seq![kind], at_least(h.size.x, MIN_HOST_WIDTH)),
            ]);
        } else {
            let c: usize = no_larger(column, self.columns.len() - 1);
            self.columns[c].put_in(kind, index);
            assert(self@.columns =~= h.columns.update(c as int, h.columns[c as int].with(kind, index as int)));
        }
        self.sync_flat();
    }

    /// Puts `kind` into a new column of the window.
    pub fn join_new(&mut self, kind: PanelKind, column: usize)
        ensures
            final(self)@ == old(self)@.joined_new(kind, column as int),
    {
        self.ensure_columns();
        let ghost h = self@;
        let i: usize = no_larger(column, self.columns.len());
        let base: i32 = at_least_i32(self.size.x, MIN_HOST_WIDTH);
        let w: i32 = if base < 200_000 {
            base
        } else {
            200_000
        };
        self.columns.insert(i, DockColumn::single(kind, w));
        assert(self@.columns =~= h.columns.insert(i as int, Column::fresh(seq![kind], w)));
        let sum: i64 = self.size.x as i64 + w as i64;
        let x: i32 = if sum < MIN_HOST_WIDTH as i64 {
            MIN_HOST_WIDTH
        } else if sum > MAX_HOST_EXTENT as i64 {
            MAX_HOST_EXTENT
        } else {
            sum as i32
        };
        self.size = Point { x, y: self.size.y };
        self.sync_flat();
    }
}

impl DockLayout {
    /// Brings a hidden panel back to its home side.
    pub fn show_panel(&mut self, kind: PanelKind)
        ensures
            final(self)@ == old(self)@.shown(kind),
            final(self).same_tracking(*old(self)),
    {
        if self.is_visible(kind) {
            return;
        }
        self.hidden = panels_except(&self.hidden, kind);
        match kind {
            PanelKind::Color | PanelKind::Tools | PanelKind::Brush => {
                append_panel(&mut self.left_columns, kind, 270_000);
            },
            PanelKind::Navigator | PanelKind::Layers => {
                append_panel(&mut self.right_columns, kind, 260_000);
            },
        }
    }

    /// Takes a panel away and remembers it as hidden.
    pub fn hide_panel(&mut self, kind: PanelKind)
        ensures
            final(self)@ == old(self)@.concealed(kind),
            final(self).same_tracking(*old(self)),
    {
        self.remove_from_all(kind);
        self.hidden.push(kind);
    }

    pub fn set_visible(&mut self, kind: PanelKind, visible: bool)
        ensures
            final(self)@ == (if visible {
                old(self)@.shown(kind)
            } else {
                old(self)@.concealed(kind)
            }),
            final(self).same_tracking(*old(self)),
    {
        if visible {
            self.show_panel(kind);
        } else {
            self.hide_panel(kind);
        }
    }

    /// A new id for a detached window.
    pub fn alloc_float_id(&mut self) -> (r: u64)
        requires
            old(self).next_float_id < u64::MAX,
        ensures
            r == old(self)@.free_id(),
            final(self)@ == (Arrangement { next_id: (r + 1) as u64, ..old(self)@ }),
            final(self).same_tracking(*old(self)),
    {
        if self.next_float_id == 0 {
            self.next_float_id = 1;
        }
        let id: u64 = self.next_float_id;
        self.next_float_id = id + 1;
        id
    }

    /// Gives a panel a window of its own.
    pub fn undock_at(&mut self, kind: PanelKind, pos: Point, size: Point)
        requires
            old(self).next_float_id < u64::MAX,
        ensures
            final(self)@ == old(self)@.undocked(kind, pos, size),
            final(self).same_tracking(*old(self)),
    {
        self.remove_from_all(kind);
        let id: u64 = self.alloc_float_id();
        let ghost before = self@.hosts;
        self.float_hosts.push(FloatHost::single(id, kind, pos, size));
        assert(self@.hosts =~= before.push(Host::fresh(id, kind, pos, size)));
    }

    /// Puts a panel into a column of a detached window.
    pub fn join_into_host(&mut self, kind: PanelKind, host_id: u64, column: usize, index: usize)
        requires
            old(self).next_float_id < u64::MAX,
        ensures
            final(self)@ == old(self)@.joined(kind, host_id, column as int, index as int),
            final(self).same_tracking(*old(self)),
    {
        self.remove_from_all(kind);
        let ghost a = self@;
        match find_host(&self.float_hosts, host_id) {
            Some(i) => {
                self.float_hosts[i].join(kind, column, index);
                assert(self@.hosts =~= a.hosts.update(
                    i as int,
                    a.hosts[i as int].joined(kind, column as int, index as int),
                ));
            },
            None => {
                self.undock_at(
                    kind,
                    Point { x: 80_000, y: 80_000 },
                    Point { x: 280_000, y: 360_000 },
                );
            },
        }
    }

    /// Puts a panel into a new column of a detached window.
    pub fn join_new_column_in_host(&mut self, kind: PanelKind, host_id: u64, column: usize)
        requires
            old(self).next_float_id < u64::MAX,
        ensures
            final(self)@ == old(self)@.joined_new(kind, host_id, column as int),
            final(self).same_tracking(*old(self)),
    {
        self.remove_from_all(kind);
        let ghost a = self@;
        match find_host(&self.float_hosts, host_id) {
            Some(i) => {
                self.float_hosts[i].join_new(kind, column);
                assert(self@.hosts =~= a.hosts.update(
                    i as int,
                    a.hosts[i as int].joined_new(kind, column as int),
                ));
            },
            None => {
                self.undock_at(
                    kind,
                    Point { x: 80_000, y: 80_000 },
                    Point { x: 280_000, y: 360_000 },
                );
            },
        }
    }

    /// Docks the columns of a detached window to a side.
    pub fn dock_host_as_strip(&mut self, host_id: u64, side: DockSide, column: usize)
        ensures
            final(self)@ == old(self)@.host_docked(host_id, side, column as int),
            final(self).same_tracking(*old(self)),
    {
        let k: usize = match find_host(&self.float_hosts, host_id) {
            Some(k) => k,
            None => {
                return;
            },
        };
        let host = self.float_hosts.remove(k);
        let ghost h = old(self)@.hosts[k as int];
        assert(host@ == h);
        assert(self@.hosts =~= old(self)@.hosts.remove(k as int));
        let ghost strips = h.as_strips(side);
        let mut cols: Vec<DockColumn> = if host.columns.len() == 0 {
            let extent: i32 = if side.is_vertical() {
                clamp_i32(host.size.x, 52_000, 480_000)
            } else {
                clamp_i32(host.size.y, 56_000, 360_000)
            };
            let mut col = DockColumn { panels: host.panels, width: extent, weights: host.weights };
            col.sync_weights();
            let mut one: Vec<DockColumn> = Vec::new();
            one.push(col);
            assert(columns(one@) =~= strips);
            one
        } else {
            host.columns
        };
        let ghost a = self@;
        let dest = self.strips_mut(side);
        let i: usize = no_larger(column, dest.len());
        let ghost before = columns(dest@);
        let mut rest = dest.split_off(i);
        dest.append(&mut cols);
        dest.append(&mut rest);
        assert(columns(dest@) =~= before.take(i as int) + strips + before.skip(i as int));
        proof {
            let now = before.take(i as int) + strips + before.skip(i as int);
            assert(a.with_strips(side, now) == old(self)@.host_docked(
                host_id,
                side,
                column as int,
            ));
        }
    }

    /// Puts a panel into a docked strip.
    pub fn insert(&mut self, kind: PanelKind, side: DockSide, column: usize, index: usize)
        ensures
            final(self)@ == old(self)@.inserted(kind, side, column as int, index as int),
            final(self).same_tracking(*old(self)),
    {
        self.remove_from_all(kind);
        let extent: i32 = new_strip_extent(side);
        let cols = self.strips_mut(side);
        let ghost before = columns(cols@);
        if cols.len() == 0 {
            cols.push(DockColumn::single(kind, extent));
            assert(columns(cols@) =~= seq![Column::fresh(seq![kind], extent)]);
        } else {
            let c: usize = no_larger(column, cols.len() - 1);
            cols[c].put_in(kind, index);
            assert(columns(cols@) =~= before.update(
                c as int,
                before[c as int].with(kind, index as int),
            ));
        }
    }

    /// Puts a panel into a new strip of a side.
    pub fn insert_new_column(&mut self, kind: PanelKind, side: DockSide, column: usize)
        ensures
            final(self)@ == old(self)@.inserted_new(kind, side, column as int),
            final(self).same_tracking(*old(self)),
    {
        self.remove_from_all(kind);
        let extent: i32 = new_strip_extent(side);
        let cols = self.strips_mut(side);
        let ghost before = columns(cols@);
        let i: usize = no_larger(column, cols.len());
        cols.insert(i, DockColumn::single(kind, extent));
        assert(columns(cols@) =~= before.insert(i as int, Column::fresh(seq![kind], extent)));
    }

    /// Moves a whole strip to a side.
    pub fn move_column(
        &mut self,
        side: DockSide,
        column: usize,
        to_side: DockSide,
        to_index: usize,
    )
        ensures
            final(self)@ == old(self)@.column_moved(
                side,
                column as int,
                to_side,
                to_index as int,
            ),
            final(self).same_tracking(*old(self)),
    {
        let from = self.strips_mut(side);
        let ghost before = columns(from@);
        if column >= from.len() {
            return;
        }
        let col = from.remove(column);
        assert(columns(from@) =~= before.remove(column as int));
        assert(col@ == before[column as int]);
        let ghost a = old(self)@.with_strips(side, before.remove(column as int));
        assert(self@ == a);
        let dest = self.strips_mut(to_side);
        let ghost there = columns(dest@);
        let i: usize = no_larger(to_index, dest.len());
        dest.insert(i, col);
        assert(columns(dest@) =~= there.insert(i as int, before[column as int]));
    }
}

} // verus!
