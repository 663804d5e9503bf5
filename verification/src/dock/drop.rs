//! Where a dragged panel would land, and what happens when it is let go.
use vstd::prelude::*;
use crate::dock::column::{DockColumn, DockSide, clamped};
use crate::dock::geometry::{Point, Rect, near, near_i32, opposite, opposite_side};
use crate::dock::host::{Host, columns};
use crate::dock::layout::{
    Arrangement, DockLayout, DragSession, DropTarget, find_host, float_size, host_place, hosts,
};

verus! {

/// How near to an edge of the content area a drop makes a new outer strip.
pub const EDGE: i32 = 36_000;

/// Content areas no larger than this in a direction have no edge zones.
pub const MIN_CONTENT: i32 = 80_000;

/// The first answer that `f` gives on a list, if it gives one.
pub open spec fn first_hit<A>(list: Seq<A>, f: spec_fn(A) -> Option<DropTarget>) -> Option<
    DropTarget,
>
    decreases list.len(),
{
    if list.len() == 0 {
        None
    } else if f(list[0]) is Some {
        f(list[0])
    } else {
        first_hit(list.drop_first(), f)
    }
}

/// The first of two answers.
pub open spec fn or_else(a: Option<DropTarget>, b: Option<DropTarget>) -> Option<DropTarget> {
    if a is Some {
        a
    } else {
        b
    }
}

/// Whether `p` is in the zone along the edge of `rect` on `side`, which is 22
/// hundredths of the extent wide, but at least 14 points and at most 40.
pub open spec fn in_band(rect: Rect, p: Point, side: DockSide) -> bool {
    100 * rect.depth(p, side) <= clamped(22 * rect.across(side), 1_400_000, 4_000_000)
}

fn hits_band(rect: &Rect, p: Point, side: DockSide) -> (r: bool)
    ensures
        r == in_band(*rect, p, side),
{
    let wide: i64 = 22 * rect.extent(side);
    let band: i64 = if wide < 1_400_000 {
        1_400_000
    } else if wide > 4_000_000 {
        4_000_000
    } else {
        wide
    };
    100 * rect.depth_of(p, side) <= band
}

/// The new outer strip for a pointer near an edge of the content area.
pub open spec fn edge_hit(content: Rect, p: Point) -> Option<DropTarget> {
    let upright = content.top <= p.y <= content.bottom;
    let level = content.left <= p.x <= content.right;
    if !(content.right - content.left > MIN_CONTENT && content.bottom - content.top > MIN_CONTENT) {
        None
    } else if content.depth(p, DockSide::Left) <= EDGE && upright {
        Some(DropTarget::NewColumn { side: DockSide::Left, column: 0 })
    } else if content.depth(p, DockSide::Right) <= EDGE && upright {
        Some(DropTarget::NewColumn { side: DockSide::Right, column: 0 })
    } else if content.depth(p, DockSide::Top) <= EDGE && level {
        Some(DropTarget::NewColumn { side: DockSide::Top, column: 0 })
    } else if content.depth(p, DockSide::Bottom) <= EDGE && level {
        Some(DropTarget::NewColumn { side: DockSide::Bottom, column: 0 })
    } else {
        None
    }
}

fn edge_target(content: &Rect, p: Point) -> (r: Option<DropTarget>)
    ensures
        r == edge_hit(*content, p),
{
    let upright: bool = content.top <= p.y && p.y <= content.bottom;
    let level: bool = content.left <= p.x && p.x <= content.right;
    if !(content.extent(DockSide::Left) > MIN_CONTENT as i64 && content.extent(DockSide::Top)
        > MIN_CONTENT as i64) {
        None
    } else if content.depth_of(p, DockSide::Left) <= EDGE as i64 && upright {
        Some(DropTarget::NewColumn { side: DockSide::Left, column: 0 })
    } else if content.depth_of(p, DockSide::Right) <= EDGE as i64 && upright {
        Some(DropTarget::NewColumn { side: DockSide::Right, column: 0 })
    } else if content.depth_of(p, DockSide::Top) <= EDGE as i64 && level {
        Some(DropTarget::NewColumn { side: DockSide::Top, column: 0 })
    } else if content.depth_of(p, DockSide::Bottom) <= EDGE as i64 && level {
        Some(DropTarget::NewColumn { side: DockSide::Bottom, column: 0 })
    } else {
        None
    }
}

/// The new strip for a pointer at the outer or inner zone of a docked strip.
pub open spec fn rail_hit(p: Point) -> spec_fn((DockSide, usize, Rect)) -> Option<DropTarget> {
    |e: (DockSide, usize, Rect)|
        if !e.2.reaches(p, 8_000, 8_000) {
            None
        } else if in_band(e.2, p, e.0) {
            Some(DropTarget::NewColumn { side: e.0, column: e.1 })
        } else if in_band(e.2, p, opposite(e.0)) {
            Some(DropTarget::NewColumn { side: e.0, column: (e.1 + 1) as usize })
        } else {
            None
        }
}

/// The place in a docked strip for a pointer over one of its panels.
pub open spec fn slot_hit(p: Point) -> spec_fn((DockSide, usize, usize, Rect)) -> Option<DropTarget> {
    |e: (DockSide, usize, usize, Rect)|
        if !e.3.reaches(p, 8_000, 4_000) {
            None
        } else {
            let before = if e.0.vertical() {
                2 * p.y < e.3.top + e.3.bottom
            } else {
                2 * p.x < e.3.left + e.3.right
            };
            Some(
                DropTarget::Insert {
                    side: e.0,
                    column: e.1,
                    index: if before {
                        e.2
                    } else {
                        (e.2 + 1) as usize
                    },
                },
            )
        }
}

/// The end of a docked strip for a pointer over the strip.
pub open spec fn strip_hit(a: Arrangement, p: Point) -> spec_fn((DockSide, usize, Rect)) -> Option<
    DropTarget,
> {
    |e: (DockSide, usize, Rect)|
        if !e.2.reaches(p, 6_000, 6_000) {
            None
        } else {
            let cols = a.strips(e.0);
            Some(
                DropTarget::Insert {
                    side: e.0,
                    column: e.1,
                    index: if e.1 < cols.len() {
                        cols[e.1 as int].panels.len() as usize
                    } else {
                        0
                    },
                },
            )
        }
}

/// The new column of a window for a pointer at an outer zone of one of its
/// columns.
pub open spec fn float_rail_hit(p: Point, skip: Option<u64>) -> spec_fn(
    (u64, usize, Rect),
) -> Option<DropTarget> {
    |e: (u64, usize, Rect)|
        if skip == Some(e.0) || !e.2.reaches(p, 8_000, 8_000) {
            None
        } else if in_band(e.2, p, DockSide::Left) {
            Some(DropTarget::JoinNewColumn { host_id: e.0, column: e.1 })
        } else if in_band(e.2, p, DockSide::Right) {
            Some(DropTarget::JoinNewColumn { host_id: e.0, column: (e.1 + 1) as usize })
        } else {
            None
        }
}

/// The place in a column of a window for a pointer over one of its panels.
pub open spec fn float_slot_hit(p: Point, skip: Option<u64>) -> spec_fn(
    (u64, usize, usize, Rect),
) -> Option<DropTarget> {
    |e: (u64, usize, usize, Rect)|
        if skip == Some(e.0) || !e.3.reaches(p, 8_000, 4_000) {
            None
        } else {
            Some(
                DropTarget::JoinInsert {
                    host_id: e.0,
                    column: e.1,
                    index: if 2 * p.y < e.3.top + e.3.bottom {
                        e.2
                    } else {
                        (e.2 + 1) as usize
                    },
                },
            )
        }
}

/// How many panels a column of a window has; 0 where there is no such column.
pub open spec fn host_column_len(list: Seq<Host>, id: u64, column: usize) -> usize {
    let i = host_place(list, id);
    if i < list.len() && column < list[i].columns.len() {
        list[i].columns[column as int].panels.len() as usize
    } else {
        0
    }
}

/// The end of a column of a window for a pointer over the column.
pub open spec fn float_column_hit(a: Arrangement, p: Point, skip: Option<u64>) -> spec_fn(
    (u64, usize, Rect),
) -> Option<DropTarget> {
    |e: (u64, usize, Rect)|
        if skip == Some(e.0) || !e.2.reaches(p, 6_000, 6_000) {
            None
        } else {
            Some(
                DropTarget::JoinInsert {
                    host_id: e.0,
                    column: e.1,
                    index: host_column_len(a.hosts, e.0, e.1),
                },
            )
        }
}

impl DockLayout {
    /// A place in the main window as a place on the screen.
    pub open spec fn on_screen(self, p: Point) -> Point {
        match (self.main_inner, self.main_outer) {
            (Some(inner), Some(outer)) => Point {
                x: near(outer.left + (p.x - inner.left)),
                y: near(outer.top + (p.y - inner.top)),
            },
            _ => p,
        }
    }

    /// A place on the screen as a place in the main window.
    pub open spec fn in_main(self, p: Point) -> Point {
        match (self.main_inner, self.main_outer) {
            (Some(inner), Some(outer)) => Point {
                x: near(inner.left + (p.x - outer.left)),
                y: near(inner.top + (p.y - outer.top)),
            },
            _ => p,
        }
    }

    /// Whether a place on the screen is over the main window or just beside it.
    pub open spec fn over_main(self, p: Point) -> bool {
        self.main_outer is Some && self.main_outer->0.reaches(p, 12_000, 12_000)
    }

    /// What the main window offers for a pointer: an edge, then the zones of
    /// the strips, then the panels, then the strips.
    pub open spec fn main_hit(self, p: Point) -> Option<DropTarget> {
        or_else(
            match self.content_rect {
                Some(content) => edge_hit(content, p),
                None => None,
            },
            or_else(
                first_hit(self.column_rects@, rail_hit(p)),
                or_else(
                    first_hit(self.slot_rects@, slot_hit(p)),
                    first_hit(self.column_rects@, strip_hit(self@, p)),
                ),
            ),
        )
    }

    /// What the detached windows offer, in the same order.
    pub open spec fn float_hit(self, p: Point, skip: Option<u64>) -> Option<DropTarget> {
        or_else(
            first_hit(self.float_column_rects@, float_rail_hit(p, skip)),
            or_else(
                first_hit(self.float_slot_rects@, float_slot_hit(p, skip)),
                first_hit(self.float_column_rects@, float_column_hit(self@, p, skip)),
            ),
        )
    }

    /// Where a panel dropped at `screen` goes.
    pub open spec fn landing(self, screen: Point, skip: Option<u64>) -> DropTarget {
        let hit = or_else(
            if self.over_main(screen) {
                self.main_hit(self.in_main(screen))
            } else {
                None
            },
            self.float_hit(screen, skip),
        );
        match hit {
            Some(target) => target,
            None => DropTarget::Float,
        }
    }

    /// Every measured strip and panel has a successor index.
    pub open spec fn countable(self) -> bool {
        &&& forall|i: int|
            0 <= i < self.column_rects@.len() ==> (#[trigger] self.column_rects@[i]).1 < usize::MAX
        &&& forall|i: int|
            0 <= i < self.slot_rects@.len() ==> (#[trigger] self.slot_rects@[i]).2 < usize::MAX
        &&& forall|i: int|
            0 <= i < self.float_column_rects@.len() ==> (#[trigger] self.float_column_rects@[i]).1
                < usize::MAX
        &&& forall|i: int|
            0 <= i < self.float_slot_rects@.len() ==> (#[trigger] self.float_slot_rects@[i]).2
                < usize::MAX
    }

    pub fn to_screen(&self, p: Point) -> (r: Point)
        ensures
            r == self.on_screen(p),
    {
        match (self.main_inner, self.main_outer) {
            (Some(inner), Some(outer)) => Point {
                x: near_i32(outer.left as i64 + (p.x as i64 - inner.left as i64)),
                y: near_i32(outer.top as i64 + (p.y as i64 - inner.top as i64)),
            },
            _ => p,
        }
    }

    pub fn to_main_local(&self, p: Point) -> (r: Point)
        ensures
            r == self.in_main(p),
    {
        match (self.main_inner, self.main_outer) {
            (Some(inner), Some(outer)) => Point {
                x: near_i32(inner.left as i64 + (p.x as i64 - outer.left as i64)),
                y: near_i32(inner.top as i64 + (p.y as i64 - outer.top as i64)),
            },
            _ => p,
        }
    }

    fn rail_target(&self, p: Point) -> (r: Option<DropTarget>)
        requires
            self.countable(),
        ensures
            r == first_hit(self.column_rects@, rail_hit(p)),
    {
        let n: usize = self.column_rects.len();
        let mut i: usize = 0;
        let ghost list = self.column_rects@;
        assert(list.skip(0) =~= list);
        while i < n
            invariant
                i <= n,
                n == self.column_rects.len(),
                self.countable(),
                list == self.column_rects@,
                first_hit(list, rail_hit(p)) == first_hit(list.skip(i as int), rail_hit(p)),
            decreases n - i,
        {
            let (side, column, rect) = self.column_rects[i];
            assert(list.skip(i as int)[0] == list[i as int]);
            if rect.within(p, 8_000, 8_000) {
                if hits_band(&rect, p, side) {
                    return Some(DropTarget::NewColumn { side, column });
                }
                if hits_band(&rect, p, opposite_side(side)) {
                    return Some(DropTarget::NewColumn { side, column: column + 1 });
                }
            }
            assert(list.skip(i as int).drop_first() =~= list.skip(i + 1));
            i += 1;
        }
        None
    }

    fn slot_target(&self, p: Point) -> (r: Option<DropTarget>)
        requires
            self.countable(),
        ensures
            r == first_hit(self.slot_rects@, slot_hit(p)),
    {
        let n: usize = self.slot_rects.len();
        let mut i: usize = 0;
        let ghost list = self.slot_rects@;
        assert(list.skip(0) =~= list);
        while i < n
            invariant
                i <= n,
                n == self.slot_rects.len(),
                self.countable(),
                list == self.slot_rects@,
                first_hit(list, slot_hit(p)) == first_hit(list.skip(i as int), slot_hit(p)),
            decreases n - i,
        {
            let (side, column, panel, rect) = self.slot_rects[i];
            assert(list.skip(i as int)[0] == list[i as int]);
            if rect.within(p, 8_000, 4_000) {
                let before: bool = if side.is_vertical() {
                    2 * (p.y as i64) < rect.top as i64 + rect.bottom as i64
                } else {
                    2 * (p.x as i64) < rect.left as i64 + rect.right as i64
                };
                let index: usize = if before {
                    panel
                } else {
                    panel + 1
                };
                return Some(DropTarget::Insert { side, column, index });
            }
            assert(list.skip(i as int).drop_first() =~= list.skip(i + 1));
            i += 1;
        }
        None
    }

    fn strip_target(&self, p: Point) -> (r: Option<DropTarget>)
        ensures
            r == first_hit(self.column_rects@, strip_hit(self@, p)),
    {
        let n: usize = self.column_rects.len();
        let mut i: usize = 0;
        let ghost list = self.column_rects@;
        assert(list.skip(0) =~= list);
        while i < n
            invariant
                i <= n,
                n == self.column_rects.len(),
                list == self.column_rects@,
                first_hit(list, strip_hit(self@, p)) == first_hit(
                    list.skip(i as int),
                    strip_hit(self@, p),
                ),
            decreases n - i,
        {
            let (side, column, rect) = self.column_rects[i];
            assert(list.skip(i as int)[0] == list[i as int]);
            if rect.within(p, 6_000, 6_000) {
                let cols: &Vec<DockColumn> = self.strips(side);
                let index: usize = if column < cols.len() {
                    cols[column].panels.len()
                } else {
                    0
                };
                return Some(DropTarget::Insert { side, column, index });
            }
            assert(list.skip(i as int).drop_first() =~= list.skip(i + 1));
            i += 1;
        }
        None
    }

    fn float_rail_target(&self, p: Point, skip: Option<u64>) -> (r: Option<DropTarget>)
        requires
            self.countable(),
        ensures
            r == first_hit(self.float_column_rects@, float_rail_hit(p, skip)),
    {
        let n: usize = self.float_column_rects.len();
        let mut i: usize = 0;
        let ghost list = self.float_column_rects@;
        let ghost f = float_rail_hit(p, skip);
        assert(list.skip(0) =~= list);
        while i < n
            invariant
                i <= n,
                n == self.float_column_rects.len(),
                self.countable(),
                list == self.float_column_rects@,
                f == float_rail_hit(p, skip),
                first_hit(list, f) == first_hit(list.skip(i as int), f),
            decreases n - i,
        {
            let (host_id, column, rect) = self.float_column_rects[i];
            assert(list.skip(i as int)[0] == list[i as int]);
            let skipped: bool = match skip {
                Some(id) => id == host_id,
                None => false,
            };
            if !skipped && rect.within(p, 8_000, 8_000) {
                if hits_band(&rect, p, DockSide::Left) {
                    return Some(DropTarget::JoinNewColumn { host_id, column });
                }
                if hits_band(&rect, p, DockSide::Right) {
                    return Some(DropTarget::JoinNewColumn { host_id, column: column + 1 });
                }
            }
            assert(list.skip(i as int).drop_first() =~= list.skip(i + 1));
            i += 1;
        }
        None
    }

    fn float_slot_target(&self, p: Point, skip: Option<u64>) -> (r: Option<DropTarget>)
        requires
            self.countable(),
        ensures
            r == first_hit(self.float_slot_rects@, float_slot_hit(p, skip)),
    {
        let n: usize = self.float_slot_rects.len();
        let mut i: usize = 0;
        let ghost list = self.float_slot_rects@;
        let ghost f = float_slot_hit(p, skip);
        assert(list.skip(0) =~= list);
        while i < n
            invariant
                i <= n,
                n == self.float_slot_rects.len(),
                self.countable(),
                list == self.float_slot_rects@,
                f == float_slot_hit(p, skip),
                first_hit(list, f) == first_hit(list.skip(i as int), f),
            decreases n - i,
        {
            let (host_id, column, panel, rect) = self.float_slot_rects[i];
            assert(list.skip(i as int)[0] == list[i as int]);
            let skipped: bool = match skip {
                Some(id) => id == host_id,
                None => false,
            };
            if !skipped && rect.within(p, 8_000, 4_000) {
                let index: usize = if 2 * (p.y as i64) < rect.top as i64 + rect.bottom as i64 {
                    panel
                } else {
                    panel + 1
                };
                return Some(DropTarget::JoinInsert { host_id, column, index });
            }
            assert(list.skip(i as int).drop_first() =~= list.skip(i + 1));
            i += 1;
        }
        None
    }

    fn float_column_target(&self, p: Point, skip: Option<u64>) -> (r: Option<DropTarget>)
        ensures
            r == first_hit(self.float_column_rects@, float_column_hit(self@, p, skip)),
    {
        let n: usize = self.float_column_rects.len();
        let mut i: usize = 0;
        let ghost list = self.float_column_rects@;
        let ghost f = float_column_hit(self@, p, skip);
        assert(list.skip(0) =~= list);
        while i < n
            invariant
                i <= n,
                n == self.float_column_rects.len(),
                list == self.float_column_rects@,
                f == float_column_hit(self@, p, skip),
                first_hit(list, f) == first_hit(list.skip(i as int), f),
            decreases n - i,
        {
            let (host_id, column, rect) = self.float_column_rects[i];
            assert(list.skip(i as int)[0] == list[i as int]);
            let skipped: bool = match skip {
                Some(id) => id == host_id,
                None => false,
            };
            if !skipped && rect.within(p, 6_000, 6_000) {
                let index: usize = match find_host(&self.float_hosts, host_id) {
                    Some(k) => {
                        if column < self.float_hosts[k].columns.len() {
                            self.float_hosts[k].columns[column].panels.len()
                        } else {
                            0
                        }
                    },
                    None => 0,
                };
                return Some(DropTarget::JoinInsert { host_id, column, index });
            }
            assert(list.skip(i as int).drop_first() =~= list.skip(i + 1));
            i += 1;
        }
        None
    }

    fn main_target(&self, p: Point) -> (r: Option<DropTarget>)
        requires
            self.countable(),
        ensures
            r == self.main_hit(p),
    {
        let edge: Option<DropTarget> = match self.content_rect {
            Some(content) => edge_target(&content, p),
            None => None,
        };
        if edge.is_some() {
            return edge;
        }
        let rail = self.rail_target(p);
        if rail.is_some() {
            return rail;
        }
        let slot = self.slot_target(p);
        if slot.is_some() {
            return slot;
        }
        self.strip_target(p)
    }

    /// Sets the drop target for a pointer on the screen; `skip_host` is the
    /// window being moved itself.
    pub fn update_drop_from_screen(&mut self, screen: Point, skip_host: Option<u64>)
        requires
            old(self).countable(),
        ensures
            *final(self) == (DockLayout {
                last_pointer_screen: Some(screen),
                drop_target: if old(self).drag is Some {
                    Some(old(self).landing(screen, skip_host))
                } else {
                    None
                },
                ..*old(self)
            }),
    {
        self.last_pointer_screen = Some(screen);
        if self.drag.is_none() {
            self.drop_target = None;
            return;
        }
        let over: bool = match self.main_outer {
            Some(outer) => outer.within(screen, 12_000, 12_000),
            None => false,
        };
        if over {
            let pointer = self.to_main_local(screen);
            let hit = self.main_target(pointer);
            if hit.is_some() {
                self.drop_target = hit;
                return;
            }
        }
        let rail = self.float_rail_target(screen, skip_host);
        if rail.is_some() {
            self.drop_target = rail;
            return;
        }
        let slot = self.float_slot_target(screen, skip_host);
        if slot.is_some() {
            self.drop_target = slot;
            return;
        }
        let column = self.float_column_target(screen, skip_host);
        if column.is_some() {
            self.drop_target = column;
            return;
        }
        self.drop_target = Some(DropTarget::Float);
    }

    /// Sets the drop target for a pointer in the main window.
    pub fn update_drop_from_pointer(&mut self, pointer: Point)
        requires
            old(self).countable(),
        ensures
            *final(self) == (DockLayout {
                last_pointer_screen: Some(old(self).on_screen(pointer)),
                drop_target: if old(self).drag is Some {
                    Some(old(self).landing(old(self).on_screen(pointer), None))
                } else {
                    None
                },
                ..*old(self)
            }),
    {
        let screen = self.to_screen(pointer);
        self.update_drop_from_screen(screen, None);
    }
}

/// Where a panel let go at `screen` opens a window.
pub open spec fn float_pos(screen: Point) -> Point {
    Point { x: near(screen.x - 40_000), y: near(screen.y - 12_000) }
}

impl DockLayout {
    /// Whether letting the dragged panel go over nothing gives it a window of
    /// its own: from a window, where other panels stay behind; from elsewhere,
    /// where no window shows it already.
    pub open spec fn floats_free(self, drag: DragSession) -> bool {
        match drag.from_host {
            Some(id) => {
                let i = host_place(self@.hosts, id);
                i < self@.hosts.len() && self@.hosts[i].panels.len() > 1
            },
            None => forall|i: int|
                0 <= i < self@.hosts.len() ==> !(#[trigger] self@.hosts[i].holds(drag.kind)),
        }
    }

    /// The arrangement after the drag ended.
    pub open spec fn dropped(self, drag: DragSession, target: DropTarget) -> Arrangement {
        let a = self@;
        match target {
            DropTarget::Insert { side, column, index } => a.inserted(
                drag.kind,
                side,
                column as int,
                index as int,
            ),
            DropTarget::NewColumn { side, column } => a.inserted_new(
                drag.kind,
                side,
                column as int,
            ),
            DropTarget::JoinInsert { host_id, column, index } => a.joined(
                drag.kind,
                host_id,
                column as int,
                index as int,
            ),
            DropTarget::JoinNewColumn { host_id, column } => a.joined_new(
                drag.kind,
                host_id,
                column as int,
            ),
            DropTarget::Float => {
                if self.floats_free(drag) {
                    let screen = match self.last_pointer_screen {
                        Some(p) => p,
                        None => self.on_screen(drag.pointer),
                    };
                    a.undocked(drag.kind, float_pos(screen), float_size())
                } else {
                    a
                }
            },
        }
    }

    fn can_float_free(&self, drag: &DragSession) -> (r: bool)
        ensures
            r == self.floats_free(*drag),
    {
        match drag.from_host {
            Some(id) => match find_host(&self.float_hosts, id) {
                Some(i) => {
                    assert(self@.hosts[i as int] == self.float_hosts@[i as int]@);
                    self.float_hosts[i].panels.len() > 1
                },
                None => false,
            },
            None => {
                let n: usize = self.float_hosts.len();
                let mut i: usize = 0;
                while i < n
                    invariant
                        i <= n,
                        n == self.float_hosts.len(),
                        drag.from_host is None,
                        forall|j: int| 0 <= j < i ==> !(#[trigger] self@.hosts[j].holds(drag.kind)),
                    decreases n - i,
                {
                    if self.float_hosts[i].contains(drag.kind) {
                        assert(self@.hosts[i as int].holds(drag.kind));
                        return false;
                    }
                    i += 1;
                }
                true
            },
        }
    }

    /// Ends the drag: the panel goes to the drop target. False where nothing
    /// was dragged.
    pub fn finish_drag(&mut self) -> (r: bool)
        requires
            old(self).next_float_id < u64::MAX,
        ensures
            r == (old(self).drag is Some),
            final(self).same_tracking(
                DockLayout { drag: None, drop_target: None, ..*old(self) },
            ),
            match old(self).drag {
                Some(drag) => final(self)@ == old(self).dropped(
                    drag,
                    match old(self).drop_target {
                        Some(target) => target,
                        None => DropTarget::Float,
                    },
                ),
                None => final(self)@ == old(self)@,
            },
    {
        let drag: DragSession = match self.drag {
            Some(drag) => drag,
            None => {
                self.drop_target = None;
                return false;
            },
        };
        let target: DropTarget = match self.drop_target {
            Some(target) => target,
            None => DropTarget::Float,
        };
        let free: bool = self.can_float_free(&drag);
        let screen: Point = match self.last_pointer_screen {
            Some(p) => p,
            None => self.to_screen(drag.pointer),
        };
        self.drag = None;
        self.drop_target = None;
        match target {
            DropTarget::Insert { side, column, index } => {
                self.insert(drag.kind, side, column, index);
            },
            DropTarget::NewColumn { side, column } => {
                self.insert_new_column(drag.kind, side, column);
            },
            DropTarget::JoinInsert { host_id, column, index } => {
                self.join_into_host(drag.kind, host_id, column, index);
            },
            DropTarget::JoinNewColumn { host_id, column } => {
                self.join_new_column_in_host(drag.kind, host_id, column);
            },
            DropTarget::Float => {
                if free {
                    let pos = Point {
                        x: near_i32(screen.x as i64 - 40_000),
                        y: near_i32(screen.y as i64 - 12_000),
                    };
                    self.undock_at(drag.kind, pos, Point { x: 280_000, y: 360_000 });
                }
            },
        }
        true
    }

    /// Starts a frame: what the last one measured is forgotten, and so is the
    /// drop target unless a panel is being dragged.
    pub fn begin_frame(&mut self, content: Rect, inner: Option<Rect>, outer: Option<Rect>)
        ensures
            final(self)@ == old(self)@,
            final(self).drag == old(self).drag,
            final(self).drop_target == (if old(self).drag is Some {
                old(self).drop_target
            } else {
                None
            }),
            final(self).content_rect == Some(content),
            final(self).main_inner == inner,
            final(self).main_outer == outer,
            final(self).slot_rects@.len() == 0,
            final(self).column_rects@.len() == 0,
            final(self).float_host_rects@.len() == 0,
            final(self).float_column_rects@.len() == 0,
            final(self).float_slot_rects@.len() == 0,
            final(self).host_move == old(self).host_move,
            final(self).last_pointer_screen == old(self).last_pointer_screen,
            final(self).hug_content_h == old(self).hug_content_h,
    {
        self.slot_rects.clear();
        self.column_rects.clear();
        self.float_host_rects.clear();
        self.float_column_rects.clear();
        self.float_slot_rects.clear();
        self.content_rect = Some(content);
        self.main_inner = inner;
        self.main_outer = outer;
        if self.drag.is_none() {
            self.drop_target = None;
        }
    }
}

} // verus!
