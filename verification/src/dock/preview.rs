//! What is drawn while a panel is dragged, and how a drag starts and goes on.
use vstd::prelude::*;
use crate::dock::column::{DockSide, PanelKind};
use crate::dock::geometry::{Point, Rect, near, near_i32};
use crate::dock::host::{columns, panels_of};
use crate::dock::layout::{
    Arrangement, DockLayout, DragSession, DropTarget, HostMove, find_host, float_size, host_place,
};

verus! {

/// A mark for the place that a dragged panel would take.
#[derive(Clone, Copy, Debug, PartialEq, Eq, Structural)]
pub enum Preview {
    /// A labelled box at the pointer.
    Float { area: Rect },
    /// A filled rail: a new column, or a new row.
    Rail { area: Rect, row: bool },
    /// A line between panels, and the strip around it.
    Line { line: Rect, strip: Rect },
}

pub open spec fn rect(left: int, top: int, right: int, bottom: int) -> Rect {
    Rect { left: near(left), top: near(top), right: near(right), bottom: near(bottom) }
}

pub fn make_rect(left: i64, top: i64, right: i64, bottom: i64) -> (r: Rect)
    ensures
        r == rect(left as int, top as int, right as int, bottom as int),
{
    Rect {
        left: near_i32(left),
        top: near_i32(top),
        right: near_i32(right),
        bottom: near_i32(bottom),
    }
}

/// The part of `r` along the edge on `side` that is `depth` wide.
pub open spec fn edge_part(r: Rect, side: DockSide, depth: int) -> Rect {
    match side {
        DockSide::Left => rect(r.left as int, r.top as int, r.left + depth, r.bottom as int),
        DockSide::Right => rect(r.right - depth, r.top as int, r.right as int, r.bottom as int),
        DockSide::Top => rect(r.left as int, r.top as int, r.right as int, r.top + depth),
        DockSide::Bottom => rect(r.left as int, r.bottom - depth, r.right as int, r.bottom as int),
    }
}

fn edge_part_of(r: &Rect, side: DockSide, depth: i64) -> (p: Rect)
    requires
        0 <= depth <= 1_000_000_000,
    ensures
        p == edge_part(*r, side, depth as int),
{
    let left: i64 = r.left as i64;
    let top: i64 = r.top as i64;
    let right: i64 = r.right as i64;
    let bottom: i64 = r.bottom as i64;
    match side {
        DockSide::Left => make_rect(left, top, left + depth, bottom),
        DockSide::Right => make_rect(right - depth, top, right, bottom),
        DockSide::Top => make_rect(left, top, right, top + depth),
        DockSide::Bottom => make_rect(left, bottom - depth, right, bottom),
    }
}

/// The zones along the edges of the content area, as they are tinted during a
/// drag.
pub fn edge_rails(content: &Rect) -> (r: (Rect, Rect, Rect, Rect))
    ensures
        r.0 == edge_part(*content, DockSide::Left, 36_000),
        r.1 == edge_part(*content, DockSide::Right, 36_000),
        r.2 == edge_part(*content, DockSide::Top, 28_000),
        r.3 == edge_part(*content, DockSide::Bottom, 28_000),
{
    (
        edge_part_of(content, DockSide::Left, 36_000),
        edge_part_of(content, DockSide::Right, 36_000),
        edge_part_of(content, DockSide::Top, 28_000),
        edge_part_of(content, DockSide::Bottom, 28_000),
    )
}

/// How wide the rail of a new strip is where the side has no such strip.
pub open spec fn rail_depth(side: DockSide) -> int {
    if side.vertical() {
        40_000
    } else {
        36_000
    }
}

/// How wide a strip is taken to be that was not measured.
pub open spec fn strip_depth(side: DockSide) -> int {
    if side.vertical() {
        260_000
    } else {
        140_000
    }
}

/// The place of the first measured strip of that side and index.
pub open spec fn strip_area(
    list: Seq<(DockSide, usize, Rect)>,
    side: DockSide,
    column: usize,
) -> Option<Rect>
    decreases list.len(),
{
    if list.len() == 0 {
        None
    } else if list[0].0 == side && list[0].1 == column {
        Some(list[0].2)
    } else {
        strip_area(list.drop_first(), side, column)
    }
}

/// The place of the first measured panel of that strip and index.
pub open spec fn slot_area(
    list: Seq<(DockSide, usize, usize, Rect)>,
    side: DockSide,
    column: usize,
    index: usize,
) -> Option<Rect>
    decreases list.len(),
{
    if list.len() == 0 {
        None
    } else if list[0].0 == side && list[0].1 == column && list[0].2 == index {
        Some(list[0].3)
    } else {
        slot_area(list.drop_first(), side, column, index)
    }
}

/// The lowest bottom edge among the measured panels of a strip.
pub open spec fn lowest(
    list: Seq<(DockSide, usize, usize, Rect)>,
    side: DockSide,
    column: usize,
) -> Option<i32>
    decreases list.len(),
{
    if list.len() == 0 {
        None
    } else {
        let rest = lowest(list.drop_last(), side, column);
        let e = list.last();
        if e.0 == side && e.1 == column {
            match rest {
                Some(y) => Some(
                    if e.3.bottom > y {
                        e.3.bottom
                    } else {
                        y
                    },
                ),
                None => Some(e.3.bottom),
            }
        } else {
            rest
        }
    }
}

fn half(x: i64) -> (r: i64)
    requires
        -0x1_0000_0000 <= x <= 0x1_0000_0000,
    ensures
        r == x as int / 2,
{
    if x >= 0 {
        x / 2
    } else {
        -((1 - x) / 2)
    }
}

impl DockLayout {
    /// The strip that an insertion is drawn in.
    pub open spec fn target_strip(self, side: DockSide, column: usize) -> Option<Rect> {
        match strip_area(self.column_rects@, side, column) {
            Some(r) => Some(r),
            None => match self.content_rect {
                Some(c) => Some(edge_part(c, side, strip_depth(side))),
                None => None,
            },
        }
    }

    /// The height at which an insertion into a column is drawn: the top of the
    /// panel it goes before, or below the last one.
    pub open spec fn line_y(self, side: DockSide, column: usize, index: usize, strip: Rect) -> int {
        match slot_area(self.slot_rects@, side, column, index) {
            Some(r) => r.top as int,
            None => {
                if index == 0 {
                    strip.top + 8_000
                } else {
                    match lowest(self.slot_rects@, side, column) {
                        Some(y) => y as int,
                        None => (strip.top + strip.bottom) / 2,
                    }
                }
            },
        }
    }

    /// Where an insertion into a row is drawn.
    pub open spec fn line_x(self, side: DockSide, column: usize, index: usize, strip: Rect) -> int {
        match slot_area(self.slot_rects@, side, column, index) {
            Some(r) => r.left as int,
            None => (strip.left + strip.right) / 2,
        }
    }

    /// What the main window draws for the current drop target.
    pub open spec fn preview(self) -> Option<Preview> {
        match (self.drop_target, self.drag) {
            (Some(target), Some(drag)) => match target {
                DropTarget::Float => Some(
                    Preview::Float {
                        area: rect(
                            drag.pointer.x - 70_000,
                            drag.pointer.y - 18_000,
                            drag.pointer.x + 70_000,
                            drag.pointer.y + 18_000,
                        ),
                    },
                ),
                DropTarget::NewColumn { side, column } => match self.content_rect {
                    Some(content) => Some(
                        Preview::Rail {
                            area: match strip_area(self.column_rects@, side, column) {
                                Some(r) => r,
                                None => edge_part(content, side, rail_depth(side)),
                            },
                            row: !side.vertical(),
                        },
                    ),
                    None => None,
                },
                DropTarget::Insert { side, column, index } => match self.target_strip(
                    side,
                    column,
                ) {
                    Some(strip) => Some(
                        Preview::Line {
                            line: if side.vertical() {
                                let y = self.line_y(side, column, index, strip);
                                rect(strip.left + 6_000, y - 3_000, strip.right - 6_000, y + 3_000)
                            } else {
                                let x = self.line_x(side, column, index, strip);
                                rect(x - 3_000, strip.top + 6_000, x + 3_000, strip.bottom - 6_000)
                            },
                            strip,
                        },
                    ),
                    None => None,
                },
                _ => None,
            },
            _ => None,
        }
    }

    fn find_strip(&self, side: DockSide, column: usize) -> (r: Option<Rect>)
        ensures
            r == strip_area(self.column_rects@, side, column),
    {
        let n: usize = self.column_rects.len();
        let ghost list = self.column_rects@;
        let mut i: usize = 0;
        assert(list.skip(0) =~= list);
        while i < n
            invariant
                i <= n,
                n == self.column_rects.len(),
                list == self.column_rects@,
                strip_area(list, side, column) == strip_area(list.skip(i as int), side, column),
            decreases n - i,
        {
            let (s, c, at) = self.column_rects[i];
            if s == side && c == column {
                return Some(at);
            }
            assert(list.skip(i as int).drop_first() =~= list.skip(i + 1));
            i += 1;
        }
        None
    }

    fn find_slot(&self, side: DockSide, column: usize, index: usize) -> (r: Option<Rect>)
        ensures
            r == slot_area(self.slot_rects@, side, column, index),
    {
        let n: usize = self.slot_rects.len();
        let ghost list = self.slot_rects@;
        let mut i: usize = 0;
        assert(list.skip(0) =~= list);
        while i < n
            invariant
                i <= n,
                n == self.slot_rects.len(),
                list == self.slot_rects@,
                slot_area(list, side, column, index) == slot_area(
                    list.skip(i as int),
                    side,
                    column,
                    index,
                ),
            decreases n - i,
        {
            let (s, c, p, at) = self.slot_rects[i];
            if s == side && c == column && p == index {
                return Some(at);
            }
            assert(list.skip(i as int).drop_first() =~= list.skip(i + 1));
            i += 1;
        }
        None
    }

    fn find_lowest(&self, side: DockSide, column: usize) -> (r: Option<i32>)
        ensures
            r == lowest(self.slot_rects@, side, column),
    {
        let n: usize = self.slot_rects.len();
        let ghost list = self.slot_rects@;
        let mut best: Option<i32> = None;
        let mut i: usize = 0;
        while i < n
            invariant
                i <= n,
                n == self.slot_rects.len(),
                list == self.slot_rects@,
                best == lowest(list.take(i as int), side, column),
            decreases n - i,
        {
            let (s, c, p, at) = self.slot_rects[i];
            if s == side && c == column {
                best =
                match best {
                    Some(y) => Some(
                        if at.bottom > y {
                            at.bottom
                        } else {
                            y
                        },
                    ),
                    None => Some(at.bottom),
                };
            }
            i += 1;
            assert(list.take(i as int).drop_last() =~= list.take(i - 1));
            assert(list.take(i as int).last() == list[i - 1]);
        }
        assert(list.take(n as int) =~= list);
        best
    }

    /// The mark that the main window draws for the current drop target.
    pub fn drop_preview(&self) -> (r: Option<Preview>)
        ensures
            r == self.preview(),
    {
        let target: DropTarget = match self.drop_target {
            Some(target) => target,
            None => {
                return None;
            },
        };
        let drag: DragSession = match self.drag {
            Some(drag) => drag,
            None => {
                return None;
            },
        };
        match target {
            DropTarget::Float => {
                let x: i64 = drag.pointer.x as i64;
                let y: i64 = drag.pointer.y as i64;
                Some(
                    Preview::Float {
                        area: make_rect(x - 70_000, y - 18_000, x + 70_000, y + 18_000),
                    },
                )
            },
            DropTarget::NewColumn { side, column } => match self.content_rect {
                Some(content) => {
                    let area: Rect = match self.find_strip(side, column) {
                        Some(r) => r,
                        None => edge_part_of(
                            &content,
                            side,
                            if side.is_vertical() {
                                40_000
                            } else {
                                36_000
                            },
                        ),
                    };
                    Some(Preview::Rail { area, row: !side.is_vertical() })
                },
                None => None,
            },
            DropTarget::Insert { side, column, index } => {
                let strip: Rect = match self.find_strip(side, column) {
                    Some(r) => r,
                    None => match self.content_rect {
                        Some(content) => edge_part_of(
                            &content,
                            side,
                            if side.is_vertical() {
                                260_000
                            } else {
                                140_000
                            },
                        ),
                        None => {
                            return None;
                        },
                    },
                };
                let left: i64 = strip.left as i64;
                let top: i64 = strip.top as i64;
                let right: i64 = strip.right as i64;
                let bottom: i64 = strip.bottom as i64;
                let slot: Option<Rect> = self.find_slot(side, column, index);
                let line: Rect = if side.is_vertical() {
                    let y: i64 = match slot {
                        Some(r) => r.top as i64,
                        None => {
                            if index == 0 {
                                top + 8_000
                            } else {
                                match self.find_lowest(side, column) {
                                    Some(y) => y as i64,
                                    None => half(top + bottom),
                                }
                            }
                        },
                    };
                    make_rect(left + 6_000, y - 3_000, right - 6_000, y + 3_000)
                } else {
                    let x: i64 = match slot {
                        Some(r) => r.left as i64,
                        None => half(left + right),
                    };
                    make_rect(x - 3_000, top + 6_000, x + 3_000, bottom - 6_000)
                };
                Some(Preview::Line { line, strip })
            },
            _ => None,
        }
    }

    /// Starts dragging a panel.
    pub fn start_drag(
        &mut self,
        kind: PanelKind,
        pointer: Point,
        from_side: Option<DockSide>,
        from_column: Option<usize>,
        from_host: Option<u64>,
    )
        ensures
            *final(self) == (DockLayout {
                drag: Some(DragSession { kind, pointer, from_side, from_column, from_host }),
                ..*old(self)
            }),
    {
        self.drag = Some(DragSession { kind, pointer, from_side, from_column, from_host });
    }

    /// Follows the pointer while the corner of `kind` is held: the drag moves
    /// if it is that panel's, and the drop target is set anew.
    pub fn drag_to(&mut self, kind: PanelKind, pointer: Point)
        requires
            old(self).countable(),
        ensures
            final(self)@ == old(self)@,
            final(self).last_pointer_screen == Some(old(self).on_screen(pointer)),
            match old(self).drag {
                Some(d) => {
                    &&& final(self).drag == Some(
                        if d.kind == kind {
                            DragSession { pointer, ..d }
                        } else {
                            d
                        },
                    )
                    &&& final(self).drop_target == Some(
                        old(self).landing(old(self).on_screen(pointer), None),
                    )
                },
                None => final(self).drag is None && final(self).drop_target is None,
            },
            final(self).same_tracking(
                DockLayout {
                    drag: final(self).drag,
                    drop_target: final(self).drop_target,
                    last_pointer_screen: final(self).last_pointer_screen,
                    ..*old(self)
                },
            ),
    {
        match self.drag {
            Some(d) => {
                if d.kind == kind {
                    self.drag = Some(DragSession { pointer, ..d });
                }
            },
            None => {},
        }
        assert(self.landing(self.on_screen(pointer), None) == old(self).landing(
            old(self).on_screen(pointer),
            None,
        ));
        self.update_drop_from_pointer(pointer);
    }

    /// Floats a panel at a place in the main window.
    pub fn undock_here(&mut self, kind: PanelKind, pos: Point)
        requires
            old(self).next_float_id < u64::MAX,
        ensures
            final(self)@ == old(self)@.undocked(kind, old(self).on_screen(pos), float_size()),
            final(self).same_tracking(*old(self)),
    {
        let screen = self.to_screen(pos);
        self.undock_at(kind, screen, Point { x: 280_000, y: 360_000 });
    }

    /// Starts moving a detached window.
    pub fn start_host_move(&mut self, host_id: u64)
        ensures
            *final(self) == (DockLayout {
                host_move: Some(HostMove { host_id, grab: Point { x: 0, y: 0 }, ready: false }),
                ..*old(self)
            }),
    {
        self.host_move = Some(HostMove { host_id, grab: Point { x: 0, y: 0 }, ready: false });
    }

    /// Hides every panel of a detached window.
    pub fn hide_host(&mut self, host_id: u64)
        ensures
            final(self)@ == ({
                let i = host_place(old(self)@.hosts, host_id);
                if i < old(self)@.hosts.len() {
                    concealed_all(
                        old(self)@,
                        panels_of(old(self)@.hosts[i].columns) + old(self)@.hosts[i].panels,
                    )
                } else {
                    old(self)@
                }
            }),
            final(self).same_tracking(*old(self)),
    {
        match find_host(&self.float_hosts, host_id) {
            Some(i) => {
                let kinds: Vec<PanelKind> = self.float_hosts[i].panel_list();
                let n: usize = kinds.len();
                let mut k: usize = 0;
                assert(kinds@.take(0) =~= Seq::empty());
                while k < n
                    invariant
                        k <= n,
                        n == kinds.len(),
                        self@ == concealed_all(old(self)@, kinds@.take(k as int)),
                        self.same_tracking(*old(self)),
                    decreases n - k,
                {
                    self.hide_panel(kinds[k]);
                    k += 1;
                    assert(kinds@.take(k as int).drop_last() =~= kinds@.take(k - 1));
                }
                assert(kinds@.take(n as int) =~= kinds@);
            },
            None => {},
        }
    }
}

/// The arrangement after hiding the listed panels, one after the other.
pub open spec fn concealed_all(a: Arrangement, kinds: Seq<PanelKind>) -> Arrangement
    decreases kinds.len(),
{
    if kinds.len() == 0 {
        a
    } else {
        concealed_all(a, kinds.drop_last()).concealed(kinds.last())
    }
}

} // verus!
