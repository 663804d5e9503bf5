//! What a detached host draws while a panel is dragged over it.
use vstd::prelude::*;
use crate::dock::geometry::Rect;
use crate::dock::layout::{DockLayout, DropTarget};
use crate::dock::preview::{Preview, make_rect, rect};

verus! {

/// The place of the first measured column of that index.
pub open spec fn column_area(list: Seq<(usize, Rect)>, column: usize) -> Option<Rect>
    decreases list.len(),
{
    if list.len() == 0 {
        None
    } else if list[0].0 == column {
        Some(list[0].1)
    } else {
        column_area(list.drop_first(), column)
    }
}

/// The place of the first measured panel of that column and index.
pub open spec fn panel_area(
    list: Seq<(usize, usize, Rect)>,
    column: usize,
    index: usize,
) -> Option<Rect>
    decreases list.len(),
{
    if list.len() == 0 {
        None
    } else if list[0].0 == column && list[0].1 == index {
        Some(list[0].2)
    } else {
        panel_area(list.drop_first(), column, index)
    }
}

/// The lowest bottom edge among the measured panels of a column, at least `y`.
pub open spec fn lowest_from(list: Seq<(usize, usize, Rect)>, column: usize, y: int) -> int
    decreases list.len(),
{
    if list.len() == 0 {
        y
    } else {
        let rest = lowest_from(list.drop_last(), column, y);
        let e = list.last();
        if e.0 == column && e.2.bottom > rest {
            e.2.bottom as int
        } else {
            rest
        }
    }
}

/// How wide the rail of a new column is: 22 hundredths of a column, from 14 to
/// 40 points.
pub open spec fn rail_width(r: Rect) -> int {
    let wide = 22 * (r.right - r.left) / 100;
    if wide < 14_000 {
        14_000
    } else if wide > 40_000 {
        40_000
    } else {
        wide
    }
}

impl DockLayout {
    /// What a host draws for the current drop target: a rail along the column
    /// that a new one goes before, or behind the last column; a line above the
    /// panel that the dragged one goes before, or below the last panel.
    pub open spec fn float_preview(
        self,
        host: u64,
        cols: Seq<(usize, Rect)>,
        slots: Seq<(usize, usize, Rect)>,
    ) -> Option<Preview> {
        match self.drop_target {
            Some(DropTarget::JoinNewColumn { host_id, column }) => if host_id != host {
                None
            } else {
                match column_area(cols, column) {
                    Some(r) => Some(
                        Preview::Rail {
                            area: rect(
                                r.left as int,
                                r.top as int,
                                r.left + rail_width(r),
                                r.bottom as int,
                            ),
                            row: false,
                        },
                    ),
                    None => if cols.len() == 0 {
                        None
                    } else {
                        let r = cols.last().1;
                        Some(
                            Preview::Rail {
                                area: rect(
                                    r.right - rail_width(r),
                                    r.top as int,
                                    r.right as int,
                                    r.bottom as int,
                                ),
                                row: false,
                            },
                        )
                    },
                }
            },
            Some(DropTarget::JoinInsert { host_id, column, index }) => if host_id != host {
                None
            } else {
                match column_area(cols, column) {
                    Some(col) => {
                        let y = match panel_area(slots, column, index) {
                            Some(r) => r.top as int,
                            None => lowest_from(slots, column, col.top + 8_000),
                        };
                        Some(
                            Preview::Line {
                                line: rect(
                                    col.left + 6_000,
                                    y - 3_000,
                                    col.right - 6_000,
                                    y + 3_000,
                                ),
                                strip: col,
                            },
                        )
                    },
                    None => None,
                }
            },
            _ => None,
        }
    }

    /// The mark that a host draws for the current drop target.
    pub fn float_drop_preview(
        &self,
        host: u64,
        cols: &Vec<(usize, Rect)>,
        slots: &Vec<(usize, usize, Rect)>,
    ) -> (r: Option<Preview>)
        ensures
            r == self.float_preview(host, cols@, slots@),
    {
        match self.drop_target {
            Some(DropTarget::JoinNewColumn { host_id, column }) => {
                if host_id != host {
                    return None;
                }
                match find_column(cols, column) {
                    Some(r) => {
                        let left: i64 = r.left as i64;
                        let area = make_rect(
                            left,
                            r.top as i64,
                            left + rail_of(&r),
                            r.bottom as i64,
                        );
                        Some(Preview::Rail { area, row: false })
                    },
                    None => {
                        if cols.len() == 0 {
                            return None;
                        }
                        let (_, r) = cols[cols.len() - 1];
                        let right: i64 = r.right as i64;
                        let area = make_rect(
                            right - rail_of(&r),
                            r.top as i64,
                            right,
                            r.bottom as i64,
                        );
                        Some(Preview::Rail { area, row: false })
                    },
                }
            },
            Some(DropTarget::JoinInsert { host_id, column, index }) => {
                if host_id != host {
                    return None;
                }
                match find_column(cols, column) {
                    Some(col) => {
                        let y: i64 = match find_panel(slots, column, index) {
                            Some(r) => r.top as i64,
                            None => lowest_below(slots, column, col.top as i64 + 8_000),
                        };
                        let line = make_rect(
                            col.left as i64 + 6_000,
                            y - 3_000,
                            col.right as i64 - 6_000,
                            y + 3_000,
                        );
                        Some(Preview::Line { line, strip: col })
                    },
                    None => None,
                }
            },
            _ => None,
        }
    }
}

fn rail_of(r: &Rect) -> (w: i64)
    ensures
        w == rail_width(*r),
        14_000 <= w <= 40_000,
{
    let wide: i64 = 22 * (r.right as i64 - r.left as i64);
    if wide < 1_400_000 {
        14_000
    } else if wide > 4_000_000 {
        40_000
    } else {
        wide / 100
    }
}

fn find_column(list: &Vec<(usize, Rect)>, column: usize) -> (r: Option<Rect>)
    ensures
        r == column_area(list@, column),
{
    let mut i: usize = 0;
    assert(list@.skip(0) =~= list@);
    while i < list.len()
        invariant
            i <= list.len(),
            column_area(list@, column) == column_area(list@.skip(i as int), column),
        decreases list.len() - i,
    {
        let (c, at) = list[i];
        if c == column {
            return Some(at);
        }
        assert(list@.skip(i as int).drop_first() =~= list@.skip(i + 1));
        i += 1;
    }
    None
}

fn find_panel(list: &Vec<(usize, usize, Rect)>, column: usize, index: usize) -> (r: Option<Rect>)
    ensures
        r == panel_area(list@, column, index),
{
    let mut i: usize = 0;
    assert(list@.skip(0) =~= list@);
    while i < list.len()
        invariant
            i <= list.len(),
            panel_area(list@, column, index) == panel_area(list@.skip(i as int), column, index),
        decreases list.len() - i,
    {
        let (c, p, at) = list[i];
        if c == column && p == index {
            return Some(at);
        }
        assert(list@.skip(i as int).drop_first() =~= list@.skip(i + 1));
        i += 1;
    }
    None
}

fn lowest_below(list: &Vec<(usize, usize, Rect)>, column: usize, y: i64) -> (r: i64)
    requires
        -0x1_0000_0000 <= y <= 0x1_0000_0000,
    ensures
        r == lowest_from(list@, column, y as int),
        -0x1_0000_0000 <= r <= 0x1_0000_0000,
{
    let mut best: i64 = y;
    let mut i: usize = 0;
    assert(list@.take(0) =~= Seq::empty());
    while i < list.len()
        invariant
            i <= list.len(),
            -0x1_0000_0000 <= best <= 0x1_0000_0000,
            best == lowest_from(list@.take(i as int), column, y as int),
        decreases list.len() - i,
    {
        let (c, p, at) = list[i];
        if c == column && at.bottom as i64 > best {
            best = at.bottom as i64;
        }
        i += 1;
        assert(list@.take(i as int).drop_last() =~= list@.take(i - 1));
        assert(list@.take(i as int).last() == list@[i - 1]);
    }
    assert(list@.take(list.len() as int) =~= list@);
    best
}

} // verus!
