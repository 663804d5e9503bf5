//! Panels and the strips they are stacked in.
use vstd::prelude::*;

verus! {

/// A panel of the studio.
#[derive(Clone, Copy, Debug, PartialEq, Eq, Hash, Structural)]
pub enum PanelKind {
    Color,
    Tools,
    Brush,
    Navigator,
    Layers,
}

impl PanelKind {
    /// Every panel, in menu order.
    pub fn all() -> (r: Vec<PanelKind>)
        ensures
            r@ == seq![
                PanelKind::Color,
                PanelKind::Tools,
                PanelKind::Brush,
                PanelKind::Navigator,
                PanelKind::Layers,
            ],
    {
        let mut out: Vec<PanelKind> = Vec::new();
        out.push(PanelKind::Color);
        out.push(PanelKind::Tools);
        out.push(PanelKind::Brush);
        out.push(PanelKind::Navigator);
        out.push(PanelKind::Layers);
        out
    }

    /// The name shown for a panel.
    pub open spec fn spec_title(self) -> Seq<char> {
        match self {
            PanelKind::Color => "Color"@,
            PanelKind::Tools => "Tools"@,
            PanelKind::Brush => "Brush"@,
            PanelKind::Navigator => "Navigator"@,
            PanelKind::Layers => "Layers"@,
        }
    }

    pub fn title(self) -> (r: &'static str)
        ensures
            r@ == self.spec_title(),
    {
        match self {
            PanelKind::Color => "Color",
            PanelKind::Tools => "Tools",
            PanelKind::Brush => "Brush",
            PanelKind::Navigator => "Navigator",
            PanelKind::Layers => "Layers",
        }
    }

    /// Compact panels: their height follows their content.
    pub fn hugs_content(self) -> (r: bool)
        ensures
            r == (self is Tools),
    {
        matches!(self, PanelKind::Tools)
    }

    /// Panels that take what is left of a column's height.
    pub fn fills_panel(self) -> (r: bool)
        ensures
            r == !(self is Tools),
    {
        matches!(
            self,
            PanelKind::Color | PanelKind::Brush | PanelKind::Navigator | PanelKind::Layers
        )
    }

    /// The height of a compact panel before its content was measured.
    pub fn default_hug_height(self) -> (r: i32)
        ensures
            r == (if self is Tools {
                140_000int
            } else {
                120_000
            }),
    {
        match self {
            PanelKind::Tools => 140_000,
            _ => 120_000,
        }
    }
}

/// A side of the window that strips dock to.
#[derive(Clone, Copy, Debug, PartialEq, Eq, Structural)]
pub enum DockSide {
    Left,
    Right,
    Top,
    Bottom,
}

impl DockSide {
    pub open spec fn vertical(self) -> bool {
        self is Left || self is Right
    }

    /// Whether the strips of this side are columns.
    pub fn is_vertical(self) -> (r: bool)
        ensures
            r == self.vertical(),
    {
        matches!(self, DockSide::Left | DockSide::Right)
    }

    pub open spec fn spec_label(self) -> Seq<char> {
        match self {
            DockSide::Left => "left"@,
            DockSide::Right => "right"@,
            DockSide::Top => "top"@,
            DockSide::Bottom => "bottom"@,
        }
    }

    pub fn label(self) -> (r: &'static str)
        ensures
            r@ == self.spec_label(),
    {
        match self {
            DockSide::Left => "left",
            DockSide::Right => "right",
            DockSide::Top => "top",
            DockSide::Bottom => "bottom",
        }
    }
}

/// `x` moved into the range from `lo` to `hi`.
pub open spec fn clamped(x: int, lo: int, hi: int) -> int {
    if x < lo {
        lo
    } else if x > hi {
        hi
    } else {
        x
    }
}

pub fn clamp_i32(x: i32, lo: i32, hi: i32) -> (r: i32)
    requires
        lo <= hi,
    ensures
        r == clamped(x as int, lo as int, hi as int),
{
    if x < lo {
        lo
    } else if x > hi {
        hi
    } else {
        x
    }
}

/// The weight of a panel that nobody has resized.
pub const UNIT_WEIGHT: i32 = 1_000_000;

/// Weights that are all at most this are taken as unset.
pub const DEAD_WEIGHT: i32 = 50_000;

pub const MIN_WEIGHT: i32 = 150_000;

pub const MAX_WEIGHT: i32 = 8_000_000;

/// A strip as a value: its panels in order, its extent across the strip, and
/// the relative sizes of the panels along it.
pub struct Column {
    pub panels: Seq<PanelKind>,
    pub width: i32,
    pub weights: Seq<i32>,
}

impl Column {
    /// A strip of equally large panels.
    pub open spec fn fresh(panels: Seq<PanelKind>, width: i32) -> Column {
        Column { panels, width, weights: Seq::new(panels.len(), |i: int| UNIT_WEIGHT) }
    }

    /// One weight per panel: missing ones are units, surplus ones are gone.
    pub open spec fn fitted(self) -> Seq<i32> {
        Seq::new(
            self.panels.len(),
            |i: int|
                if i < self.weights.len() {
                    self.weights[i]
                } else {
                    UNIT_WEIGHT
                },
        )
    }

    /// The weights that a strip settles on.
    pub open spec fn settled(self) -> Seq<i32> {
        let fitted = self.fitted();
        let dead = forall|i: int| 0 <= i < fitted.len() ==> fitted[i] <= DEAD_WEIGHT;
        Seq::new(
            self.panels.len(),
            |i: int|
                if dead {
                    UNIT_WEIGHT
                } else {
                    clamped(fitted[i] as int, MIN_WEIGHT as int, MAX_WEIGHT as int) as i32
                },
        )
    }

    /// The strip with settled weights.
    pub open spec fn synced(self) -> Column {
        Column { weights: self.settled(), ..self }
    }

    /// The strip with the first place of `kind` in it removed, and its weight.
    pub open spec fn cut(self, kind: PanelKind) -> Column {
        let i = first_place(self.panels, kind);
        if i < self.panels.len() {
            Column {
                panels: self.panels.remove(i),
                weights: if i < self.weights.len() {
                    self.weights.remove(i)
                } else {
                    self.weights
                },
                ..self
            }
        } else {
            self
        }
    }

    /// The strip after `kind` has left it.
    pub open spec fn without(self, kind: PanelKind) -> Column {
        self.cut(kind).synced()
    }

    /// The strip after `kind` came in before the panel at `index`, or at the
    /// end where there is none.
    pub open spec fn with(self, kind: PanelKind, index: int) -> Column {
        let i = if index <= self.panels.len() {
            index
        } else {
            self.panels.len() as int
        };
        let w = if i <= self.weights.len() {
            i
        } else {
            self.weights.len() as int
        };
        Column {
            panels: self.panels.insert(i, kind),
            weights: self.weights.insert(w, UNIT_WEIGHT),
            ..self
        }.synced()
    }

    /// One weight per panel, each in range.
    pub open spec fn balanced(self) -> bool {
        &&& self.weights.len() == self.panels.len()
        &&& forall|i: int|
            0 <= i < self.weights.len() ==> MIN_WEIGHT <= #[trigger] self.weights[i] <= MAX_WEIGHT
    }
}

/// The first index of `kind` in a list of panels, or the list's length.
pub open spec fn first_place(panels: Seq<PanelKind>, kind: PanelKind) -> int
    decreases panels.len(),
{
    if panels.len() == 0 {
        0
    } else if panels[0] == kind {
        0
    } else {
        1 + first_place(panels.drop_first(), kind)
    }
}

pub proof fn lemma_first_place(panels: Seq<PanelKind>, kind: PanelKind)
    ensures
        0 <= first_place(panels, kind) <= panels.len(),
        first_place(panels, kind) < panels.len() <==> panels.contains(kind),
        first_place(panels, kind) < panels.len() ==> panels[first_place(panels, kind)] == kind,
        forall|j: int| 0 <= j < first_place(panels, kind) ==> panels[j] != kind,
    decreases panels.len(),
{
    if panels.len() > 0 {
        if panels[0] == kind {
            assert(panels.contains(panels[0]));
        } else {
            let rest = panels.drop_first();
            lemma_first_place(rest, kind);
            assert forall|j: int| 0 <= j < first_place(panels, kind) implies panels[j] != kind by {
                if j > 0 {
                    assert(rest[j - 1] == panels[j]);
                }
            }
            if panels.contains(kind) {
                let k = choose|k: int| 0 <= k < panels.len() && panels[k] == kind;
                assert(rest[k - 1] == kind);
            }
        }
    }
}

/// The first index of `kind`, where it occurs.
pub fn place_of(panels: &Vec<PanelKind>, kind: PanelKind) -> (r: Option<usize>)
    ensures
        match r {
            Some(i) => i == first_place(panels@, kind) && i < panels.len(),
            None => first_place(panels@, kind) == panels.len(),
        },
        r is Some <==> panels@.contains(kind),
{
    let n: usize = panels.len();
    let mut i: usize = 0;
    assert(panels@.skip(0) =~= panels@);
    while i < n
        invariant
            i <= n,
            n == panels.len(),
            first_place(panels@, kind) == i + first_place(panels@.skip(i as int), kind),
        decreases n - i,
    {
        if panels[i] == kind {
            proof {
                lemma_first_place(panels@, kind);
            }
            return Some(i);
        }
        assert(panels@.skip(i as int).drop_first() =~= panels@.skip(i + 1));
        i += 1;
    }
    proof {
        lemma_first_place(panels@, kind);
    }
    None
}

/// Whether `kind` is among the panels.
pub fn has_panel(panels: &Vec<PanelKind>, kind: PanelKind) -> (r: bool)
    ensures
        r == panels@.contains(kind),
{
    place_of(panels, kind).is_some()
}

/// A strip of panels: a column at the left or right, a row at the top or
/// bottom, or a column of a detached host.
pub struct DockColumn {
    pub panels: Vec<PanelKind>,
    pub width: i32,
    /// Relative sizes of the panels along the strip.
    pub weights: Vec<i32>,
}

impl View for DockColumn {
    type V = Column;

    open spec fn view(&self) -> Column {
        Column { panels: self.panels@, width: self.width, weights: self.weights@ }
    }
}

/// The same panels in a new list.
pub fn copy_panels(panels: &Vec<PanelKind>) -> (r: Vec<PanelKind>)
    ensures
        r@ == panels@,
{
    let r = panels.clone();
    assert(r@ =~= panels@);
    r
}

/// The same weights in a new list.
pub fn copy_weights(weights: &Vec<i32>) -> (r: Vec<i32>)
    ensures
        r@ == weights@,
{
    let r = weights.clone();
    assert(r@ =~= weights@);
    r
}

fn unit_weights(n: usize) -> (r: Vec<i32>)
    ensures
        r@ == Seq::new(n as nat, |i: int| UNIT_WEIGHT),
{
    let r = vec![UNIT_WEIGHT; n];
    assert(r@ =~= Seq::new(n as nat, |i: int| UNIT_WEIGHT));
    r
}

impl DockColumn {
    pub fn new(panels: Vec<PanelKind>, width: i32) -> (r: DockColumn)
        ensures
            r@ == Column::fresh(panels@, width),
    {
        let n: usize = panels.len();
        DockColumn { panels, width, weights: unit_weights(n) }
    }

    /// A strip with one panel.
    pub fn single(kind: PanelKind, width: i32) -> (r: DockColumn)
        ensures
            r@ == Column::fresh(seq![kind], width),
    {
        let mut panels: Vec<PanelKind> = Vec::new();
        panels.push(kind);
        assert(panels@ =~= seq![kind]);
        DockColumn::new(panels, width)
    }

    /// A strip equal to this one.
    pub fn copy(&self) -> (r: DockColumn)
        ensures
            r@ == self@,
    {
        DockColumn {
            panels: copy_panels(&self.panels),
            width: self.width,
            weights: copy_weights(&self.weights),
        }
    }

    /// Settles the weights: one per panel, each in range.
    pub fn sync_weights(&mut self)
        ensures
            final(self)@ == old(self)@.synced(),
            final(self)@.balanced(),
    {
        let n: usize = self.panels.len();
        let ghost fitted = self@.fitted();
        let mut dead: bool = true;
        let mut out: Vec<i32> = Vec::new();
        let mut i: usize = 0;
        while i < n
            invariant
                i <= n,
                *self == *old(self),
                n == self.panels.len(),
                fitted == self@.fitted(),
                out@ =~= fitted.take(i as int),
                dead == (forall|j: int| 0 <= j < i ==> fitted[j] <= DEAD_WEIGHT),
            decreases n - i,
        {
            let w: i32 = if i < self.weights.len() {
                self.weights[i]
            } else {
                UNIT_WEIGHT
            };
            assert(w == fitted[i as int]);
            if w > DEAD_WEIGHT {
                dead = false;
            }
            out.push(w);
            i += 1;
        }
        let mut k: usize = 0;
        while k < n
            invariant
                k <= n,
                n == fitted.len(),
                out.len() == n,
                *self == *old(self),
                n == self.panels.len(),
                fitted == self@.fitted(),
                dead == (forall|j: int| 0 <= j < fitted.len() ==> fitted[j] <= DEAD_WEIGHT),
                forall|j: int| 0 <= j < k ==> out@[j] == self@.settled()[j],
                forall|j: int| k <= j < n ==> out@[j] == fitted[j],
            decreases n - k,
        {
            let w: i32 = if dead {
                UNIT_WEIGHT
            } else {
                clamp_i32(out[k], MIN_WEIGHT, MAX_WEIGHT)
            };
            out.set(k, w);
            k += 1;
        }
        assert(out@ =~= self@.settled());
        self.weights = out;
    }

    /// Takes `kind` out of the strip.
    pub fn take_out(&mut self, kind: PanelKind)
        ensures
            final(self)@ == old(self)@.without(kind),
            final(self)@.balanced(),
    {
        match place_of(&self.panels, kind) {
            Some(i) => {
                self.panels.remove(i);
                if i < self.weights.len() {
                    self.weights.remove(i);
                }
            },
            None => {},
        }
        assert(self@ == old(self)@.cut(kind));
        self.sync_weights();
    }

    /// Puts `kind` before the panel at `index`.
    pub fn put_in(&mut self, kind: PanelKind, index: usize)
        ensures
            final(self)@ == old(self)@.with(kind, index as int),
            final(self)@.balanced(),
    {
        let i: usize = if index < self.panels.len() {
            index
        } else {
            self.panels.len()
        };
        self.panels.insert(i, kind);
        let w: usize = if i < self.weights.len() {
            i
        } else {
            self.weights.len()
        };
        self.weights.insert(w, UNIT_WEIGHT);
        self.sync_weights();
    }
}

/// The least and greatest width of a column with these panels.
pub open spec fn width_range(panels: Seq<PanelKind>) -> (int, int) {
    if panels.len() == 1 && panels[0] == PanelKind::Tools {
        (52_000, 280_000)
    } else if panels.contains(PanelKind::Color) {
        (200_000, 480_000)
    } else {
        (160_000, 480_000)
    }
}

pub fn column_width_range(col: &DockColumn) -> (r: (i32, i32))
    ensures
        (r.0 as int, r.1 as int) == width_range(col@.panels),
{
    if col.panels.len() == 1 && col.panels[0] == PanelKind::Tools {
        (52_000, 280_000)
    } else if has_panel(&col.panels, PanelKind::Color) {
        (200_000, 480_000)
    } else {
        (160_000, 480_000)
    }
}

/// The least and greatest height of a row with these panels.
pub open spec fn height_range(panels: Seq<PanelKind>) -> (int, int) {
    if panels.len() == 1 && panels[0] == PanelKind::Tools {
        (56_000, 320_000)
    } else {
        (88_000, 360_000)
    }
}

pub fn row_height_range(col: &DockColumn) -> (r: (i32, i32))
    ensures
        (r.0 as int, r.1 as int) == height_range(col@.panels),
{
    if col.panels.len() == 1 && col.panels[0] == PanelKind::Tools {
        (56_000, 320_000)
    } else {
        (88_000, 360_000)
    }
}

} // verus!
