//! Game controllers: which controls are held and which were just pressed.
//!
//! Positions of sticks and triggers are whole thousandths of their full way.
//! The clock counts milliseconds.
use vstd::prelude::*;
use crate::text::{eq_ignore_case, lower};

pub mod laws;

verus! {

/// How far a trigger is pulled to count as held.
pub const TRIGGER_EDGE: i32 = 350;

/// How far a directional pad is pushed to count as held.
pub const DPAD_EDGE: i32 = 500;

/// The square of how far a stick is pushed to count as held.
pub const STICK_CAPTURE_SQUARED: i64 = 122_500;

/// The square of how far a stick is pushed to count as moved.
pub const STICK_MOVED_SQUARED: i64 = 6_400;

/// How far a trigger is pulled to count as moved.
pub const TRIGGER_MOVED: i32 = 80;

/// Milliseconds between two attempts to reach the controllers.
pub const INIT_EVERY: u64 = 2_000;

/// The buttons of a controller, by their places.
#[derive(Clone, Copy, Debug, PartialEq, Eq, Structural)]
pub enum PadButton {
    South,
    East,
    North,
    West,
    LeftTrigger,
    LeftTrigger2,
    RightTrigger,
    RightTrigger2,
    Select,
    Start,
    LeftThumb,
    RightThumb,
    DPadUp,
    DPadDown,
    DPadLeft,
    DPadRight,
    /// A button that no control goes by.
    Unknown,
}

/// What can be held on a controller.
#[derive(Clone, Copy, Debug, PartialEq, Eq, Structural)]
pub enum PadControl {
    A,
    B,
    X,
    Y,
    LB,
    RB,
    LT,
    RT,
    Back,
    Start,
    DpadUp,
    DpadDown,
    DpadLeft,
    DpadRight,
    StickLClick,
    StickRClick,
    StickL,
    StickR,
}

/// All controls, the ones to be told first in front.
pub open spec fn all_controls() -> Seq<PadControl> {
    seq![
        PadControl::A,
        PadControl::B,
        PadControl::X,
        PadControl::Y,
        PadControl::LB,
        PadControl::RB,
        PadControl::LT,
        PadControl::RT,
        PadControl::Back,
        PadControl::Start,
        PadControl::DpadUp,
        PadControl::DpadDown,
        PadControl::DpadLeft,
        PadControl::DpadRight,
        PadControl::StickLClick,
        PadControl::StickRClick,
        PadControl::StickL,
        PadControl::StickR,
    ]
}

fn control_list() -> (r: Vec<PadControl>)
    ensures
        r@ == all_controls(),
{
    let r = vec![
        PadControl::A,
        PadControl::B,
        PadControl::X,
        PadControl::Y,
        PadControl::LB,
        PadControl::RB,
        PadControl::LT,
        PadControl::RT,
        PadControl::Back,
        PadControl::Start,
        PadControl::DpadUp,
        PadControl::DpadDown,
        PadControl::DpadLeft,
        PadControl::DpadRight,
        PadControl::StickLClick,
        PadControl::StickRClick,
        PadControl::StickL,
        PadControl::StickR,
    ];
    assert(r@ =~= all_controls());
    r
}

impl PadControl {
    pub open spec fn id_text(self) -> Seq<char> {
        match self {
            PadControl::A => "A"@,
            PadControl::B => "B"@,
            PadControl::X => "X"@,
            PadControl::Y => "Y"@,
            PadControl::LB => "LB"@,
            PadControl::RB => "RB"@,
            PadControl::LT => "LT"@,
            PadControl::RT => "RT"@,
            PadControl::Back => "Back"@,
            PadControl::Start => "Start"@,
            PadControl::DpadUp => "DpadUp"@,
            PadControl::DpadDown => "DpadDown"@,
            PadControl::DpadLeft => "DpadLeft"@,
            PadControl::DpadRight => "DpadRight"@,
            PadControl::StickLClick => "StickLClick"@,
            PadControl::StickRClick => "StickRClick"@,
            PadControl::StickL => "StickL"@,
            PadControl::StickR => "StickR"@,
        }
    }

    /// The name that the settings know the control by.
    pub fn id(self) -> (r: &'static str)
        ensures
            r@ == self.id_text(),
    {
        match self {
            PadControl::A => "A",
            PadControl::B => "B",
            PadControl::X => "X",
            PadControl::Y => "Y",
            PadControl::LB => "LB",
            PadControl::RB => "RB",
            PadControl::LT => "LT",
            PadControl::RT => "RT",
            PadControl::Back => "Back",
            PadControl::Start => "Start",
            PadControl::DpadUp => "DpadUp",
            PadControl::DpadDown => "DpadDown",
            PadControl::DpadLeft => "DpadLeft",
            PadControl::DpadRight => "DpadRight",
            PadControl::StickLClick => "StickLClick",
            PadControl::StickRClick => "StickRClick",
            PadControl::StickL => "StickL",
            PadControl::StickR => "StickR",
        }
    }
}

impl PadButton {
    pub open spec fn control(self) -> Option<PadControl> {
        match self {
            PadButton::South => Some(PadControl::A),
            PadButton::East => Some(PadControl::B),
            PadButton::West => Some(PadControl::X),
            PadButton::North => Some(PadControl::Y),
            PadButton::LeftTrigger => Some(PadControl::LB),
            PadButton::RightTrigger => Some(PadControl::RB),
            PadButton::LeftTrigger2 => Some(PadControl::LT),
            PadButton::RightTrigger2 => Some(PadControl::RT),
            PadButton::Select => Some(PadControl::Back),
            PadButton::Start => Some(PadControl::Start),
            PadButton::LeftThumb => Some(PadControl::StickLClick),
            PadButton::RightThumb => Some(PadControl::StickRClick),
            PadButton::DPadUp => Some(PadControl::DpadUp),
            PadButton::DPadDown => Some(PadControl::DpadDown),
            PadButton::DPadLeft => Some(PadControl::DpadLeft),
            PadButton::DPadRight => Some(PadControl::DpadRight),
            PadButton::Unknown => None,
        }
    }

    /// The control that a button is. The upper buttons at the sides are LB and
    /// RB, the lower ones the triggers.
    pub fn button_id(self) -> (r: Option<PadControl>)
        ensures
            r == self.control(),
    {
        match self {
            PadButton::South => Some(PadControl::A),
            PadButton::East => Some(PadControl::B),
            PadButton::West => Some(PadControl::X),
            PadButton::North => Some(PadControl::Y),
            PadButton::LeftTrigger => Some(PadControl::LB),
            PadButton::RightTrigger => Some(PadControl::RB),
            PadButton::LeftTrigger2 => Some(PadControl::LT),
            PadButton::RightTrigger2 => Some(PadControl::RT),
            PadButton::Select => Some(PadControl::Back),
            PadButton::Start => Some(PadControl::Start),
            PadButton::LeftThumb => Some(PadControl::StickLClick),
            PadButton::RightThumb => Some(PadControl::StickRClick),
            PadButton::DPadUp => Some(PadControl::DpadUp),
            PadButton::DPadDown => Some(PadControl::DpadDown),
            PadButton::DPadLeft => Some(PadControl::DpadLeft),
            PadButton::DPadRight => Some(PadControl::DpadRight),
            PadButton::Unknown => None,
        }
    }
}

/// A position: to the right and up.
#[derive(Clone, Copy, Debug, PartialEq, Eq, Structural)]
pub struct Tilt {
    pub x: i32,
    pub y: i32,
}

impl Tilt {
    /// Whether the position is one that a stick can have.
    pub open spec fn in_range(self) -> bool {
        -1000 <= self.x <= 1000 && -1000 <= self.y <= 1000
    }

    /// The square of how far the stick is from its middle.
    pub open spec fn squared(self) -> int {
        self.x * self.x + self.y * self.y
    }

    fn square(self) -> (r: i64)
        requires
            self.in_range(),
        ensures
            r == self.squared(),
    {
        let x = self.x as i64;
        let y = self.y as i64;
        assert(-1_000_000 <= x * x <= 1_000_000 && -1_000_000 <= y * y <= 1_000_000)
            by (nonlinear_arith)
            requires
                -1000 <= x <= 1000,
                -1000 <= y <= 1000,
        ;
        x * x + y * y
    }
}

/// What a controller says of itself.
pub struct PadReading {
    pub name: String,
    /// The buttons that are down.
    pub down: Vec<PadButton>,
    /// How far each trigger is pulled: as a button says, and as an axis says.
    pub left_trigger: (i32, i32),
    pub right_trigger: (i32, i32),
    pub dpad: Tilt,
    pub stick_l: Tilt,
    pub stick_r: Tilt,
}

/// How far a trigger is pulled: the larger of what its button and its axis say,
/// within its way.
pub open spec fn pulled(t: (i32, i32)) -> int {
    let axis = if t.1 < 0 {
        -t.1
    } else {
        t.1 as int
    };
    let most = if t.0 > axis {
        t.0 as int
    } else {
        axis
    };
    if most < 0 {
        0
    } else if most > 1000 {
        1000
    } else {
        most
    }
}

/// How far a trigger is pulled.
pub fn trigger_value(button: i32, axis: i32) -> (r: i32)
    ensures
        r == pulled((button, axis)),
{
    let axis: i64 = if axis < 0 {
        -(axis as i64)
    } else {
        axis as i64
    };
    let most: i64 = if button as i64 > axis {
        button as i64
    } else {
        axis
    };
    if most > 1000 {
        1000
    } else {
        most as i32
    }
}

impl PadReading {
    pub open spec fn wf(self) -> bool {
        self.stick_l.in_range() && self.stick_r.in_range()
    }

    /// Whether a button of a control is down.
    pub open spec fn has_down(self, c: PadControl) -> bool {
        exists|i: int|
            0 <= i < self.down@.len() && (#[trigger] self.down@[i]).control() == Some(c)
    }

    /// Whether a control is held: its button is down, its trigger pulled far
    /// enough, or its pad or stick pushed far enough.
    pub open spec fn holds(self, c: PadControl) -> bool {
        ||| self.has_down(c)
        ||| match c {
            PadControl::LT => pulled(self.left_trigger) >= TRIGGER_EDGE,
            PadControl::RT => pulled(self.right_trigger) >= TRIGGER_EDGE,
            PadControl::DpadLeft => self.dpad.x <= -DPAD_EDGE,
            PadControl::DpadRight => self.dpad.x >= DPAD_EDGE,
            PadControl::DpadUp => self.dpad.y >= DPAD_EDGE,
            PadControl::DpadDown => self.dpad.y <= -DPAD_EDGE,
            PadControl::StickL => self.stick_l.squared() >= STICK_CAPTURE_SQUARED,
            PadControl::StickR => self.stick_r.squared() >= STICK_CAPTURE_SQUARED,
            _ => false,
        }
    }

    fn is_down(&self, c: PadControl) -> (r: bool)
        ensures
            r == self.has_down(c),
    {
        let n: usize = self.down.len();
        let mut i: usize = 0;
        while i < n
            invariant
                i <= n,
                n == self.down.len(),
                forall|j: int| 0 <= j < i ==> (#[trigger] self.down@[j]).control() != Some(c),
            decreases n - i,
        {
            if self.down[i].button_id() == Some(c) {
                assert(self.down@[i as int].control() == Some(c));
                return true;
            }
            i += 1;
        }
        false
    }

    /// Whether a control is held.
    pub fn is_held(&self, c: PadControl) -> (r: bool)
        requires
            self.wf(),
        ensures
            r == self.holds(c),
    {
        if self.is_down(c) {
            return true;
        }
        match c {
            PadControl::LT => trigger_value(self.left_trigger.0, self.left_trigger.1)
                >= TRIGGER_EDGE,
            PadControl::RT => trigger_value(self.right_trigger.0, self.right_trigger.1)
                >= TRIGGER_EDGE,
            PadControl::DpadLeft => self.dpad.x <= -DPAD_EDGE,
            PadControl::DpadRight => self.dpad.x >= DPAD_EDGE,
            PadControl::DpadUp => self.dpad.y >= DPAD_EDGE,
            PadControl::DpadDown => self.dpad.y <= -DPAD_EDGE,
            PadControl::StickL => self.stick_l.square() >= STICK_CAPTURE_SQUARED,
            PadControl::StickR => self.stick_r.square() >= STICK_CAPTURE_SQUARED,
            _ => false,
        }
    }
}

/// The controls of a list that are held, in order.
pub open spec fn held_among(list: Seq<PadControl>, reading: PadReading) -> Seq<PadControl>
    decreases list.len(),
{
    if list.len() == 0 {
        Seq::empty()
    } else {
        let before = held_among(list.drop_last(), reading);
        if reading.holds(list.last()) {
            before.push(list.last())
        } else {
            before
        }
    }
}

/// The controls of a list that are not in another.
pub open spec fn new_among(list: Seq<PadControl>, before: Seq<PadControl>) -> Seq<PadControl>
    decreases list.len(),
{
    if list.len() == 0 {
        Seq::empty()
    } else {
        let rest = new_among(list.drop_last(), before);
        if before.contains(list.last()) {
            rest
        } else {
            rest.push(list.last())
        }
    }
}

fn collect_held(reading: &PadReading) -> (r: Vec<PadControl>)
    requires
        reading.wf(),
    ensures
        r@ == held_among(all_controls(), *reading),
{
    let all = control_list();
    let n: usize = all.len();
    let mut out: Vec<PadControl> = Vec::new();
    let mut i: usize = 0;
    assert(all@.take(0) =~= Seq::empty());
    while i < n
        invariant
            i <= n,
            n == all.len(),
            reading.wf(),
            out@ == held_among(all@.take(i as int), *reading),
        decreases n - i,
    {
        assert(all@.take(i + 1).drop_last() =~= all@.take(i as int));
        assert(all@.take(i + 1).last() == all@[i as int]);
        if reading.is_held(all[i]) {
            out.push(all[i]);
        }
        i += 1;
    }
    assert(all@.take(n as int) =~= all@);
    out
}

fn has_control(list: &Vec<PadControl>, c: PadControl) -> (r: bool)
    ensures
        r == list@.contains(c),
{
    let n: usize = list.len();
    let mut i: usize = 0;
    while i < n
        invariant
            i <= n,
            n == list.len(),
            forall|j: int| 0 <= j < i ==> list@[j] != c,
        decreases n - i,
    {
        if list[i] == c {
            assert(list@[i as int] == c);
            return true;
        }
        i += 1;
    }
    false
}

fn newly(list: &Vec<PadControl>, before: &Vec<PadControl>) -> (r: Vec<PadControl>)
    ensures
        r@ == new_among(list@, before@),
{
    let n: usize = list.len();
    let mut out: Vec<PadControl> = Vec::new();
    let mut i: usize = 0;
    assert(list@.take(0) =~= Seq::empty());
    while i < n
        invariant
            i <= n,
            n == list.len(),
            out@ == new_among(list@.take(i as int), before@),
        decreases n - i,
    {
        assert(list@.take(i + 1).drop_last() =~= list@.take(i as int));
        assert(list@.take(i + 1).last() == list@[i as int]);
        if !has_control(before, list[i]) {
            out.push(list[i]);
        }
        i += 1;
    }
    assert(list@.take(n as int) =~= list@);
    out
}

/// What a controller shows in one frame.
pub struct GamepadFrame {
    pub connected: bool,
    pub name: Option<String>,
    /// The controls pressed since the last frame.
    pub pressed: Vec<PadControl>,
    pub held: Vec<PadControl>,
    pub stick_l: Tilt,
    pub stick_r: Tilt,
    pub lt: i32,
    pub rt: i32,
    /// The control to tell of those that were pressed.
    pub last_pressed: Option<PadControl>,
}

impl GamepadFrame {
    /// A frame without a controller.
    pub open spec fn is_empty(self) -> bool {
        &&& !self.connected
        &&& self.name is None
        &&& self.pressed@.len() == 0
        &&& self.held@.len() == 0
        &&& self.stick_l == (Tilt { x: 0, y: 0 })
        &&& self.stick_r == (Tilt { x: 0, y: 0 })
        &&& self.lt == 0
        &&& self.rt == 0
        &&& self.last_pressed is None
    }

    /// What every frame keeps.
    pub open spec fn wf(self) -> bool {
        self.stick_l.in_range() && self.stick_r.in_range()
    }

    fn empty() -> (r: GamepadFrame)
        ensures
            r.is_empty(),
            r.wf(),
    {
        GamepadFrame {
            connected: false,
            name: None,
            pressed: Vec::new(),
            held: Vec::new(),
            stick_l: Tilt { x: 0, y: 0 },
            stick_r: Tilt { x: 0, y: 0 },
            lt: 0,
            rt: 0,
            last_pressed: None,
        }
    }

    /// Whether a control of that name was pressed, whatever the case of its
    /// letters.
    pub fn button_pressed(&self, id: &str) -> (r: bool)
        ensures
            r == named_in(self.pressed@, id@),
    {
        has_named(&self.pressed, id)
    }

    /// Whether a control of that name is held.
    pub fn button_held(&self, id: &str) -> (r: bool)
        ensures
            r == named_in(self.held@, id@),
    {
        has_named(&self.held, id)
    }

    /// Whether the control that an action is bound to was pressed.
    pub fn action_pressed(&self, binding: Option<&str>) -> (r: bool)
        ensures
            r == (binding matches Some(id) && named_in(self.pressed@, id@)),
    {
        match binding {
            Some(id) => self.button_pressed(id),
            None => false,
        }
    }

    /// Whether the control that an action is bound to is held. A stick is where
    /// it is pushed far enough.
    pub fn action_held(&self, binding: Option<&str>) -> (r: bool)
        requires
            self.wf(),
        ensures
            r == (match binding {
                Some(id) => if lower(id@) == lower("StickL"@) {
                    self.stick_l.squared() >= STICK_CAPTURE_SQUARED
                } else if lower(id@) == lower("StickR"@) {
                    self.stick_r.squared() >= STICK_CAPTURE_SQUARED
                } else {
                    named_in(self.held@, id@)
                },
                None => false,
            }),
    {
        match binding {
            Some(id) => {
                if eq_ignore_case(id, "StickL") {
                    self.stick_l.square() >= STICK_CAPTURE_SQUARED
                } else if eq_ignore_case(id, "StickR") {
                    self.stick_r.square() >= STICK_CAPTURE_SQUARED
                } else {
                    self.button_held(id)
                }
            },
            None => false,
        }
    }

    /// What the amount of a control is read from.
    pub fn analog_source(&self, id: &str) -> (r: AnalogSource)
        ensures
            r == (if lower(id@) == lower("LT"@) {
                AnalogSource::Trigger(self.lt)
            } else if lower(id@) == lower("RT"@) {
                AnalogSource::Trigger(self.rt)
            } else if lower(id@) == lower("StickL"@) {
                AnalogSource::Stick(self.stick_l)
            } else if lower(id@) == lower("StickR"@) {
                AnalogSource::Stick(self.stick_r)
            } else {
                AnalogSource::Button(named_in(self.held@, id@))
            }),
    {
        if eq_ignore_case(id, "LT") {
            AnalogSource::Trigger(self.lt)
        } else if eq_ignore_case(id, "RT") {
            AnalogSource::Trigger(self.rt)
        } else if eq_ignore_case(id, "StickL") {
            AnalogSource::Stick(self.stick_l)
        } else if eq_ignore_case(id, "StickR") {
            AnalogSource::Stick(self.stick_r)
        } else {
            AnalogSource::Button(self.button_held(id))
        }
    }

    /// The stick of that name; the left one for any other name.
    pub fn stick(&self, id: &str) -> (r: Tilt)
        ensures
            r == (if lower(id@) == lower("StickR"@) {
                self.stick_r
            } else {
                self.stick_l
            }),
    {
        if eq_ignore_case(id, "StickR") {
            self.stick_r
        } else {
            self.stick_l
        }
    }

    /// Milliseconds until the controller is looked at again; none for at once.
    pub fn wake_after(&self) -> (r: Option<u64>)
        requires
            self.wf(),
        ensures
            r == (if !self.connected {
                Some(200u64)
            } else if self.is_moved() {
                None
            } else {
                Some(100u64)
            }),
    {
        if !self.connected {
            return Some(200);
        }
        if self.stick_l.square() > STICK_MOVED_SQUARED || self.stick_r.square()
            > STICK_MOVED_SQUARED || self.lt > TRIGGER_MOVED || self.rt > TRIGGER_MOVED {
            None
        } else {
            Some(100)
        }
    }

    /// Whether a stick or a trigger is out of its rest.
    pub open spec fn is_moved(self) -> bool {
        self.stick_l.squared() > STICK_MOVED_SQUARED || self.stick_r.squared()
            > STICK_MOVED_SQUARED || self.lt > TRIGGER_MOVED || self.rt > TRIGGER_MOVED
    }
}

/// What the amount of a control is read from.
#[derive(Clone, Copy, Debug, PartialEq, Eq, Structural)]
pub enum AnalogSource {
    Trigger(i32),
    Stick(Tilt),
    /// A button, which is held or not.
    Button(bool),
}

/// Whether a control of a list has that name, whatever the case of its letters.
pub open spec fn named_in(list: Seq<PadControl>, id: Seq<char>) -> bool {
    exists|i: int| 0 <= i < list.len() && lower((#[trigger] list[i]).id_text()) == lower(id)
}

fn has_named(list: &Vec<PadControl>, id: &str) -> (r: bool)
    ensures
        r == named_in(list@, id@),
{
    let n: usize = list.len();
    let mut i: usize = 0;
    while i < n
        invariant
            i <= n,
            n == list.len(),
            forall|j: int|
                0 <= j < i ==> lower((#[trigger] list@[j]).id_text()) != lower(id@),
        decreases n - i,
    {
        if eq_ignore_case(list[i].id(), id) {
            assert(lower(list@[i as int].id_text()) == lower(id@));
            return true;
        }
        i += 1;
    }
    false
}

/// What a controller reports.
#[derive(Clone, Copy, Debug, PartialEq, Eq, Structural)]
pub enum PadEvent {
    Connected(usize),
    Disconnected(usize),
    Pressed(usize),
    Other,
}

/// The controller in use after a report: the one that was plugged in or
/// pressed last, and none once it is gone.
pub open spec fn in_use(active: Option<usize>, event: PadEvent) -> Option<usize> {
    match event {
        PadEvent::Connected(id) => Some(id),
        PadEvent::Pressed(id) => Some(id),
        PadEvent::Disconnected(id) => if active == Some(id) {
            None
        } else {
            active
        },
        PadEvent::Other => active,
    }
}

pub struct GamepadInput {
    /// The controller in use.
    pub active: Option<usize>,
    pub prev_held: Vec<PadControl>,
    pub frame: GamepadFrame,
    /// When to try again to reach the controllers.
    pub next_init: u64,
}

impl GamepadInput {
    pub fn new(now: u64) -> (r: GamepadInput)
        ensures
            r.active is None,
            r.prev_held@.len() == 0,
            r.frame.is_empty(),
            r.frame.wf(),
            r.next_init == now,
    {
        GamepadInput {
            active: None,
            prev_held: Vec::new(),
            frame: GamepadFrame::empty(),
            next_init: now,
        }
    }

    pub fn frame(&self) -> (r: &GamepadFrame)
        ensures
            *r == self.frame,
    {
        &self.frame
    }

    /// Whether to try to reach the controllers now, where they are not.
    pub fn init_due(&mut self, now: u64) -> (r: bool)
        requires
            now <= u64::MAX - INIT_EVERY,
        ensures
            r == (now >= old(self).next_init),
            final(self).next_init == (if r {
                (now + INIT_EVERY) as u64
            } else {
                old(self).next_init
            }),
            final(self).active == old(self).active,
            final(self).prev_held == old(self).prev_held,
            final(self).frame == old(self).frame,
    {
        if now >= self.next_init {
            self.next_init = now + INIT_EVERY;
            true
        } else {
            false
        }
    }

    /// Takes note of a report.
    pub fn note(&mut self, event: PadEvent)
        ensures
            final(self).active == in_use(old(self).active, event),
            final(self).prev_held == old(self).prev_held,
            final(self).frame == old(self).frame,
            final(self).next_init == old(self).next_init,
    {
        match event {
            PadEvent::Connected(id) => {
                self.active = Some(id);
            },
            PadEvent::Pressed(id) => {
                self.active = Some(id);
            },
            PadEvent::Disconnected(id) => {
                if self.active == Some(id) {
                    self.active = None;
                }
            },
            PadEvent::Other => {},
        }
    }

    /// The controller to read: the one in use where it is still there, else the
    /// first that is.
    pub fn pick_pad(&self, active_is_there: bool, first_there: Option<usize>) -> (r: Option<usize>)
        ensures
            r == (if active_is_there && self.active is Some {
                self.active
            } else {
                first_there
            }),
    {
        if active_is_there && self.active.is_some() {
            self.active
        } else {
            first_there
        }
    }

    /// The controllers cannot be reached.
    pub fn unreachable_pads(&mut self)
        ensures
            final(self).frame.is_empty(),
            final(self).frame.wf(),
            final(self).active == old(self).active,
            final(self).prev_held == old(self).prev_held,
            final(self).next_init == old(self).next_init,
    {
        self.frame = GamepadFrame::empty();
    }

    /// No controller is there.
    pub fn no_pad(&mut self)
        ensures
            final(self).frame.is_empty(),
            final(self).frame.wf(),
            final(self).prev_held@.len() == 0,
            final(self).active == old(self).active,
            final(self).next_init == old(self).next_init,
    {
        self.prev_held = Vec::new();
        self.frame = GamepadFrame::empty();
    }

    /// Takes the reading of a controller for a frame.
    pub fn read(&mut self, id: usize, reading: PadReading)
        requires
            reading.wf(),
        ensures
            final(self).active == Some(id),
            final(self).next_init == old(self).next_init,
            final(self).prev_held@ == held_among(all_controls(), reading),
            ({
                let f = final(self).frame;
                let held = held_among(all_controls(), reading);
                let pressed = new_among(held, old(self).prev_held@);
                &&& f.wf()
                &&& f.connected
                &&& f.name == Some(reading.name)
                &&& f.held@ == held
                &&& f.pressed@ == pressed
                &&& f.stick_l == reading.stick_l
                &&& f.stick_r == reading.stick_r
                &&& f.lt == pulled(reading.left_trigger)
                &&& f.rt == pulled(reading.right_trigger)
                &&& f.last_pressed == (if pressed.len() > 0 {
                    Some(pressed[0])
                } else {
                    None
                })
            }),
    {
        self.active = Some(id);
        let held = collect_held(&reading);
        let pressed = newly(&held, &self.prev_held);
        let last_pressed: Option<PadControl> = if pressed.len() > 0 {
            Some(pressed[0])
        } else {
            None
        };
        let lt: i32 = trigger_value(reading.left_trigger.0, reading.left_trigger.1);
        let rt: i32 = trigger_value(reading.right_trigger.0, reading.right_trigger.1);
        self.prev_held = collect_held(&reading);
        self.frame = GamepadFrame {
            connected: true,
            name: Some(reading.name),
            pressed,
            held,
            stick_l: reading.stick_l,
            stick_r: reading.stick_r,
            lt,
            rt,
            last_pressed,
        };
    }
}

/// What a look at the controllers found.
pub enum PadsSeen {
    /// They cannot be reached.
    Unreachable,
    /// None is connected.
    Nothing,
    /// The one in use, and its reading.
    Pad(usize, PadReading),
}

impl PadsSeen {
    pub open spec fn wf(self) -> bool {
        self matches PadsSeen::Pad(_, reading) ==> reading.wf()
    }
}

impl GamepadInput {
    /// Whether what is remembered as held is what the frame shows.
    pub open spec fn settled(self) -> bool {
        self.prev_held@ == self.frame.held@
    }

    /// Takes what a look at the controllers found for a frame. Pressed are the
    /// controls that are held and were not in the frame before; one of them is
    /// told where there is one.
    pub fn poll(&mut self, seen: PadsSeen)
        requires
            seen.wf(),
        ensures
            final(self).next_init == old(self).next_init,
            final(self).frame.wf(),
            match seen {
                PadsSeen::Unreachable => final(self).frame.is_empty() && final(self).active == old(
                    self,
                ).active && final(self).prev_held == old(self).prev_held,
                PadsSeen::Nothing => final(self).frame.is_empty() && final(self).active == old(
                    self,
                ).active && final(self).settled(),
                PadsSeen::Pad(id, reading) => {
                    let f = final(self).frame;
                    &&& final(self).settled()
                    &&& final(self).active == Some(id)
                    &&& f.connected
                    &&& f.name == Some(reading.name)
                    &&& f.held@ == held_among(all_controls(), reading)
                    &&& f.pressed@ == new_among(f.held@, old(self).prev_held@)
                    &&& f.stick_l == reading.stick_l
                    &&& f.stick_r == reading.stick_r
                    &&& f.lt == pulled(reading.left_trigger)
                    &&& f.rt == pulled(reading.right_trigger)
                    &&& f.last_pressed == (if f.pressed@.len() > 0 {
                        Some(f.pressed@[0])
                    } else {
                        None
                    })
                    &&& forall|c: PadControl| #[trigger] f.held@.contains(c) == reading.holds(c)
                    &&& old(self).settled() ==> forall|c: PadControl| #[trigger]
                        f.pressed@.contains(c) == (f.held@.contains(c) && !old(
                            self,
                        ).frame.held@.contains(c))
                    &&& (reading.down@.contains(PadButton::South) == f.held@.contains(PadControl::A))
                    &&& (reading.down@.contains(PadButton::East) == f.held@.contains(PadControl::B))
                    &&& (reading.down@.contains(PadButton::West) == f.held@.contains(PadControl::X))
                    &&& (reading.down@.contains(PadButton::North) == f.held@.contains(PadControl::Y))
                    &&& (reading.down@.contains(PadButton::LeftTrigger) == f.held@.contains(PadControl::LB))
                    &&& (reading.down@.contains(PadButton::RightTrigger) == f.held@.contains(PadControl::RB))
                    &&& (reading.down@.contains(PadButton::LeftTrigger2) ==> f.held@.contains(PadControl::LT))
                    &&& (reading.down@.contains(PadButton::RightTrigger2) ==> f.held@.contains(PadControl::RT))
                    &&& (reading.down@.contains(PadButton::Select) == f.held@.contains(PadControl::Back))
                    &&& (reading.down@.contains(PadButton::Start) == f.held@.contains(PadControl::Start))
                    &&& (reading.down@.contains(PadButton::LeftThumb) == f.held@.contains(PadControl::StickLClick))
                    &&& (reading.down@.contains(PadButton::RightThumb) == f.held@.contains(PadControl::StickRClick))
                    &&& (reading.down@.contains(PadButton::DPadUp) ==> f.held@.contains(PadControl::DpadUp))
                    &&& (reading.down@.contains(PadButton::DPadDown) ==> f.held@.contains(PadControl::DpadDown))
                    &&& (reading.down@.contains(PadButton::DPadLeft) ==> f.held@.contains(PadControl::DpadLeft))
                    &&& (reading.down@.contains(PadButton::DPadRight) ==> f.held@.contains(PadControl::DpadRight))
                    &&& (reading.dpad.y >= 500 ==> f.held@.contains(PadControl::DpadUp))
                    &&& (reading.dpad.y <= -500 ==> f.held@.contains(PadControl::DpadDown))
                    &&& (reading.dpad.x <= -500 ==> f.held@.contains(PadControl::DpadLeft))
                    &&& (reading.dpad.x >= 500 ==> f.held@.contains(PadControl::DpadRight))
                    &&& f.last_pressed matches Some(c) ==> f.pressed@.contains(c)
                },
            },
    {
        match seen {
            PadsSeen::Unreachable => self.unreachable_pads(),
            PadsSeen::Nothing => {
                self.no_pad();
                assert(self.prev_held@ =~= self.frame.held@);
            },
            PadsSeen::Pad(id, reading) => {
                let ghost seen_reading = reading;
                let ghost before = self.prev_held@;
                self.read(id, reading);
                proof {
                    assert forall|c: PadControl| #[trigger]
                        self.frame.held@.contains(c) == seen_reading.holds(c) by {
                        law_pressed_is_a_rising_edge(seen_reading, before, c);
                    }
                    laws::law_held(seen_reading);
                    lemma_new(self.frame.held@, before);
                    if self.frame.pressed@.len() > 0 {
                        assert(self.frame.pressed@.contains(self.frame.pressed@[0]));
                    }
                }
            },
        }
    }
}

proof fn lemma_held(list: Seq<PadControl>, reading: PadReading)
    ensures
        forall|c: PadControl| #[trigger]
            held_among(list, reading).contains(c) == (list.contains(c) && reading.holds(c)),
    decreases list.len(),
{
    if list.len() > 0 {
        let t = list.drop_last();
        lemma_held(t, reading);
        let b = held_among(t, reading);
        let r = held_among(list, reading);
        assert forall|c: PadControl| #[trigger] r.contains(c) == (list.contains(c)
            && reading.holds(c)) by {
            if r.contains(c) {
                let k = choose|k: int| 0 <= k < r.len() && r[k] == c;
                if k < b.len() {
                    assert(b[k] == c);
                    assert(b.contains(c));
                    let j = choose|j: int| 0 <= j < t.len() && t[j] == c;
                    assert(list[j] == c);
                } else {
                    assert(list[list.len() - 1] == c);
                }
            }
            if list.contains(c) && reading.holds(c) {
                let k = choose|k: int| 0 <= k < list.len() && list[k] == c;
                if k < t.len() {
                    assert(t[k] == c);
                    assert(t.contains(c));
                    assert(b.contains(c));
                    let j = choose|j: int| 0 <= j < b.len() && b[j] == c;
                    assert(r[j] == c);
                } else {
                    assert(r[r.len() - 1] == c);
                }
            }
        }
    }
}

proof fn lemma_new(list: Seq<PadControl>, before: Seq<PadControl>)
    ensures
        forall|c: PadControl| #[trigger]
            new_among(list, before).contains(c) == (list.contains(c) && !before.contains(c)),
    decreases list.len(),
{
    if list.len() > 0 {
        let t = list.drop_last();
        lemma_new(t, before);
        let b = new_among(t, before);
        let r = new_among(list, before);
        assert forall|c: PadControl| #[trigger] r.contains(c) == (list.contains(c)
            && !before.contains(c)) by {
            if r.contains(c) {
                let k = choose|k: int| 0 <= k < r.len() && r[k] == c;
                if k < b.len() {
                    assert(b[k] == c);
                    assert(b.contains(c));
                    let j = choose|j: int| 0 <= j < t.len() && t[j] == c;
                    assert(list[j] == c);
                } else {
                    assert(list[list.len() - 1] == c);
                }
            }
            if list.contains(c) && !before.contains(c) {
                let k = choose|k: int| 0 <= k < list.len() && list[k] == c;
                if k < t.len() {
                    assert(t[k] == c);
                    assert(t.contains(c));
                    assert(b.contains(c));
                    let j = choose|j: int| 0 <= j < b.len() && b[j] == c;
                    assert(r[j] == c);
                } else {
                    assert(r[r.len() - 1] == c);
                }
            }
        }
    }
}

/// The list of held controls has exactly those that the reading holds, and
/// those pressed are exactly those that were not held in the frame before.
pub proof fn law_pressed_is_a_rising_edge(reading: PadReading, before: Seq<PadControl>, c: PadControl)
    ensures
        held_among(all_controls(), reading).contains(c) == reading.holds(c),
        new_among(held_among(all_controls(), reading), before).contains(c) == (reading.holds(c)
            && !before.contains(c)),
{
    let all = all_controls();
    lemma_held(all, reading);
    lemma_new(held_among(all, reading), before);
    let k = match c {
        PadControl::A => 0int,
        PadControl::B => 1,
        PadControl::X => 2,
        PadControl::Y => 3,
        PadControl::LB => 4,
        PadControl::RB => 5,
        PadControl::LT => 6,
        PadControl::RT => 7,
        PadControl::Back => 8,
        PadControl::Start => 9,
        PadControl::DpadUp => 10,
        PadControl::DpadDown => 11,
        PadControl::DpadLeft => 12,
        PadControl::DpadRight => 13,
        PadControl::StickLClick => 14,
        PadControl::StickRClick => 15,
        PadControl::StickL => 16,
        PadControl::StickR => 17,
    };
    assert(all[k] == c);
    assert(all.contains(c));
}

/// A control that stays held is not pressed again.
pub proof fn law_holding_is_no_press(reading: PadReading)
    ensures
        new_among(
            held_among(all_controls(), reading),
            held_among(all_controls(), reading),
        ).len() == 0,
{
    let held = held_among(all_controls(), reading);
    lemma_new(held, held);
    let r = new_among(held, held);
    if r.len() > 0 {
        assert(r.contains(r[0]));
    }
}

} // verus!
