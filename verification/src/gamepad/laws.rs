//! What a controller's buttons, pad, triggers and sticks mean, control by
//! control.
use vstd::prelude::*;
use crate::gamepad::{
    GamepadFrame, PadButton, PadControl, PadEvent, PadReading, Tilt, all_controls, held_among,
    in_use, law_pressed_is_a_rising_edge, named_in, new_among, pulled,
};
use crate::text::lower;

verus! {

/// The control that each button is.
pub proof fn law_buttons()
    ensures
        PadButton::South.control() == Some(PadControl::A),
        PadButton::East.control() == Some(PadControl::B),
        PadButton::West.control() == Some(PadControl::X),
        PadButton::North.control() == Some(PadControl::Y),
        PadButton::LeftTrigger.control() == Some(PadControl::LB),
        PadButton::RightTrigger.control() == Some(PadControl::RB),
        PadButton::LeftTrigger2.control() == Some(PadControl::LT),
        PadButton::RightTrigger2.control() == Some(PadControl::RT),
        PadButton::Select.control() == Some(PadControl::Back),
        PadButton::Start.control() == Some(PadControl::Start),
        PadButton::LeftThumb.control() == Some(PadControl::StickLClick),
        PadButton::RightThumb.control() == Some(PadControl::StickRClick),
        PadButton::DPadUp.control() == Some(PadControl::DpadUp),
        PadButton::DPadDown.control() == Some(PadControl::DpadDown),
        PadButton::DPadLeft.control() == Some(PadControl::DpadLeft),
        PadButton::DPadRight.control() == Some(PadControl::DpadRight),
        PadButton::Unknown.control() is None,
{
}

proof fn lemma_only_button(reading: PadReading, b: PadButton, c: PadControl)
    requires
        b.control() == Some(c),
    ensures
        reading.has_down(c) == reading.down@.contains(b),
{
    if reading.has_down(c) {
        let i = choose|i: int|
            0 <= i < reading.down@.len() && (#[trigger] reading.down@[i]).control() == Some(c);
        assert(reading.down@[i] == b);
    }
    if reading.down@.contains(b) {
        let i = choose|i: int| 0 <= i < reading.down@.len() && reading.down@[i] == b;
        assert(reading.down@[i].control() == Some(c));
    }
}

/// What the frame of a reading shows as held, control by control: a button's
/// control while that button is down, a trigger from 350 thousandths of its way
/// on, a direction of the pad from half of its way on, a stick from 350
/// thousandths off its middle on.
pub proof fn law_held(reading: PadReading)
    ensures
        ({
            let held = held_among(all_controls(), reading);
            let down = reading.down@;
            let (lb, la) = reading.left_trigger;
            let (rb, ra) = reading.right_trigger;
            let pad = reading.dpad;
            let (l, r) = (reading.stick_l, reading.stick_r);
            &&& held.contains(PadControl::A) == down.contains(PadButton::South)
            &&& held.contains(PadControl::B) == down.contains(PadButton::East)
            &&& held.contains(PadControl::X) == down.contains(PadButton::West)
            &&& held.contains(PadControl::Y) == down.contains(PadButton::North)
            &&& held.contains(PadControl::LB) == down.contains(PadButton::LeftTrigger)
            &&& held.contains(PadControl::RB) == down.contains(PadButton::RightTrigger)
            &&& held.contains(PadControl::LT) == (down.contains(PadButton::LeftTrigger2) || lb >= 350
                || la >= 350 || la <= -350)
            &&& held.contains(PadControl::RT) == (down.contains(PadButton::RightTrigger2) || rb
                >= 350 || ra >= 350 || ra <= -350)
            &&& held.contains(PadControl::Back) == down.contains(PadButton::Select)
            &&& held.contains(PadControl::Start) == down.contains(PadButton::Start)
            &&& held.contains(PadControl::StickLClick) == down.contains(PadButton::LeftThumb)
            &&& held.contains(PadControl::StickRClick) == down.contains(PadButton::RightThumb)
            &&& held.contains(PadControl::DpadUp) == (down.contains(PadButton::DPadUp) || pad.y
                >= 500)
            &&& held.contains(PadControl::DpadDown) == (down.contains(PadButton::DPadDown) || pad.y
                <= -500)
            &&& held.contains(PadControl::DpadLeft) == (down.contains(PadButton::DPadLeft) || pad.x
                <= -500)
            &&& held.contains(PadControl::DpadRight) == (down.contains(PadButton::DPadRight)
                || pad.x >= 500)
            &&& held.contains(PadControl::StickL) == (l.x * l.x + l.y * l.y >= 350 * 350)
            &&& held.contains(PadControl::StickR) == (r.x * r.x + r.y * r.y >= 350 * 350)
        }),
{
    let none: Seq<PadControl> = Seq::empty();
    assert forall|c: PadControl| #[trigger]
        held_among(all_controls(), reading).contains(c) == reading.holds(c) by {
        law_pressed_is_a_rising_edge(reading, none, c);
    }
    lemma_only_button(reading, PadButton::South, PadControl::A);
    lemma_only_button(reading, PadButton::East, PadControl::B);
    lemma_only_button(reading, PadButton::West, PadControl::X);
    lemma_only_button(reading, PadButton::North, PadControl::Y);
    lemma_only_button(reading, PadButton::LeftTrigger, PadControl::LB);
    lemma_only_button(reading, PadButton::RightTrigger, PadControl::RB);
    lemma_only_button(reading, PadButton::LeftTrigger2, PadControl::LT);
    lemma_only_button(reading, PadButton::RightTrigger2, PadControl::RT);
    lemma_only_button(reading, PadButton::Select, PadControl::Back);
    lemma_only_button(reading, PadButton::Start, PadControl::Start);
    lemma_only_button(reading, PadButton::LeftThumb, PadControl::StickLClick);
    lemma_only_button(reading, PadButton::RightThumb, PadControl::StickRClick);
    lemma_only_button(reading, PadButton::DPadUp, PadControl::DpadUp);
    lemma_only_button(reading, PadButton::DPadDown, PadControl::DpadDown);
    lemma_only_button(reading, PadButton::DPadLeft, PadControl::DpadLeft);
    lemma_only_button(reading, PadButton::DPadRight, PadControl::DpadRight);
    assert(!reading.has_down(PadControl::StickL));
    assert(!reading.has_down(PadControl::StickR));
}

/// A direction's button and its axis mean the same: of two controllers that are
/// otherwise at rest, one with only that button down and one with the pad pushed
/// fully that way, both show exactly the control of that direction.
pub proof fn law_pad_button_and_axis_agree(b: PadReading, a: PadReading, way: PadControl)
    requires
        way is DpadUp || way is DpadDown || way is DpadLeft || way is DpadRight,
        b.down@ == seq![
            match way {
                PadControl::DpadUp => PadButton::DPadUp,
                PadControl::DpadDown => PadButton::DPadDown,
                PadControl::DpadLeft => PadButton::DPadLeft,
                _ => PadButton::DPadRight,
            },
        ],
        b.dpad == (Tilt { x: 0, y: 0 }),
        a.down@.len() == 0,
        way is DpadUp ==> a.dpad == (Tilt { x: 0, y: 1000 }),
        way is DpadDown ==> a.dpad == (Tilt { x: 0, y: (-1000) as i32 }),
        way is DpadLeft ==> a.dpad == (Tilt { x: (-1000) as i32, y: 0 }),
        way is DpadRight ==> a.dpad == (Tilt { x: 1000, y: 0 }),
        forall|r: PadReading| #![trigger r.down@] r == a || r == b ==> {
            &&& r.left_trigger == (0i32, 0i32)
            &&& r.right_trigger == (0i32, 0i32)
            &&& r.stick_l == (Tilt { x: 0, y: 0 })
            &&& r.stick_r == (Tilt { x: 0, y: 0 })
        },
    ensures
        forall|c: PadControl| #[trigger]
            held_among(all_controls(), b).contains(c) == (c == way),
        forall|c: PadControl| #[trigger]
            held_among(all_controls(), a).contains(c) == (c == way),
{
    law_held(a);
    law_held(b);
    let down = b.down@;
    assert(a.down@ =~= Seq::empty());
    assert forall|x: PadButton| #[trigger] down.contains(x) == (x == down[0]) by {}
}

/// What was pressed in a frame is what is held and was not held before; a frame
/// tells the first of it in the order of this list.
pub proof fn law_told_first(reading: PadReading, before: Seq<PadControl>, i: int, j: int)
    requires
        0 <= i < j < new_among(held_among(all_controls(), reading), before).len(),
    ensures
        ({
            let pressed = new_among(held_among(all_controls(), reading), before);
            let told = seq![
                PadControl::A, PadControl::B, PadControl::X, PadControl::Y, PadControl::LB,
                PadControl::RB, PadControl::LT, PadControl::RT, PadControl::Back, PadControl::Start,
                PadControl::DpadUp, PadControl::DpadDown, PadControl::DpadLeft,
                PadControl::DpadRight, PadControl::StickLClick, PadControl::StickRClick,
                PadControl::StickL, PadControl::StickR,
            ];
            exists|m: int, n: int|
                0 <= m < n < told.len() && #[trigger] told[m] == pressed[i] && #[trigger] told[n]
                    == pressed[j]
        }),
{
    let told = seq![
        PadControl::A, PadControl::B, PadControl::X, PadControl::Y, PadControl::LB,
        PadControl::RB, PadControl::LT, PadControl::RT, PadControl::Back, PadControl::Start,
        PadControl::DpadUp, PadControl::DpadDown, PadControl::DpadLeft,
        PadControl::DpadRight, PadControl::StickLClick, PadControl::StickRClick,
        PadControl::StickL, PadControl::StickR,
    ];
    assert(told =~= all_controls());
    let held = held_among(all_controls(), reading);
    let (p, q) = lemma_new_in_order(held, before, i, j);
    let (m, n) = lemma_held_in_order(all_controls(), reading, p, q);
    assert(told[m] == held[p] && told[n] == held[q]);
}

proof fn lemma_new_in_order(list: Seq<PadControl>, before: Seq<PadControl>, i: int, j: int) -> (r: (
    int,
    int,
))
    requires
        0 <= i < j < new_among(list, before).len(),
    ensures
        0 <= r.0 < r.1 < list.len(),
        list[r.0] == new_among(list, before)[i],
        list[r.1] == new_among(list, before)[j],
    decreases list.len(),
{
    let t = list.drop_last();
    let rest = new_among(t, before);
    if j < rest.len() {
        lemma_new_in_order(t, before, i, j)
    } else {
        let p = lemma_new_at(t, before, i);
        (p, list.len() - 1)
    }
}

proof fn lemma_new_at(list: Seq<PadControl>, before: Seq<PadControl>, i: int) -> (p: int)
    requires
        0 <= i < new_among(list, before).len(),
    ensures
        0 <= p < list.len(),
        list[p] == new_among(list, before)[i],
    decreases list.len(),
{
    let t = list.drop_last();
    if i < new_among(t, before).len() {
        lemma_new_at(t, before, i)
    } else {
        list.len() - 1
    }
}

proof fn lemma_held_in_order(list: Seq<PadControl>, reading: PadReading, i: int, j: int) -> (r: (
    int,
    int,
))
    requires
        0 <= i < j < held_among(list, reading).len(),
    ensures
        0 <= r.0 < r.1 < list.len(),
        list[r.0] == held_among(list, reading)[i],
        list[r.1] == held_among(list, reading)[j],
    decreases list.len(),
{
    let t = list.drop_last();
    let rest = held_among(t, reading);
    if j < rest.len() {
        lemma_held_in_order(t, reading, i, j)
    } else {
        let p = lemma_held_at(t, reading, i);
        (p, list.len() - 1)
    }
}

proof fn lemma_held_at(list: Seq<PadControl>, reading: PadReading, i: int) -> (p: int)
    requires
        0 <= i < held_among(list, reading).len(),
    ensures
        0 <= p < list.len(),
        list[p] == held_among(list, reading)[i],
    decreases list.len(),
{
    let t = list.drop_last();
    if i < held_among(t, reading).len() {
        lemma_held_at(t, reading, i)
    } else {
        list.len() - 1
    }
}

/// How far a trigger is pulled: never less than its button says, never less than
/// its axis is away from rest in either direction, as far as a trigger goes; and
/// no more than the one or the other says.
pub proof fn law_pulled(button: i32, axis: i32)
    ensures
        ({
            let p = pulled((button, axis));
            &&& 0 <= p <= 1000
            &&& (button <= 1000 ==> p >= button)
            &&& (axis <= 1000 ==> p >= axis)
            &&& (axis >= -1000 ==> p >= -axis)
            &&& (button >= 1000 || axis >= 1000 || axis <= -1000 ==> p == 1000)
            &&& (p < 1000 ==> p == button || p == axis || p == -axis)
        }),
{
}

/// A controller is in use from being plugged in or pressed until it is
/// unplugged; what happens to another does not take it out of use.
pub proof fn law_in_use(active: Option<usize>, id: usize, other: usize)
    requires
        other != id,
    ensures
        in_use(active, PadEvent::Connected(id)) == Some(id),
        in_use(active, PadEvent::Pressed(id)) == Some(id),
        in_use(Some(id), PadEvent::Disconnected(id)) is None,
        in_use(Some(id), PadEvent::Disconnected(other)) == Some(id),
        in_use(None, PadEvent::Disconnected(id)) is None,
        in_use(active, PadEvent::Other) == active,
{
}

/// A controller at rest is not moved, and any trigger beyond 80 thousandths, or
/// stick that far from its middle, is.
pub proof fn law_moved(f: GamepadFrame)
    ensures
        f.is_moved() == (f.lt > 80 || f.rt > 80 || f.stick_l.x * f.stick_l.x + f.stick_l.y
            * f.stick_l.y > 80 * 80 || f.stick_r.x * f.stick_r.x + f.stick_r.y * f.stick_r.y > 80
            * 80),
        f.is_empty() ==> !f.is_moved(),
{
}

proof fn lemma_same_name(c: PadControl, d: PadControl)
    requires
        lower(c.id_text()) == lower(d.id_text()),
    ensures
        c == d,
{
    reveal_strlit("A");
    reveal_strlit("B");
    reveal_strlit("X");
    reveal_strlit("Y");
    reveal_strlit("LB");
    reveal_strlit("RB");
    reveal_strlit("LT");
    reveal_strlit("RT");
    reveal_strlit("Back");
    reveal_strlit("Start");
    reveal_strlit("DpadUp");
    reveal_strlit("DpadDown");
    reveal_strlit("DpadLeft");
    reveal_strlit("DpadRight");
    reveal_strlit("StickLClick");
    reveal_strlit("StickRClick");
    reveal_strlit("StickL");
    reveal_strlit("StickR");
    let (s, t) = (c.id_text(), d.id_text());
    assert(lower(s).len() == lower(t).len());
    assert(lower(s)[0] == lower(t)[0]);
    if s.len() > 1 {
        assert(lower(s)[1] == lower(t)[1]);
    }
    if s.len() > 5 {
        assert(lower(s)[4] == lower(t)[4]);
        assert(lower(s)[5] == lower(t)[5]);
    }
}

proof fn lemma_named(list: Seq<PadControl>, c: PadControl)
    ensures
        named_in(list, c.id_text()) == list.contains(c),
{
    if named_in(list, c.id_text()) {
        let i = choose|i: int|
            0 <= i < list.len() && lower((#[trigger] list[i]).id_text()) == lower(c.id_text());
        lemma_same_name(list[i], c);
    }
    if list.contains(c) {
        let i = choose|i: int| 0 <= i < list.len() && list[i] == c;
        assert(lower(list[i].id_text()) == lower(c.id_text()));
    }
}

/// Each control goes by one name, and no other control goes by it.
pub proof fn law_names(list: Seq<PadControl>)
    ensures
        named_in(list, "A"@) == list.contains(PadControl::A),
        named_in(list, "B"@) == list.contains(PadControl::B),
        named_in(list, "X"@) == list.contains(PadControl::X),
        named_in(list, "Y"@) == list.contains(PadControl::Y),
        named_in(list, "LB"@) == list.contains(PadControl::LB),
        named_in(list, "RB"@) == list.contains(PadControl::RB),
        named_in(list, "LT"@) == list.contains(PadControl::LT),
        named_in(list, "RT"@) == list.contains(PadControl::RT),
        named_in(list, "Back"@) == list.contains(PadControl::Back),
        named_in(list, "Start"@) == list.contains(PadControl::Start),
        named_in(list, "DpadUp"@) == list.contains(PadControl::DpadUp),
        named_in(list, "DpadDown"@) == list.contains(PadControl::DpadDown),
        named_in(list, "DpadLeft"@) == list.contains(PadControl::DpadLeft),
        named_in(list, "DpadRight"@) == list.contains(PadControl::DpadRight),
        named_in(list, "StickLClick"@) == list.contains(PadControl::StickLClick),
        named_in(list, "StickRClick"@) == list.contains(PadControl::StickRClick),
        named_in(list, "StickL"@) == list.contains(PadControl::StickL),
        named_in(list, "StickR"@) == list.contains(PadControl::StickR),
{
    assert forall|c: PadControl| #[trigger]
        named_in(list, c.id_text()) == list.contains(c) by {
        lemma_named(list, c);
    }
    assert(named_in(list, PadControl::A.id_text()) == list.contains(PadControl::A));
    assert(named_in(list, PadControl::B.id_text()) == list.contains(PadControl::B));
    assert(named_in(list, PadControl::X.id_text()) == list.contains(PadControl::X));
    assert(named_in(list, PadControl::Y.id_text()) == list.contains(PadControl::Y));
    assert(named_in(list, PadControl::LB.id_text()) == list.contains(PadControl::LB));
    assert(named_in(list, PadControl::RB.id_text()) == list.contains(PadControl::RB));
    assert(named_in(list, PadControl::LT.id_text()) == list.contains(PadControl::LT));
    assert(named_in(list, PadControl::RT.id_text()) == list.contains(PadControl::RT));
    assert(named_in(list, PadControl::Back.id_text()) == list.contains(PadControl::Back));
    assert(named_in(list, PadControl::Start.id_text()) == list.contains(PadControl::Start));
    assert(named_in(list, PadControl::DpadUp.id_text()) == list.contains(PadControl::DpadUp));
    assert(named_in(list, PadControl::DpadDown.id_text()) == list.contains(PadControl::DpadDown));
    assert(named_in(list, PadControl::DpadLeft.id_text()) == list.contains(PadControl::DpadLeft));
    assert(named_in(list, PadControl::DpadRight.id_text()) == list.contains(PadControl::DpadRight));
    assert(named_in(list, PadControl::StickLClick.id_text()) == list.contains(
        PadControl::StickLClick,
    ));
    assert(named_in(list, PadControl::StickRClick.id_text()) == list.contains(
        PadControl::StickRClick,
    ));
    assert(named_in(list, PadControl::StickL.id_text()) == list.contains(PadControl::StickL));
    assert(named_in(list, PadControl::StickR.id_text()) == list.contains(PadControl::StickR));
}

/// The case of its letters does not matter in a name that is asked for.
pub proof fn law_names_in_any_case(list: Seq<PadControl>, a: Seq<char>, b: Seq<char>)
    requires
        a.len() == b.len(),
        forall|i: int| #![trigger a[i]]
            0 <= i < a.len() ==> a[i] == b[i] || ('A' <= a[i] <= 'Z' && b[i] as int == a[i] as int
                + 32) || ('A' <= b[i] <= 'Z' && a[i] as int == b[i] as int + 32),
    ensures
        named_in(list, a) == named_in(list, b),
{
    assert(lower(a) =~= lower(b)) by {
        assert forall|i: int| 0 <= i < a.len() implies lower(a)[i] == lower(b)[i] by {
            assert(a[i] == a[i]);
        }
    }
}

} // verus!
