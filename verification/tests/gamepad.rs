use beautiful_app::gamepad::{
    trigger_value, AnalogSource, GamepadInput, PadButton, PadControl, PadEvent, PadReading, PadsSeen,
    Tilt,
};

fn reading(down: Vec<PadButton>) -> PadReading {
    PadReading {
        name: "pad".to_string(),
        down,
        left_trigger: (0, 0),
        right_trigger: (0, 0),
        dpad: Tilt { x: 0, y: 0 },
        stick_l: Tilt { x: 0, y: 0 },
        stick_r: Tilt { x: 0, y: 0 },
    }
}

#[test]
fn triggers_take_the_larger_value() {
    assert_eq!(trigger_value(300, -700), 700);
    assert_eq!(trigger_value(900, 100), 900);
    assert_eq!(trigger_value(0, -4000), 1000);
}

#[test]
fn buttons_have_their_controls() {
    assert_eq!(PadButton::South.button_id(), Some(PadControl::A));
    assert_eq!(PadButton::LeftTrigger.button_id(), Some(PadControl::LB));
    assert_eq!(PadButton::LeftTrigger2.button_id(), Some(PadControl::LT));
    assert_eq!(PadButton::Unknown.button_id(), None);
}

#[test]
fn a_press_is_told_once() {
    let mut g = GamepadInput::new(0);
    g.read(0, reading(vec![PadButton::South]));
    assert!(g.frame().button_pressed(PadControl::A.id()));
    assert!(g.frame().button_held(PadControl::A.id()));
    g.read(0, reading(vec![PadButton::South]));
    assert!(!g.frame().button_pressed(PadControl::A.id()));
    assert!(g.frame().button_held(PadControl::A.id()));
    g.read(0, reading(vec![]));
    assert!(!g.frame().button_held(PadControl::A.id()));
    g.read(0, reading(vec![PadButton::South]));
    assert!(g.frame().button_pressed(PadControl::A.id()));
}

#[test]
fn pulled_triggers_and_pushed_pads_are_held() {
    let mut r = reading(vec![]);
    r.left_trigger = (0, 1000);
    r.dpad = Tilt { x: -1000, y: 0 };
    assert!(r.is_held(PadControl::LT));
    assert!(r.is_held(PadControl::DpadLeft));
    assert!(!r.is_held(PadControl::RT));
    assert!(!r.is_held(PadControl::DpadRight));
    let mut g = GamepadInput::new(0);
    g.read(3, r);
    assert_eq!(g.frame().lt, 1000);
    assert!(matches!(g.frame().analog_source(PadControl::LT.id()), AnalogSource::Trigger(1000)));
}

#[test]
fn controllers_come_and_go() {
    let mut g = GamepadInput::new(0);
    assert!(g.init_due(0));
    assert!(!g.init_due(1));
    g.note(PadEvent::Connected(2));
    assert_eq!(g.active, Some(2));
    assert_eq!(g.pick_pad(true, Some(5)), Some(2));
    assert_eq!(g.pick_pad(false, Some(5)), Some(5));
    g.note(PadEvent::Disconnected(2));
    assert_eq!(g.active, None);
    g.read(1, reading(vec![PadButton::East]));
    assert!(g.frame().connected);
    g.no_pad();
    assert!(!g.frame().connected);
    assert!(!g.frame().button_held(PadControl::B.id()));
}

#[test]
fn bindings_stand_for_controls() {
    let mut g = GamepadInput::new(0);
    g.read(0, reading(vec![PadButton::North]));
    assert!(g.frame().action_pressed(Some(PadControl::Y.id())));
    assert!(g.frame().action_held(Some(PadControl::Y.id())));
    assert!(!g.frame().action_pressed(None));
    assert!(!g.frame().action_held(Some("nothing")));
}

#[test]
fn polling_tells_rising_edges() {
    let mut g = GamepadInput::new(0);
    g.poll(PadsSeen::Pad(2, reading(vec![PadButton::South, PadButton::East])));
    assert_eq!(g.frame().pressed, vec![PadControl::A, PadControl::B]);
    assert_eq!(g.frame().last_pressed, Some(PadControl::A));
    g.poll(PadsSeen::Pad(2, reading(vec![PadButton::East, PadButton::North])));
    assert_eq!(g.frame().pressed.len(), 1);
    assert_eq!(g.frame().last_pressed, Some(g.frame().pressed[0]));
    g.poll(PadsSeen::Nothing);
    assert!(!g.frame().connected && g.prev_held.is_empty());
    g.poll(PadsSeen::Pad(2, reading(vec![PadButton::East])));
    assert_eq!(g.frame().pressed, vec![PadControl::B]);
    g.poll(PadsSeen::Unreachable);
    assert!(!g.frame().connected);
}
