use beautiful_app::presence::{
    Action, ActivityUpdate, Command, PresenceWorker, RpcUiStatus, RECONNECT_EVERY, RESEND_EVERY,
    SEND_EVERY,
};

fn activity(details: &str, state: &str) -> ActivityUpdate {
    ActivityUpdate { details: details.to_string(), state: state.to_string() }
}

#[test]
fn status_numbers_come_back() {
    for s in [RpcUiStatus::Off, RpcUiStatus::Connecting, RpcUiStatus::Connected, RpcUiStatus::Error] {
        assert_eq!(RpcUiStatus::from_u8(s.to_u8()), s);
    }
    assert_eq!(RpcUiStatus::from_u8(1), RpcUiStatus::Off);
    assert_eq!(RpcUiStatus::Connected.label(), "Подключено");
}

#[test]
fn a_worker_that_is_off_is_silent() {
    let mut w = PresenceWorker::new(1000);
    assert!(w.command(Command::Activity(activity("a", "b")), true, false, 1000));
    assert_eq!(w.decide(false, 1000), Action::Wait);
    assert_eq!(w.status, RpcUiStatus::Off);
}

#[test]
fn a_worker_connects_and_sends() {
    let mut w = PresenceWorker::new(0);
    w.command(Command::Configure { enabled: true }, true, false, 0);
    assert_eq!(w.decide(false, 0), Action::Connect);
    assert_eq!(w.status, RpcUiStatus::Connecting);
    assert_eq!(w.connect_tried(true, false, 0), Action::Push);
    w.push_tried(true, 0);
    assert_eq!(w.status, RpcUiStatus::Connected);
    assert_eq!(w.decide(false, RESEND_EVERY - 1), Action::Wait);
    assert_eq!(w.decide(false, RESEND_EVERY), Action::Push);
}

#[test]
fn attempts_and_sendings_are_spaced() {
    let mut w = PresenceWorker::new(0);
    w.command(Command::Configure { enabled: true }, true, false, 0);
    assert_eq!(w.decide(false, 0), Action::Connect);
    w.connect_tried(false, false, 0);
    assert_eq!(w.status, RpcUiStatus::Error);
    assert_eq!(w.decide(false, RECONNECT_EVERY - 1), Action::Wait);
    assert_eq!(w.decide(false, RECONNECT_EVERY), Action::Connect);
    w.connect_tried(true, false, RECONNECT_EVERY);
    w.push_tried(true, 10_000);
    w.need_push = true;
    assert_eq!(w.decide(false, 10_000 + SEND_EVERY - 1), Action::Wait);
    assert_eq!(w.decide(false, 10_000 + SEND_EVERY), Action::Push);
}

#[test]
fn the_end_switches_off() {
    let mut w = PresenceWorker::new(0);
    w.command(Command::Configure { enabled: true }, true, false, 0);
    assert!(!w.command(Command::Shutdown, true, false, 0));
    assert_eq!(w.status, RpcUiStatus::Off);
    assert_eq!(w.decide(true, 0), Action::Stop);
}

#[test]
fn what_is_sent() {
    let mut w = PresenceWorker::new(0);
    w.command(Command::Activity(activity("Рисует", "Холст")), true, false, 0);
    let p = w.payload(77);
    assert_eq!((p.details.as_str(), p.state.as_str(), p.start), ("Рисует", "Холст", 77));
    assert_eq!(p.large_image, "logo");
}
