//! Telling a chat program what is being worked on.
//!
//! The connection itself is made elsewhere. Here is when to make it, when to
//! send and what, and what the settings page says of it. The clock counts
//! milliseconds.
use vstd::prelude::*;
use crate::text::same_text;

verus! {

/// The program's public number with the chat service.
pub const BEAUTIFUL_DISCORD_CLIENT_ID: &'static str = "1533882048182222968";

/// The name of the logo among the program's pictures there.
pub const DISCORD_ASSET_LOGO: &'static str = "logo";

/// Milliseconds that make any waiting time count as over.
pub const LONG_AGO: i64 = 60_000;

/// Milliseconds between two attempts to connect.
pub const RECONNECT_EVERY: i64 = 2_000;

/// Milliseconds after which what is shown is sent again.
pub const RESEND_EVERY: i64 = 15_000;

/// Milliseconds between two sendings at the least.
pub const SEND_EVERY: i64 = 3_000;

/// Two lines about what is being done.
#[derive(Debug)]
pub struct ActivityUpdate {
    pub details: String,
    pub state: String,
}

#[verifier::ext_equal]
pub struct Activity {
    pub details: Seq<char>,
    pub state: Seq<char>,
}

impl View for ActivityUpdate {
    type V = Activity;

    open spec fn view(&self) -> Activity {
        Activity { details: self.details@, state: self.state@ }
    }
}

/// How the connection stands.
#[derive(Clone, Copy, Debug, PartialEq, Eq, Structural)]
pub enum RpcUiStatus {
    Off,
    Connecting,
    Connected,
    Error,
}

impl RpcUiStatus {
    pub open spec fn of_number(v: u8) -> RpcUiStatus {
        if v == 2 {
            RpcUiStatus::Connecting
        } else if v == 3 {
            RpcUiStatus::Connected
        } else if v == 4 {
            RpcUiStatus::Error
        } else {
            RpcUiStatus::Off
        }
    }

    /// The status with a number; off for a number that none has.
    pub fn from_u8(v: u8) -> (r: RpcUiStatus)
        ensures
            r == RpcUiStatus::of_number(v),
    {
        match v {
            2 => RpcUiStatus::Connecting,
            3 => RpcUiStatus::Connected,
            4 => RpcUiStatus::Error,
            _ => RpcUiStatus::Off,
        }
    }

    pub open spec fn number(self) -> u8 {
        match self {
            RpcUiStatus::Off => 0,
            RpcUiStatus::Connecting => 2,
            RpcUiStatus::Connected => 3,
            RpcUiStatus::Error => 4,
        }
    }

    /// The status's number.
    pub fn to_u8(self) -> (r: u8)
        ensures
            r == self.number(),
    {
        match self {
            RpcUiStatus::Off => 0,
            RpcUiStatus::Connecting => 2,
            RpcUiStatus::Connected => 3,
            RpcUiStatus::Error => 4,
        }
    }

    pub fn label(self) -> (r: &'static str)
        ensures
            r@ == (match self {
                RpcUiStatus::Off => "Выключено"@,
                RpcUiStatus::Connecting => "Подключение к Discord…"@,
                RpcUiStatus::Connected => "Подключено"@,
                RpcUiStatus::Error => "Ошибка IPC (запущен Discord desktop?)"@,
            }),
    {
        match self {
            RpcUiStatus::Off => "Выключено",
            RpcUiStatus::Connecting => "Подключение к Discord…",
            RpcUiStatus::Connected => "Подключено",
            RpcUiStatus::Error => "Ошибка IPC (запущен Discord desktop?)",
        }
    }
}

/// A status is found again by its number.
pub proof fn law_status_numbers(s: RpcUiStatus)
    ensures
        RpcUiStatus::of_number(s.number()) == s,
{
}

/// What the program asks of the worker.
pub enum Command {
    Configure { enabled: bool },
    Activity(ActivityUpdate),
    Shutdown,
}

/// What the worker does next.
#[derive(Clone, Copy, Debug, PartialEq, Eq, Structural)]
pub enum Action {
    /// It ends.
    Stop,
    /// It waits for the next command.
    Wait,
    /// It connects.
    Connect,
    /// It sends.
    Push,
}

/// The worker as a value.
#[verifier::ext_equal]
pub struct Presence {
    pub enabled: bool,
    pub connected: bool,
    pub last: Activity,
    pub last_push: i64,
    pub last_reconnect: i64,
    pub need_push: bool,
    pub status: RpcUiStatus,
}

pub struct PresenceWorker {
    pub enabled: bool,
    /// Whether there is a connection.
    pub connected: bool,
    pub last: ActivityUpdate,
    /// When something was last sent.
    pub last_push: i64,
    /// When a connection was last tried.
    pub last_reconnect: i64,
    pub need_push: bool,
    pub status: RpcUiStatus,
}

impl View for PresenceWorker {
    type V = Presence;

    open spec fn view(&self) -> Presence {
        Presence {
            enabled: self.enabled,
            connected: self.connected,
            last: self.last@,
            last_push: self.last_push,
            last_reconnect: self.last_reconnect,
            need_push: self.need_push,
            status: self.status,
        }
    }
}

/// Whether a time is one that the clock can show.
pub open spec fn is_time(now: i64) -> bool {
    0 <= now < 0x4000_0000_0000_0000
}

impl Presence {
    /// Whether the times are ones that the clock has shown, or long before
    /// one.
    pub open spec fn wf(self) -> bool {
        &&& -LONG_AGO <= self.last_push < 0x4000_0000_0000_0000
        &&& -LONG_AGO <= self.last_reconnect < 0x4000_0000_0000_0000
    }

    /// Without a connection, and off.
    pub open spec fn off(self) -> Presence {
        Presence { connected: false, status: RpcUiStatus::Off, ..self }
    }

    /// Switched on or off. A change closes the connection, and the next attempt
    /// and sending are due at once.
    pub open spec fn configured(self, enabled: bool, now: i64) -> Presence {
        if enabled == self.enabled {
            self
        } else {
            Presence {
                enabled,
                connected: false,
                last_reconnect: (now - LONG_AGO) as i64,
                need_push: true,
                ..self
            }
        }
    }

    /// With something new to send at once.
    pub open spec fn with_activity(self, a: Activity, now: i64) -> Presence {
        Presence { last: a, need_push: true, last_push: (now - LONG_AGO) as i64, ..self }
    }

    /// After a command: the first of a round, or one of those that came with
    /// it. The first is passed over where it says nothing new. `stopping` tells
    /// whether the program is ending.
    pub open spec fn commanded(self, c: Command, first: bool, stopping: bool, now: i64) -> Presence {
        match c {
            Command::Shutdown => self.off(),
            Command::Configure { enabled } => self.configured(enabled, now),
            Command::Activity(a) => if stopping {
                self.off()
            } else if first && a@ == self.last {
                self
            } else {
                self.with_activity(a@, now)
            },
        }
    }

    /// What comes next, once all commands have been taken.
    pub open spec fn next(self, stopping: bool, now: i64) -> Action {
        if stopping {
            Action::Stop
        } else if !self.enabled {
            Action::Wait
        } else if !self.connected {
            if now - self.last_reconnect < RECONNECT_EVERY {
                Action::Wait
            } else {
                Action::Connect
            }
        } else {
            self.next_push(now)
        }
    }

    /// Whether to send over a connection: what is new, or what has been shown
    /// for long, and not too soon after the last sending.
    pub open spec fn next_push(self, now: i64) -> Action {
        let waited = now - self.last_push;
        if !self.need_push && waited < RESEND_EVERY || waited < SEND_EVERY {
            Action::Wait
        } else {
            Action::Push
        }
    }

    /// The state with what comes next decided.
    pub open spec fn decided(self, stopping: bool, now: i64) -> Presence {
        if stopping || !self.enabled {
            self.off()
        } else if !self.connected {
            if now - self.last_reconnect < RECONNECT_EVERY {
                Presence { status: RpcUiStatus::Connecting, ..self }
            } else {
                Presence { status: RpcUiStatus::Connecting, last_reconnect: now, ..self }
            }
        } else {
            self.decided_push(now)
        }
    }

    pub open spec fn decided_push(self, now: i64) -> Presence {
        if !self.need_push && now - self.last_push < RESEND_EVERY {
            Presence { status: RpcUiStatus::Connected, ..self }
        } else {
            self
        }
    }

    /// After an attempt to connect.
    pub open spec fn tried(self, ok: bool, stopping: bool, now: i64) -> Presence {
        if !ok {
            Presence { status: RpcUiStatus::Error, ..self }
        } else if stopping {
            self.off()
        } else {
            Presence {
                connected: true,
                need_push: true,
                last_push: (now - LONG_AGO) as i64,
                ..self
            }
        }
    }

    /// After a sending. A failure closes the connection, and the next attempt is
    /// due at once.
    pub open spec fn sent(self, ok: bool, now: i64) -> Presence {
        if ok {
            Presence {
                need_push: false,
                last_push: now,
                status: RpcUiStatus::Connected,
                ..self
            }
        } else {
            Presence {
                connected: false,
                last_reconnect: (now - LONG_AGO) as i64,
                status: RpcUiStatus::Error,
                ..self
            }
        }
    }
}

/// What is sent: the two lines, since when, and the logo.
pub struct Payload {
    pub details: String,
    pub state: String,
    pub start: i64,
    pub large_image: String,
    pub large_text: String,
}

impl PresenceWorker {
    /// The worker at its start: off, with nothing waited for.
    pub fn new(now: i64) -> (r: PresenceWorker)
        requires
            is_time(now),
        ensures
            r@ == (Presence {
                enabled: false,
                connected: false,
                last: Activity { details: "Beautiful"@, state: "Idle"@ },
                last_push: (now - LONG_AGO) as i64,
                last_reconnect: (now - LONG_AGO) as i64,
                need_push: false,
                status: RpcUiStatus::Off,
            }),
            r@.wf(),
    {
        PresenceWorker {
            enabled: false,
            connected: false,
            last: ActivityUpdate { details: "Beautiful".to_owned(), state: "Idle".to_owned() },
            last_push: now - LONG_AGO,
            last_reconnect: now - LONG_AGO,
            need_push: false,
            status: RpcUiStatus::Off,
        }
    }

    fn switch_off(&mut self)
        ensures
            final(self)@ == old(self)@.off(),
    {
        self.connected = false;
        self.status = RpcUiStatus::Off;
    }

    /// Takes a command; tells whether the worker goes on.
    pub fn command(&mut self, c: Command, first: bool, stopping: bool, now: i64) -> (r: bool)
        requires
            is_time(now),
            old(self)@.wf(),
        ensures
            final(self)@ == old(self)@.commanded(c, first, stopping, now),
            final(self)@.wf(),
            r == !(c is Shutdown || c is Activity && stopping),
    {
        match c {
            Command::Shutdown => {
                self.switch_off();
                false
            },
            Command::Configure { enabled } => {
                if enabled != self.enabled {
                    self.enabled = enabled;
                    self.connected = false;
                    self.last_reconnect = now - LONG_AGO;
                    self.need_push = true;
                }
                true
            },
            Command::Activity(a) => {
                if stopping {
                    self.switch_off();
                    return false;
                }
                let same: bool = same_text(a.details.as_str(), self.last.details.as_str())
                    && same_text(a.state.as_str(), self.last.state.as_str());
                assert(same == (a@ == self@.last)) by {
                    if same {
                        assert(a@ =~= self@.last);
                    }
                }
                if !(first && same) {
                    self.last = a;
                    self.need_push = true;
                    self.last_push = now - LONG_AGO;
                }
                true
            },
        }
    }

    /// Decides what comes next, once all commands have been taken.
    pub fn decide(&mut self, stopping: bool, now: i64) -> (r: Action)
        requires
            is_time(now),
            old(self)@.wf(),
        ensures
            final(self)@ == old(self)@.decided(stopping, now),
            final(self)@.wf(),
            r == old(self)@.next(stopping, now),
    {
        if stopping {
            self.switch_off();
            return Action::Stop;
        }
        if !self.enabled {
            self.switch_off();
            return Action::Wait;
        }
        if !self.connected {
            self.status = RpcUiStatus::Connecting;
            if now - self.last_reconnect < RECONNECT_EVERY {
                return Action::Wait;
            }
            self.last_reconnect = now;
            return Action::Connect;
        }
        self.decide_push(now)
    }

    /// Decides whether to send over the connection.
    pub fn decide_push(&mut self, now: i64) -> (r: Action)
        requires
            is_time(now),
            old(self)@.wf(),
        ensures
            final(self)@ == old(self)@.decided_push(now),
            final(self)@.wf(),
            r == old(self)@.next_push(now),
    {
        let waited: i64 = now - self.last_push;
        if !self.need_push && waited < RESEND_EVERY {
            self.status = RpcUiStatus::Connected;
            return Action::Wait;
        }
        if waited < SEND_EVERY {
            Action::Wait
        } else {
            Action::Push
        }
    }

    /// After an attempt to connect: what comes next.
    pub fn connect_tried(&mut self, ok: bool, stopping: bool, now: i64) -> (r: Action)
        requires
            is_time(now),
            old(self)@.wf(),
        ensures
            final(self)@ == old(self)@.tried(ok, stopping, now),
            final(self)@.wf(),
            r == (if !ok {
                Action::Wait
            } else if stopping {
                Action::Stop
            } else {
                Action::Push
            }),
    {
        if !ok {
            self.status = RpcUiStatus::Error;
            return Action::Wait;
        }
        if stopping {
            self.switch_off();
            return Action::Stop;
        }
        self.connected = true;
        self.need_push = true;
        self.last_push = now - LONG_AGO;
        Action::Push
    }

    /// After a sending.
    pub fn push_tried(&mut self, ok: bool, now: i64)
        requires
            is_time(now),
            old(self)@.wf(),
        ensures
            final(self)@ == old(self)@.sent(ok, now),
            final(self)@.wf(),
    {
        if ok {
            self.need_push = false;
            self.last_push = now;
            self.status = RpcUiStatus::Connected;
        } else {
            self.connected = false;
            self.last_reconnect = now - LONG_AGO;
            self.status = RpcUiStatus::Error;
        }
    }

    /// What to send. `start` is when the program began, in seconds since 1970.
    pub fn payload(&self, start: i64) -> (r: Payload)
        ensures
            r.details@ == self@.last.details,
            r.state@ == self@.last.state,
            r.start == start,
            r.large_image@ == DISCORD_ASSET_LOGO@,
            r.large_text@ == "Beautiful"@,
    {
        Payload {
            details: self.last.details.as_str().to_owned(),
            state: self.last.state.as_str().to_owned(),
            start,
            large_image: DISCORD_ASSET_LOGO.to_owned(),
            large_text: "Beautiful".to_owned(),
        }
    }
}

/// Nothing is sent, and no connection tried, while switched off or ending; and
/// then the status is off and the connection closed.
pub proof fn law_off_is_silent(p: Presence, stopping: bool, now: i64)
    requires
        stopping || !p.enabled,
    ensures
        !(p.next(stopping, now) is Push),
        !(p.next(stopping, now) is Connect),
        p.decided(stopping, now).status is Off,
        !p.decided(stopping, now).connected,
{
}

/// Between two sendings there are at least three seconds, unless something new
/// came or the connection is new.
pub proof fn law_sendings_are_spaced(p: Presence, sent_at: i64, now: i64)
    requires
        p.connected,
        p.enabled,
        p.sent(true, sent_at).next(false, now) is Push,
    ensures
        now - sent_at >= SEND_EVERY,
        now - sent_at >= RESEND_EVERY,
{
}

/// Something new is sent at the next decision over a connection.
pub proof fn law_news_are_sent(p: Presence, a: ActivityUpdate, now: i64)
    requires
        p.wf(),
        is_time(now),
        p.connected,
        p.enabled,
        a@ != p.last,
    ensures
        p.commanded(Command::Activity(a), true, false, now).next(false, now) is Push,
        p.commanded(Command::Activity(a), true, false, now).last == a@,
{
}

/// The numbers of the states; any other number is taken for off.
pub proof fn law_numbered_states(v: u8)
    ensures
        RpcUiStatus::Off.number() == 0,
        RpcUiStatus::Connecting.number() == 2,
        RpcUiStatus::Connected.number() == 3,
        RpcUiStatus::Error.number() == 4,
        RpcUiStatus::of_number(v) is Connecting <==> v == 2,
        RpcUiStatus::of_number(v) is Connected <==> v == 3,
        RpcUiStatus::of_number(v) is Error <==> v == 4,
        RpcUiStatus::of_number(v) is Off <==> v != 2 && v != 3 && v != 4,
{
}

/// While there is no connection one is tried, no sooner than two seconds after
/// the last attempt, and each attempt starts the two seconds anew.
pub proof fn law_attempts_are_spaced(p: Presence, now: i64, later: i64)
    requires
        p.enabled,
        !p.connected,
    ensures
        now - p.last_reconnect >= 2_000 ==> p.next(false, now) is Connect,
        now - p.last_reconnect < 2_000 ==> p.next(false, now) is Wait,
        p.decided(false, now).status is Connecting,
        !p.decided(false, now).connected,
        p.next(false, now) is Connect ==> p.decided(false, now).last_reconnect == now,
        p.next(false, now) is Wait ==> p.decided(false, now).last_reconnect == p.last_reconnect,
        p.next(false, now) is Connect && later - now < 2_000 ==> p.decided(false, now).next(
            false,
            later,
        ) is Wait,
{
}

/// Over a connection something is sent 15 seconds after the last time, and with
/// news already three seconds after it.
pub proof fn law_sent_when_due(p: Presence, now: i64)
    requires
        p.enabled,
        p.connected,
    ensures
        now - p.last_push >= 15_000 ==> p.next(false, now) is Push,
        now - p.last_push < 3_000 ==> p.next(false, now) is Wait,
        3_000 <= now - p.last_push < 15_000 ==> (p.next(false, now) is Push <==> p.need_push),
        p.next(false, now) is Push || p.next(false, now) is Wait,
        p.decided(false, now).connected,
        p.decided(false, now).last == p.last,
{
}

/// A new connection is used at once; one that failed is told, and changes
/// nothing else.
pub proof fn law_after_an_attempt(p: Presence, now: i64)
    requires
        p.wf(),
        is_time(now),
        p.enabled,
    ensures
        p.tried(true, false, now).connected,
        p.tried(true, false, now).next(false, now) is Push,
        p.tried(true, false, now).last == p.last,
        !p.tried(true, true, now).connected,
        p.tried(true, true, now).status is Off,
        p.tried(false, false, now) == (Presence { status: RpcUiStatus::Error, ..p }),
{
}

/// What was sent is not sent again at once; after a failure the connection is
/// given up, told as an error, and tried anew at once with the same news.
pub proof fn law_after_sending(p: Presence, now: i64)
    requires
        p.wf(),
        is_time(now),
        p.enabled,
        p.connected,
    ensures
        p.sent(true, now).status is Connected,
        p.sent(true, now).connected,
        !p.sent(true, now).need_push,
        p.sent(true, now).next(false, now) is Wait,
        p.sent(true, now).last == p.last,
        p.sent(false, now).status is Error,
        !p.sent(false, now).connected,
        p.sent(false, now).next(false, now) is Connect,
        p.sent(false, now).need_push == p.need_push,
        p.sent(false, now).last == p.last,
{
}

/// Switched on, a connection is tried at once; switched off, nothing is done;
/// switched to what it is, nothing changes. Shutting down ends it.
pub proof fn law_switched(p: Presence, enabled: bool, first: bool, now: i64)
    requires
        p.wf(),
        is_time(now),
    ensures
        p.commanded(Command::Configure { enabled }, first, false, now).enabled == enabled,
        enabled == p.enabled ==> p.commanded(Command::Configure { enabled }, first, false, now) == p,
        enabled && !p.enabled ==> p.commanded(Command::Configure { enabled }, first, false, now).next(
            false,
            now,
        ) is Connect,
        !enabled ==> p.commanded(Command::Configure { enabled }, first, false, now).next(
            false,
            now,
        ) is Wait,
        !p.commanded(Command::Shutdown, first, false, now).connected,
        p.commanded(Command::Shutdown, first, false, now).status is Off,
        p.next(true, now) is Stop,
{
}

/// What was told last is what is sent: told again at first it changes nothing,
/// and told later it is sent again.
pub proof fn law_told_activity(p: Presence, a: ActivityUpdate, first: bool, now: i64)
    requires
        p.wf(),
        is_time(now),
        p.enabled,
        p.connected,
    ensures
        p.commanded(Command::Activity(a), first, false, now).last == a@,
        first && a@ == p.last ==> p.commanded(Command::Activity(a), first, false, now) == p,
        !(first && a@ == p.last) ==> p.commanded(Command::Activity(a), first, false, now).next(
            false,
            now,
        ) is Push,
        p.commanded(Command::Activity(a), first, true, now).status is Off,
{
}

} // verus!
