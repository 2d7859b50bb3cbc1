//! The serial-driven state machine: what the switch says, what was last
//! acted upon, and what is to happen next.
//!
//! One pass of the runner goes through up to three steps. [`Runner::begin`]
//! looks at the cancel flag; [`Runner::received`] takes what the serial
//! line gave; [`Runner::completed`] takes the supervisor's result where
//! the switch asked for a change. Each step answers with an [`Order`].

use vstd::prelude::*;
use vstd::string::StringSliceAdditionalSpecFns;
use crate::text::{spells, trimmed};

verus! {

/// The pause between a successful start of the client and the
/// announcement that the connection stands, in seconds.
pub const CONNECT_SETTLE_SECS: u64 = 10;

/// The pause between a stop of the client and the announcement that the
/// connection is gone, in seconds.
pub const DISCONNECT_SETTLE_SECS: u64 = 5;

/// The speed of the serial line, in baud.
pub const SERIAL_BAUD: u32 = 57600;

/// How long one read off the serial line may block, in seconds. A set
/// cancel flag is seen after one such read at the latest.
pub const SERIAL_TIMEOUT_SECS: u64 = 10;

/// How many bytes one read off the serial line takes at most.
pub const SERIAL_READ_SIZE: usize = 9;

/// The device the switch is attached to.
pub fn serial_device() -> (path: String)
    ensures
        path@ == "/dev/ttyACM0"@,
{
    String::from_str("/dev/ttyACM0")
}

/// What one read off the serial line says.
#[derive(Clone, Copy, Debug, PartialEq, Eq, Structural)]
pub enum SerialEvent {
    TurnOn,
    TurnOff,
    Unrecognized,
}

/// How one read off the serial line ended.
#[derive(Clone, Copy, Debug, PartialEq, Eq, Structural)]
pub enum Reading {
    /// Bytes arrived.
    Event(SerialEvent),
    /// The read ended without a byte.
    Silence,
    /// The read failed.
    Failure,
}

/// What the runner last acted upon. A runner that has not acted yet
/// stands in `Idle`, as after a `TurnOff`.
#[derive(Clone, Copy, Debug, PartialEq, Eq, Structural)]
pub enum Mode {
    /// No client process; the last command acted upon is not `TurnOn`.
    Idle,
    /// The last command acted upon is `TurnOn`.
    Connected,
    /// The runner has ended, by cancellation or by a fatal error.
    Stopped,
}

/// Which step of a pass comes next.
#[derive(Clone, Copy, Debug, PartialEq, Eq, Structural)]
pub enum Stage {
    /// At the top of the loop.
    Ready,
    /// A read is under way.
    Reading,
    /// The supervisor is at work.
    Switching,
}

/// What the program is to do next.
#[derive(Clone, Copy, Debug, PartialEq, Eq, Structural)]
pub enum Order {
    /// Read from the serial line, report with `received`.
    Read,
    /// Have the supervisor start the client, report with `completed`.
    Connect,
    /// Have the supervisor stop the client, report with `completed`.
    Disconnect,
    /// Wait for the settle delay, then send the status message and write
    /// the log line of the new status.
    Announce { connected: bool },
    /// Nothing to do; go to the top of the loop.
    Pass,
    /// Have the supervisor stop the client, whatever its state, and leave
    /// the loop.
    Shutdown,
    /// Leave the loop with the error at hand.
    Abort,
}

/// Where a runner stands: what it last acted upon, and how far the pass
/// at hand has come.
#[derive(Clone, Copy, Debug, PartialEq, Eq, Structural)]
pub struct State {
    pub mode: Mode,
    pub stage: Stage,
}

/// The bytes that ask for the connection.
pub open spec fn turn_on_word() -> Seq<u8> {
    "Turn On".spec_bytes()
}

/// The bytes that ask for the connection to end.
pub open spec fn turn_off_word() -> Seq<u8> {
    "Turn Off".spec_bytes()
}

/// What a read says: one of the two words, white space around it aside,
/// or nothing that the runner knows.
pub open spec fn event_of(bytes: Seq<u8>) -> SerialEvent {
    if trimmed(bytes) == turn_on_word() {
        SerialEvent::TurnOn
    } else if trimmed(bytes) == turn_off_word() {
        SerialEvent::TurnOff
    } else {
        SerialEvent::Unrecognized
    }
}

/// Reads the switch's message out of the bytes of one read.
pub fn parse_serial(bytes: &[u8]) -> (event: SerialEvent)
    ensures
        event == event_of(bytes@),
{
    if spells(bytes, "Turn On".as_bytes()) {
        SerialEvent::TurnOn
    } else if spells(bytes, "Turn Off".as_bytes()) {
        SerialEvent::TurnOff
    } else {
        SerialEvent::Unrecognized
    }
}

impl State {
    /// A runner before its first pass.
    pub open spec fn initial() -> State {
        State { mode: Mode::Idle, stage: Stage::Ready }
    }

    /// The top of the loop. A set cancel flag ends the runner before
    /// anything is read; otherwise a read is due. A runner that has ended,
    /// or is in the middle of a pass, passes the call over.
    pub open spec fn on_begin(self, cancel: bool) -> (State, Option<Order>) {
        if self.mode == Mode::Stopped || self.stage != Stage::Ready {
            (self, None)
        } else if cancel {
            (State { mode: Mode::Stopped, stage: Stage::Ready }, Some(Order::Shutdown))
        } else {
            (State { mode: self.mode, stage: Stage::Reading }, Some(Order::Read))
        }
    }

    /// The outcome of a read. A failed read ends the runner. A command is
    /// acted upon only where it differs from the one last acted upon;
    /// everything else leaves the runner as it was.
    pub open spec fn on_received(self, reading: Reading) -> (State, Option<Order>) {
        if self.mode == Mode::Stopped || self.stage != Stage::Reading {
            (self, None)
        } else {
            match reading {
                Reading::Failure => (
                    State { mode: Mode::Stopped, stage: Stage::Ready },
                    Some(Order::Abort),
                ),
                Reading::Event(SerialEvent::TurnOn) if self.mode == Mode::Idle => (
                    State { mode: Mode::Connected, stage: Stage::Switching },
                    Some(Order::Connect),
                ),
                Reading::Event(SerialEvent::TurnOff) if self.mode == Mode::Connected => (
                    State { mode: Mode::Idle, stage: Stage::Switching },
                    Some(Order::Disconnect),
                ),
                _ => (State { mode: self.mode, stage: Stage::Ready }, Some(Order::Pass)),
            }
        }
    }

    /// The supervisor's result. Success is announced, and only then; a
    /// failure ends the runner.
    pub open spec fn on_completed(self, ok: bool) -> (State, Option<Order>) {
        if self.mode == Mode::Stopped || self.stage != Stage::Switching {
            (self, None)
        } else if ok {
            (
                State { mode: self.mode, stage: Stage::Ready },
                Some(Order::Announce { connected: self.mode == Mode::Connected }),
            )
        } else {
            (State { mode: Mode::Stopped, stage: Stage::Ready }, Some(Order::Abort))
        }
    }

    /// The state after one whole pass without cancellation, in which the
    /// line said `event` and the supervisor did what it was asked.
    pub open spec fn after_pass(self, event: SerialEvent) -> State {
        let read = self.on_begin(false).0.on_received(Reading::Event(event));
        if read.1 == Some(Order::Connect) || read.1 == Some(Order::Disconnect) {
            read.0.on_completed(true).0
        } else {
            read.0
        }
    }

    /// How often such a pass has the supervisor start the client: once or
    /// not at all.
    pub open spec fn starts_in_pass(self, event: SerialEvent) -> nat {
        if self.on_begin(false).0.on_received(Reading::Event(event)).1 == Some(Order::Connect) {
            1
        } else {
            0
        }
    }

    /// How often such a pass announces that the connection stands.
    pub open spec fn announcements_in_pass(self, event: SerialEvent) -> nat {
        let read = self.on_begin(false).0.on_received(Reading::Event(event));
        if read.1 == Some(Order::Connect) && read.0.on_completed(true).1 == Some(
            Order::Announce { connected: true },
        ) {
            1
        } else {
            0
        }
    }

    /// The state after `n` passes in which the line said `event` each
    /// time.
    pub open spec fn after_repeated(self, event: SerialEvent, n: nat) -> State
        decreases n,
    {
        if n == 0 {
            self
        } else {
            self.after_repeated(event, (n - 1) as nat).after_pass(event)
        }
    }

    /// How often the supervisor is asked to start the client in the
    /// course of `n` passes in which the line said `event` each time.
    pub open spec fn starts_in_repeated(self, event: SerialEvent, n: nat) -> nat
        decreases n,
    {
        if n == 0 {
            0
        } else {
            self.starts_in_repeated(event, (n - 1) as nat) + self.after_repeated(
                event,
                (n - 1) as nat,
            ).starts_in_pass(event)
        }
    }

    /// How often the connection is announced in the course of such passes.
    pub open spec fn announcements_in_repeated(self, event: SerialEvent, n: nat) -> nat
        decreases n,
    {
        if n == 0 {
            0
        } else {
            self.announcements_in_repeated(event, (n - 1) as nat) + self.after_repeated(
                event,
                (n - 1) as nat,
            ).announcements_in_pass(event)
        }
    }
}

/// The runner of one worker thread.
pub struct Runner {
    state: State,
}

impl Runner {
    /// Where the runner stands.
    pub closed spec fn state(&self) -> State {
        self.state
    }

    /// A runner that has not acted yet.
    pub fn new() -> (runner: Runner)
        ensures
            runner.state() == State::initial(),
    {
        Runner { state: State { mode: Mode::Idle, stage: Stage::Ready } }
    }

    /// What the runner last acted upon.
    pub fn mode(&self) -> (mode: Mode)
        ensures
            mode == self.state().mode,
    {
        self.state.mode
    }

    /// Begins a pass: looks at the cancel flag before anything is read.
    pub fn begin(&mut self, cancel: bool) -> (order: Option<Order>)
        ensures
            (final(self).state(), order) == old(self).state().on_begin(cancel),
    {
        if self.state.mode == Mode::Stopped || self.state.stage != Stage::Ready {
            None
        } else if cancel {
            self.state = State { mode: Mode::Stopped, stage: Stage::Ready };
            Some(Order::Shutdown)
        } else {
            self.state.stage = Stage::Reading;
            Some(Order::Read)
        }
    }

    /// Takes the outcome of the read.
    pub fn received(&mut self, reading: Reading) -> (order: Option<Order>)
        ensures
            (final(self).state(), order) == old(self).state().on_received(reading),
    {
        if self.state.mode == Mode::Stopped || self.state.stage != Stage::Reading {
            return None;
        }
        match reading {
            Reading::Failure => {
                self.state = State { mode: Mode::Stopped, stage: Stage::Ready };
                Some(Order::Abort)
            },
            Reading::Event(SerialEvent::TurnOn) => {
                if self.state.mode == Mode::Idle {
                    self.state = State { mode: Mode::Connected, stage: Stage::Switching };
                    Some(Order::Connect)
                } else {
                    self.state.stage = Stage::Ready;
                    Some(Order::Pass)
                }
            },
            Reading::Event(SerialEvent::TurnOff) => {
                if self.state.mode == Mode::Connected {
                    self.state = State { mode: Mode::Idle, stage: Stage::Switching };
                    Some(Order::Disconnect)
                } else {
                    self.state.stage = Stage::Ready;
                    Some(Order::Pass)
                }
            },
            _ => {
                self.state.stage = Stage::Ready;
                Some(Order::Pass)
            },
        }
    }

    /// Takes the supervisor's result.
    pub fn completed(&mut self, ok: bool) -> (order: Option<Order>)
        ensures
            (final(self).state(), order) == old(self).state().on_completed(ok),
    {
        if self.state.mode == Mode::Stopped || self.state.stage != Stage::Switching {
            None
        } else if ok {
            self.state.stage = Stage::Ready;
            Some(Order::Announce { connected: self.state.mode == Mode::Connected })
        } else {
            self.state = State { mode: Mode::Stopped, stage: Stage::Ready };
            Some(Order::Abort)
        }
    }
}

/// The settle delay before a new status is announced, in seconds.
pub fn settle_seconds(connected: bool) -> (seconds: u64)
    ensures
        seconds == if connected {
            CONNECT_SETTLE_SECS
        } else {
            DISCONNECT_SETTLE_SECS
        },
{
    if connected {
        CONNECT_SETTLE_SECS
    } else {
        DISCONNECT_SETTLE_SECS
    }
}

/// The log line of a new status.
pub fn log_message(connected: bool) -> (message: String)
    ensures
        message@ == if connected {
            "VPN STATUS CHANGE: Connected"@
        } else {
            "VPN STATUS CHANGE: Disconnected"@
        },
{
    if connected {
        String::from_str("VPN STATUS CHANGE: Connected")
    } else {
        String::from_str("VPN STATUS CHANGE: Disconnected")
    }
}

/// A command that was acted upon is passed over when it comes again:
/// nothing is asked of the supervisor, nothing is announced, and the
/// runner stands where it stood.
pub proof fn lemma_repeat_is_passed_over(state: State, event: SerialEvent)
    requires
        state.stage == Stage::Ready,
        state.mode != Mode::Stopped,
    ensures
        ({
            let acted = state.after_pass(event);
            let read = acted.on_begin(false).0.on_received(Reading::Event(event));
            &&& read.1 == Some(Order::Pass)
            &&& acted.after_pass(event) == acted
            &&& acted.starts_in_pass(event) == 0
            &&& acted.announcements_in_pass(event) == 0
        }),
{
}

/// However often the line says `TurnOn` in a row, a fresh runner has the
/// supervisor start the client exactly once, and announces the connection
/// exactly once.
pub proof fn lemma_turn_on_acts_once(n: nat)
    requires
        n >= 1,
    ensures
        State::initial().starts_in_repeated(SerialEvent::TurnOn, n) == 1,
        State::initial().announcements_in_repeated(SerialEvent::TurnOn, n) == 1,
        State::initial().after_repeated(SerialEvent::TurnOn, n) == (State {
            mode: Mode::Connected,
            stage: Stage::Ready,
        }),
    decreases n,
{
    reveal_with_fuel(State::after_repeated, 2);
    reveal_with_fuel(State::starts_in_repeated, 2);
    reveal_with_fuel(State::announcements_in_repeated, 2);
    if n > 1 {
        lemma_turn_on_acts_once((n - 1) as nat);
    }
}

/// Nothing is announced before the supervisor has reported success: an
/// announcement is the answer to `completed(true)` and to nothing else.
pub proof fn lemma_announcement_follows_success(state: State, cancel: bool, reading: Reading, ok: bool)
    ensures
        !(state.on_begin(cancel).1 matches Some(Order::Announce { .. })),
        !(state.on_received(reading).1 matches Some(Order::Announce { .. })),
        state.on_completed(ok).1 matches Some(Order::Announce { .. }) ==> ok && state.stage
            == Stage::Switching,
{
}

/// A set cancel flag at the top of the loop ends the runner whatever it
/// last acted upon, with the order to stop the client; once ended, the
/// runner answers nothing.
pub proof fn lemma_cancellation(state: State, cancel: bool, reading: Reading, ok: bool)
    requires
        state.stage == Stage::Ready,
        state.mode != Mode::Stopped,
    ensures
        state.on_begin(true) == (
            State { mode: Mode::Stopped, stage: Stage::Ready },
            Some(Order::Shutdown),
        ),
        state.on_begin(true).0.on_begin(cancel).1 is None,
        state.on_begin(true).0.on_received(reading).1 is None,
        state.on_begin(true).0.on_completed(ok).1 is None,
{
}

} // verus!
