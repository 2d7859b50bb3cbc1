//! The client of the status socket: one connection, replaced when it
//! breaks, and a bounded number of attempts for every message.
//!
//! The client decides and the program acts, as with the supervisor: the
//! program opens the socket and writes to it, reports with
//! [`Notifier::connected`] and [`Notifier::written`], and is told what to
//! do next.

use vstd::prelude::*;

verus! {

/// How often a connection, and a delivery, is tried.
pub const MAX_ATTEMPTS: u8 = 10;

/// The pause between two attempts to connect, in milliseconds.
pub const CONNECT_DELAY_MS: u64 = 50;

/// The pause before a message is written again, in milliseconds.
pub const SEND_DELAY_MS: u64 = 250;

/// Why an operation of the client failed.
#[derive(Clone, Copy, Debug, PartialEq, Eq, Structural)]
pub enum NotifierError {
    /// The socket could not be reached.
    ConnectFailed,
    /// The message was written ten times, and never went through.
    DeliveryFailed,
}

/// Where the client stands. `failures` counts the failed attempts to
/// connect in a row, `refused` the failed writes of the message at hand.
#[derive(Clone, Copy, Debug, PartialEq, Eq, Structural)]
pub enum Phase {
    /// Nothing under way; `connected` says whether a connection is held.
    Idle { connected: bool },
    /// Connecting, with no message waiting.
    Connecting { failures: u8 },
    /// Replacing a connection, with a message waiting.
    Reconnecting { failures: u8, refused: u8 },
    /// Writing a message.
    Sending { refused: u8 },
}

/// What the program is to do next.
#[derive(Clone, Copy, Debug, PartialEq, Eq, Structural)]
pub enum Action {
    /// Wait `delay_ms`, drop the connection if there is one, open a new
    /// one, report with `connected`.
    Connect { delay_ms: u64 },
    /// Wait `delay_ms`, write the message, report with `written`.
    Write { delay_ms: u64 },
    /// The operation succeeded.
    Completed,
    /// The operation failed.
    Failed(NotifierError),
}

impl Phase {
    /// Every counter is below the limit of attempts.
    pub open spec fn wf(self) -> bool {
        match self {
            Phase::Idle { .. } => true,
            Phase::Connecting { failures } => failures < MAX_ATTEMPTS,
            Phase::Reconnecting { failures, refused } => failures < MAX_ATTEMPTS && refused
                <= MAX_ATTEMPTS,
            Phase::Sending { refused } => refused < MAX_ATTEMPTS,
        }
    }

    /// Asked to connect, an idle client opens a connection. While
    /// something is under way the request is passed over.
    pub open spec fn on_connect(self) -> (Phase, Option<Action>) {
        match self {
            Phase::Idle { .. } => (
                Phase::Connecting { failures: 0 },
                Some(Action::Connect { delay_ms: 0 }),
            ),
            _ => (self, None),
        }
    }

    /// Asked to send, an idle client writes at once over the connection it
    /// holds, and connects first where it holds none.
    pub open spec fn on_send(self) -> (Phase, Option<Action>) {
        match self {
            Phase::Idle { connected } => if connected {
                (Phase::Sending { refused: 0 }, Some(Action::Write { delay_ms: 0 }))
            } else {
                (
                    Phase::Reconnecting { failures: 0, refused: 0 },
                    Some(Action::Connect { delay_ms: 0 }),
                )
            },
            _ => (self, None),
        }
    }

    /// The pause before the next write of a message that was refused
    /// `refused` times.
    pub open spec fn write_delay(refused: u8) -> u64 {
        if refused == 0 {
            0
        } else {
            SEND_DELAY_MS
        }
    }

    /// A failed attempt to connect is repeated after a pause until ten
    /// have failed. A new connection ends a plain connect; with a message
    /// waiting, the message is written again, unless it was refused ten
    /// times already.
    pub open spec fn on_connected(self, ok: bool) -> (Phase, Option<Action>) {
        match self {
            Phase::Connecting { failures } => if ok {
                (Phase::Idle { connected: true }, Some(Action::Completed))
            } else if failures + 1 >= MAX_ATTEMPTS {
                (Phase::Idle { connected: false }, Some(Action::Failed(NotifierError::ConnectFailed)))
            } else {
                (
                    Phase::Connecting { failures: (failures + 1) as u8 },
                    Some(Action::Connect { delay_ms: CONNECT_DELAY_MS }),
                )
            },
            Phase::Reconnecting { failures, refused } => if ok {
                if refused >= MAX_ATTEMPTS {
                    (
                        Phase::Idle { connected: true },
                        Some(Action::Failed(NotifierError::DeliveryFailed)),
                    )
                } else {
                    (
                        Phase::Sending { refused },
                        Some(Action::Write { delay_ms: Self::write_delay(refused) }),
                    )
                }
            } else if failures + 1 >= MAX_ATTEMPTS {
                (Phase::Idle { connected: false }, Some(Action::Failed(NotifierError::ConnectFailed)))
            } else {
                (
                    Phase::Reconnecting { failures: (failures + 1) as u8, refused },
                    Some(Action::Connect { delay_ms: CONNECT_DELAY_MS }),
                )
            },
            _ => (self, None),
        }
    }

    /// A write that went through ends the send. After one that did not,
    /// the connection is replaced before anything else.
    pub open spec fn on_written(self, ok: bool) -> (Phase, Option<Action>) {
        match self {
            Phase::Sending { refused } => if ok {
                (Phase::Idle { connected: true }, Some(Action::Completed))
            } else {
                (
                    Phase::Reconnecting { failures: 0, refused: (refused + 1) as u8 },
                    Some(Action::Connect { delay_ms: 0 }),
                )
            },
            _ => (self, None),
        }
    }

    /// The phase after `n` more writes that the socket refused, each
    /// followed by a connection that worked at once.
    pub open spec fn after_refusals(self, n: nat) -> Phase
        decreases n,
    {
        if n == 0 {
            self
        } else {
            self.after_refusals((n - 1) as nat).on_written(false).0.on_connected(true).0
        }
    }

    /// The phase after `n` more failed attempts to connect in a row.
    pub open spec fn after_failed_connects(self, n: nat) -> Phase
        decreases n,
    {
        if n == 0 {
            self
        } else {
            self.after_failed_connects((n - 1) as nat).on_connected(false).0
        }
    }
}

/// The client of the status socket.
pub struct Notifier {
    phase: Phase,
}

impl Notifier {
    /// The phase the client is in.
    pub closed spec fn phase(&self) -> Phase {
        self.phase
    }

    /// A client that holds no connection yet.
    pub fn new() -> (notifier: Notifier)
        ensures
            notifier.phase() == (Phase::Idle { connected: false }),
    {
        Notifier { phase: Phase::Idle { connected: false } }
    }

    /// The address of the status socket.
    pub fn socket_path() -> (path: String)
        ensures
            path@ == "/tmp/vpn-status.sock"@,
    {
        String::from_str("/tmp/vpn-status.sock")
    }

    /// Whether the client holds a connection and has nothing under way.
    pub fn is_connected(&self) -> (yes: bool)
        ensures
            yes == (self.phase() == Phase::Idle { connected: true }),
    {
        match self.phase {
            Phase::Idle { connected } => connected,
            _ => false,
        }
    }

    /// Asks for a connection.
    pub fn connect(&mut self) -> (action: Option<Action>)
        requires
            old(self).phase().wf(),
        ensures
            final(self).phase().wf(),
            (final(self).phase(), action) == old(self).phase().on_connect(),
    {
        match self.phase {
            Phase::Idle { .. } => {
                self.phase = Phase::Connecting { failures: 0 };
                Some(Action::Connect { delay_ms: 0 })
            },
            _ => None,
        }
    }

    /// Asks for a message to be delivered.
    pub fn send_message(&mut self) -> (action: Option<Action>)
        requires
            old(self).phase().wf(),
        ensures
            final(self).phase().wf(),
            (final(self).phase(), action) == old(self).phase().on_send(),
    {
        match self.phase {
            Phase::Idle { connected } => {
                if connected {
                    self.phase = Phase::Sending { refused: 0 };
                    Some(Action::Write { delay_ms: 0 })
                } else {
                    self.phase = Phase::Reconnecting { failures: 0, refused: 0 };
                    Some(Action::Connect { delay_ms: 0 })
                }
            },
            _ => None,
        }
    }

    /// Takes the report on an attempt to connect.
    pub fn connected(&mut self, ok: bool) -> (action: Option<Action>)
        requires
            old(self).phase().wf(),
        ensures
            final(self).phase().wf(),
            (final(self).phase(), action) == old(self).phase().on_connected(ok),
    {
        match self.phase {
            Phase::Connecting { failures } => {
                if ok {
                    self.phase = Phase::Idle { connected: true };
                    Some(Action::Completed)
                } else if failures + 1 >= MAX_ATTEMPTS {
                    self.phase = Phase::Idle { connected: false };
                    Some(Action::Failed(NotifierError::ConnectFailed))
                } else {
                    self.phase = Phase::Connecting { failures: failures + 1 };
                    Some(Action::Connect { delay_ms: CONNECT_DELAY_MS })
                }
            },
            Phase::Reconnecting { failures, refused } => {
                if ok {
                    if refused >= MAX_ATTEMPTS {
                        self.phase = Phase::Idle { connected: true };
                        Some(Action::Failed(NotifierError::DeliveryFailed))
                    } else {
                        self.phase = Phase::Sending { refused };
                        let delay_ms: u64 = if refused == 0 {
                            0
                        } else {
                            SEND_DELAY_MS
                        };
                        Some(Action::Write { delay_ms })
                    }
                } else if failures + 1 >= MAX_ATTEMPTS {
                    self.phase = Phase::Idle { connected: false };
                    Some(Action::Failed(NotifierError::ConnectFailed))
                } else {
                    self.phase = Phase::Reconnecting { failures: failures + 1, refused };
                    Some(Action::Connect { delay_ms: CONNECT_DELAY_MS })
                }
            },
            _ => None,
        }
    }

    /// Takes the report on a write.
    pub fn written(&mut self, ok: bool) -> (action: Option<Action>)
        requires
            old(self).phase().wf(),
        ensures
            final(self).phase().wf(),
            (final(self).phase(), action) == old(self).phase().on_written(ok),
    {
        match self.phase {
            Phase::Sending { refused } => {
                if ok {
                    self.phase = Phase::Idle { connected: true };
                    Some(Action::Completed)
                } else {
                    self.phase = Phase::Reconnecting { failures: 0, refused: refused + 1 };
                    Some(Action::Connect { delay_ms: 0 })
                }
            },
            _ => None,
        }
    }
}

/// The message that announces a change of the connection's status.
pub fn status_message(connected: bool) -> (message: String)
    ensures
        message@ == if connected {
            "STATUS Connected"@
        } else {
            "STATUS Disconnected"@
        },
{
    if connected {
        String::from_str("STATUS Connected")
    } else {
        String::from_str("STATUS Disconnected")
    }
}

/// The message that reports a failure, with its free text.
pub fn failure_message(text: &str) -> (message: String)
    ensures
        message@ == "FAIL - "@ + text@,
{
    let mut message = String::from_str("FAIL - ");
    message.append(text);
    message
}

/// A message that the socket refuses `n` times, with `n` below ten, is
/// written an `n + 1`st time after a pause; if that write goes through,
/// the send succeeds. The tenth refusal ends the send as undelivered.
pub proof fn lemma_delivery_within_limit(n: nat)
    requires
        n < MAX_ATTEMPTS,
    ensures
        ({
            let begun = (Phase::Idle { connected: true }).on_send().0;
            let reached = begun.after_refusals(n);
            &&& reached == Phase::Sending { refused: n as u8 }
            &&& reached.on_written(true) == (
                Phase::Idle { connected: true },
                Some(Action::Completed),
            )
            &&& n + 1 < MAX_ATTEMPTS ==> reached.on_written(false).0.on_connected(true).1 == Some(
                Action::Write { delay_ms: SEND_DELAY_MS },
            )
            &&& n + 1 == MAX_ATTEMPTS ==> reached.on_written(false).0.on_connected(true) == (
                Phase::Idle { connected: true },
                Some(Action::Failed(NotifierError::DeliveryFailed)),
            )
        }),
    decreases n,
{
    if n > 0 {
        lemma_delivery_within_limit((n - 1) as nat);
    }
}

/// A socket that cannot be reached is tried ten times, with a pause
/// before every attempt but the first, and then given up.
pub proof fn lemma_connect_exhausts(n: nat, connected: bool)
    requires
        n < MAX_ATTEMPTS,
    ensures
        ({
            let begun = (Phase::Idle { connected }).on_connect().0;
            let reached = begun.after_failed_connects(n);
            &&& reached == Phase::Connecting { failures: n as u8 }
            &&& n + 1 < MAX_ATTEMPTS ==> reached.on_connected(false).1 == Some(
                Action::Connect { delay_ms: CONNECT_DELAY_MS },
            )
            &&& n + 1 == MAX_ATTEMPTS ==> reached.on_connected(false) == (
                Phase::Idle { connected: false },
                Some(Action::Failed(NotifierError::ConnectFailed)),
            )
        }),
    decreases n,
{
    if n > 0 {
        lemma_connect_exhausts((n - 1) as nat, connected);
    }
}

} // verus!
