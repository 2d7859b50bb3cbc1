//! The control surface: the commands `status`, `start` and `stop`, the
//! one runner they govern, and the flag that cancels it.

use vstd::prelude::*;
use vstd::string::StringSliceAdditionalSpecFns;
use crate::retry::Backoff;
use crate::text::{spells, trimmed};

verus! {

/// How long the log maintenance sleeps between two checks, in seconds.
pub const MAINTENANCE_INTERVAL_SECS: u64 = 3600;

/// How many bytes of a connection are read for a command.
pub const COMMAND_READ_SIZE: usize = 7;

/// The address of the control socket.
pub fn control_socket_path() -> (path: String)
    ensures
        path@ == "/tmp/vpn-control.sock"@,
{
    String::from_str("/tmp/vpn-control.sock")
}

/// The commands of the control socket.
#[derive(Clone, Copy, Debug, PartialEq, Eq, Structural)]
pub enum ControlCommand {
    Status,
    Start,
    Stop,
}

/// The lines the daemon answers with.
#[derive(Clone, Copy, Debug, PartialEq, Eq, Structural)]
pub enum Reply {
    Running,
    NotRunning,
    AlreadyRunning,
    Started,
    Stopping,
    Stopped,
    Invalid,
}

/// What the accept loop is to do with a command.
#[derive(Clone, Copy, Debug, PartialEq, Eq, Structural)]
pub enum Directive {
    /// Write the reply.
    Answer(Reply),
    /// Spawn the runner's thread, log the start and acknowledge it.
    Launch,
    /// Raise the cancel flag, tell the caller, wait until the runner's
    /// thread has ended, and report with `joined`.
    Join,
    /// Nothing to do and nothing to write.
    Nothing,
}

/// The daemon's whole state: whether a runner is tracked, and whether it
/// was told to end.
#[derive(Clone, Copy, Debug, PartialEq, Eq, Structural)]
pub struct DaemonState {
    pub runner_active: bool,
    pub cancel_flag: bool,
}

/// The command that a read off the control socket spells, white space
/// around it aside; `None` for anything else.
pub open spec fn command_of(bytes: Seq<u8>) -> Option<ControlCommand> {
    if trimmed(bytes) == "status".spec_bytes() {
        Some(ControlCommand::Status)
    } else if trimmed(bytes) == "start".spec_bytes() {
        Some(ControlCommand::Start)
    } else if trimmed(bytes) == "stop".spec_bytes() {
        Some(ControlCommand::Stop)
    } else {
        None
    }
}

/// Reads a command out of the bytes of one read.
pub fn parse_command(bytes: &[u8]) -> (command: Option<ControlCommand>)
    ensures
        command == command_of(bytes@),
{
    if spells(bytes, "status".as_bytes()) {
        Some(ControlCommand::Status)
    } else if spells(bytes, "start".as_bytes()) {
        Some(ControlCommand::Start)
    } else if spells(bytes, "stop".as_bytes()) {
        Some(ControlCommand::Stop)
    } else {
        None
    }
}

impl Reply {
    /// The line that a reply is written as.
    pub open spec fn line(self) -> Seq<char> {
        match self {
            Reply::Running => "Daemon is running"@,
            Reply::NotRunning => "Daemon is not running"@,
            Reply::AlreadyRunning => "Daemon is already running"@,
            Reply::Started => "Daemon started"@,
            Reply::Stopping => "Killing VPN if needed..."@,
            Reply::Stopped => "Stopped listening to Arduino..."@,
            Reply::Invalid => "Received invalid command!"@,
        }
    }

    /// The line that a reply is written as.
    pub fn text(self) -> (line: String)
        ensures
            line@ == self.line(),
    {
        match self {
            Reply::Running => String::from_str("Daemon is running"),
            Reply::NotRunning => String::from_str("Daemon is not running"),
            Reply::AlreadyRunning => String::from_str("Daemon is already running"),
            Reply::Started => String::from_str("Daemon started"),
            Reply::Stopping => String::from_str("Killing VPN if needed..."),
            Reply::Stopped => String::from_str("Stopped listening to Arduino..."),
            Reply::Invalid => String::from_str("Received invalid command!"),
        }
    }
}

impl DaemonState {
    /// The cancel flag is never up while no runner is there to take it
    /// down again.
    pub open spec fn wf(self) -> bool {
        self.cancel_flag ==> self.runner_active
    }

    /// How many runners the daemon tracks.
    pub open spec fn runners(self) -> nat {
        if self.runner_active {
            1
        } else {
            0
        }
    }

    /// A daemon without a runner.
    pub open spec fn initial() -> DaemonState {
        DaemonState { runner_active: false, cancel_flag: false }
    }

    /// What a command does. `status` only reports. `start` launches a
    /// runner unless one is tracked. `stop` raises the flag and waits for
    /// the runner, and does nothing at all where there is none, or where
    /// a stop is under way. Anything else is answered as invalid.
    pub open spec fn on_command(self, command: Option<ControlCommand>) -> (DaemonState, Directive) {
        match command {
            Some(ControlCommand::Status) => (
                self,
                Directive::Answer(
                    if self.runner_active {
                        Reply::Running
                    } else {
                        Reply::NotRunning
                    },
                ),
            ),
            Some(ControlCommand::Start) => if self.runner_active {
                (self, Directive::Answer(Reply::AlreadyRunning))
            } else {
                (
                    DaemonState { runner_active: true, cancel_flag: self.cancel_flag },
                    Directive::Launch,
                )
            },
            Some(ControlCommand::Stop) => if self.runner_active && !self.cancel_flag {
                (DaemonState { runner_active: true, cancel_flag: true }, Directive::Join)
            } else {
                (self, Directive::Nothing)
            },
            None => (self, Directive::Answer(Reply::Invalid)),
        }
    }

    /// What the end of the runner's thread does, once it was told to end:
    /// the runner is forgotten and the flag taken down.
    pub open spec fn on_joined(self) -> (DaemonState, Option<Reply>) {
        if self.runner_active && self.cancel_flag {
            (DaemonState { runner_active: false, cancel_flag: false }, Some(Reply::Stopped))
        } else {
            (self, None)
        }
    }
}

/// The control daemon.
pub struct Daemon {
    state: DaemonState,
}

impl Daemon {
    /// The daemon's state.
    pub closed spec fn state(&self) -> DaemonState {
        self.state
    }

    /// A daemon without a runner, its cancel flag down.
    pub fn new() -> (daemon: Daemon)
        ensures
            daemon.state() == DaemonState::initial(),
            daemon.state().wf(),
    {
        Daemon { state: DaemonState { runner_active: false, cancel_flag: false } }
    }

    /// Whether a runner is tracked.
    pub fn is_running(&self) -> (yes: bool)
        ensures
            yes == self.state().runner_active,
    {
        self.state.runner_active
    }

    /// Whether the runner was told to end.
    pub fn cancel_requested(&self) -> (yes: bool)
        ensures
            yes == self.state().cancel_flag,
    {
        self.state.cancel_flag
    }

    /// Takes a command off the control socket; `None` stands for input
    /// that is no command.
    pub fn handle(&mut self, command: Option<ControlCommand>) -> (directive: Directive)
        ensures
            (final(self).state(), directive) == old(self).state().on_command(command),
            old(self).state().wf() ==> final(self).state().wf(),
    {
        match command {
            Some(ControlCommand::Status) => {
                if self.state.runner_active {
                    Directive::Answer(Reply::Running)
                } else {
                    Directive::Answer(Reply::NotRunning)
                }
            },
            Some(ControlCommand::Start) => {
                if self.state.runner_active {
                    Directive::Answer(Reply::AlreadyRunning)
                } else {
                    self.state.runner_active = true;
                    Directive::Launch
                }
            },
            Some(ControlCommand::Stop) => {
                if self.state.runner_active && !self.state.cancel_flag {
                    self.state.cancel_flag = true;
                    Directive::Join
                } else {
                    Directive::Nothing
                }
            },
            None => Directive::Answer(Reply::Invalid),
        }
    }

    /// Takes the news that the runner's thread has ended.
    pub fn joined(&mut self) -> (reply: Option<Reply>)
        ensures
            (final(self).state(), reply) == old(self).state().on_joined(),
            old(self).state().wf() ==> final(self).state().wf(),
    {
        if self.state.runner_active && self.state.cancel_flag {
            self.state = DaemonState { runner_active: false, cancel_flag: false };
            Some(Reply::Stopped)
        } else {
            None
        }
    }
}

/// The attempts given to one reply on the control socket: six, with 50 ms
/// between them.
pub fn reply_backoff() -> (backoff: Backoff)
    ensures
        backoff.limit() == 6,
        backoff.delay_ms() == 50,
        backoff.failures() == 0,
{
    Backoff::new(6, 50)
}

/// The attempts given to the first connection to the status socket: ten,
/// with 250 ms between them.
pub fn startup_backoff() -> (backoff: Backoff)
    ensures
        backoff.limit() == 10,
        backoff.delay_ms() == 250,
        backoff.failures() == 0,
{
    Backoff::new(10, 250)
}

/// A reply as it goes over the control socket: the line, its line break,
/// and an empty line after it.
pub fn wire_form(message: &str) -> (frame: String)
    ensures
        frame@ == message@ + seq!['\n', '\n'],
{
    let mut frame = String::from_str(message);
    frame.append("\n\n");
    proof {
        reveal_strlit("\n\n");
        assert(frame@ =~= message@ + seq!['\n', '\n']);
    }
    frame
}

/// The log line of a failed log maintenance, after the failure in words.
pub fn update_failure_log(failure: &str) -> (line: String)
    ensures
        line@ == "Failed to update logger: "@ + failure@,
{
    let mut line = String::from_str("Failed to update logger: ");
    line.append(failure);
    line
}

/// The log line of a started runner.
pub fn started_log() -> (line: String)
    ensures
        line@ == "Daemon started"@,
{
    String::from_str("Daemon started")
}

/// The log line of a stopped runner.
pub fn stopped_log() -> (line: String)
    ensures
        line@ == "Stopped listening"@,
{
    String::from_str("Stopped listening")
}

/// Two starts without a stop between them: whatever the daemon's state,
/// the second is answered with "already running" and changes nothing, and
/// one runner is tracked after each.
pub proof fn lemma_start_twice(state: DaemonState)
    ensures
        ({
            let once = state.on_command(Some(ControlCommand::Start)).0;
            let twice = once.on_command(Some(ControlCommand::Start));
            &&& once.runners() == 1
            &&& twice.1 == Directive::Answer(Reply::AlreadyRunning)
            &&& twice.0 == once
            &&& twice.0.runners() == 1
        }),
{
}

/// A stop without a runner succeeds without an effect: the state stays as
/// it was, the cancel flag stays down, and no runner is launched.
pub proof fn lemma_stop_without_runner(state: DaemonState)
    requires
        state.wf(),
        !state.runner_active,
    ensures
        state.on_command(Some(ControlCommand::Stop)) == (state, Directive::Nothing),
        !state.on_command(Some(ControlCommand::Stop)).0.cancel_flag,
        state.on_command(Some(ControlCommand::Stop)).0.runners() == 0,
{
}

/// No command and no report leaves the cancel flag up without a runner,
/// and none makes the daemon track more than one.
pub proof fn lemma_flag_needs_runner(state: DaemonState, command: Option<ControlCommand>)
    requires
        state.wf(),
    ensures
        state.on_command(command).0.wf(),
        state.on_joined().0.wf(),
        state.on_command(command).0.runners() <= 1,
        DaemonState::initial().wf(),
{
}

/// A runner that was stopped and has ended leaves a daemon whose next
/// start is not cancelled in advance.
pub proof fn lemma_restart_after_stop(state: DaemonState)
    requires
        state.wf(),
        state.runner_active,
        !state.cancel_flag,
    ensures
        ({
            let stopping = state.on_command(Some(ControlCommand::Stop));
            let ended = stopping.0.on_joined();
            let again = ended.0.on_command(Some(ControlCommand::Start));
            &&& stopping.1 == Directive::Join
            &&& stopping.0.cancel_flag
            &&& ended == (DaemonState::initial(), Some(Reply::Stopped))
            &&& again == (
                DaemonState { runner_active: true, cancel_flag: false },
                Directive::Launch,
            )
        }),
{
}

} // verus!
