//! Supervision of the one VPN client process.
//!
//! The supervisor decides; the program around it acts. Every operation
//! answers with an [`Action`]: launch the client, send it the kill signal,
//! or stop because the operation is over. The program reports how a launch
//! or a kill went with [`Handler::spawned`] and [`Handler::killed`], and is
//! told what to do next.

use vstd::prelude::*;
use crate::config::{profiles_of, ConfigError, Entry, File};

verus! {

/// How often a launch, and a kill, is tried before the supervisor gives up.
pub const MAX_ATTEMPTS: u8 = 10;

/// The pause before a launch or a kill is tried again, in milliseconds.
pub const RETRY_DELAY_MS: u64 = 1000;

/// Where the supervisor stands. A client process exists in `Running` and in
/// `Stopping`, and in no other phase; `failures` counts the attempts of the
/// operation under way that have failed.
#[derive(Clone, Copy, Debug, PartialEq, Eq, Structural)]
pub enum Phase {
    Idle,
    Starting { failures: u8 },
    Running,
    Stopping { failures: u8 },
}

/// Why an operation of the supervisor failed.
#[derive(Clone, Copy, Debug, PartialEq, Eq, Structural)]
pub enum HandlerError {
    /// A start was asked for while a client exists or is being launched.
    AlreadyRunning,
    /// Every launch of the client failed.
    SpawnExhausted,
    /// Every kill signal failed; the client is still there.
    TerminateExhausted,
}

/// What the program is to do next.
#[derive(Clone, Copy, Debug, PartialEq, Eq, Structural)]
pub enum Action {
    /// Wait `delay_ms`, launch the client, report with `spawned`.
    Spawn { delay_ms: u64 },
    /// Wait `delay_ms`, send the client one kill signal without waiting
    /// for it to exit, report with `killed`.
    Kill { delay_ms: u64 },
    /// The operation succeeded.
    Completed,
    /// The operation failed.
    Failed(HandlerError),
}

impl Phase {
    /// How many client processes exist in this phase.
    pub open spec fn children(self) -> nat {
        match self {
            Phase::Running | Phase::Stopping { .. } => 1,
            _ => 0,
        }
    }

    /// A start begins a launch only from `Idle`; anywhere else it is
    /// refused and nothing changes.
    pub open spec fn on_start(self) -> (Phase, Action) {
        match self {
            Phase::Idle => (Phase::Starting { failures: 0 }, Action::Spawn { delay_ms: 0 }),
            _ => (self, Action::Failed(HandlerError::AlreadyRunning)),
        }
    }

    /// A launch that worked makes the client run. One that failed is tried
    /// again after a pause, until ten have failed. Outside a start the
    /// report means nothing.
    pub open spec fn on_spawned(self, ok: bool) -> (Phase, Option<Action>) {
        match self {
            Phase::Starting { failures } => if ok {
                (Phase::Running, Some(Action::Completed))
            } else if failures + 1 >= MAX_ATTEMPTS {
                (Phase::Idle, Some(Action::Failed(HandlerError::SpawnExhausted)))
            } else {
                (
                    Phase::Starting { failures: (failures + 1) as u8 },
                    Some(Action::Spawn { delay_ms: RETRY_DELAY_MS }),
                )
            },
            _ => (self, None),
        }
    }

    /// A stop is done at once where no client exists. A running client is
    /// sent the kill signal; a stop under way goes on with another signal.
    pub open spec fn on_stop(self) -> (Phase, Action) {
        match self {
            Phase::Idle | Phase::Starting { .. } => (self, Action::Completed),
            Phase::Running => (Phase::Stopping { failures: 0 }, Action::Kill { delay_ms: 0 }),
            Phase::Stopping { .. } => (self, Action::Kill { delay_ms: 0 }),
        }
    }

    /// A kill that worked ends the client. One that failed is tried again
    /// after a pause, until ten have failed; the client then stays on the
    /// books. Outside a stop the report means nothing.
    pub open spec fn on_killed(self, ok: bool) -> (Phase, Option<Action>) {
        match self {
            Phase::Stopping { failures } => if ok {
                (Phase::Idle, Some(Action::Completed))
            } else if failures + 1 >= MAX_ATTEMPTS {
                (Phase::Running, Some(Action::Failed(HandlerError::TerminateExhausted)))
            } else {
                (
                    Phase::Stopping { failures: (failures + 1) as u8 },
                    Some(Action::Kill { delay_ms: RETRY_DELAY_MS }),
                )
            },
            _ => (self, None),
        }
    }

    /// The phase after `n` more failed launches in a row.
    pub open spec fn after_failed_spawns(self, n: nat) -> Phase
        decreases n,
    {
        if n == 0 {
            self
        } else {
            self.after_failed_spawns((n - 1) as nat).on_spawned(false).0
        }
    }

    /// The phase after `n` more failed kills in a row.
    pub open spec fn after_failed_kills(self, n: nat) -> Phase
        decreases n,
    {
        if n == 0 {
            self
        } else {
            self.after_failed_kills((n - 1) as nat).on_killed(false).0
        }
    }
}

/// The supervisor: the profiles to draw from, and the phase it is in.
pub struct Handler {
    config: File,
    phase: Phase,
}

impl Handler {
    /// The phase the supervisor is in.
    pub closed spec fn phase(&self) -> Phase {
        self.phase
    }

    /// The profiles the supervisor draws from.
    pub closed spec fn config(&self) -> File {
        self.config
    }

    /// A supervisor always has a profile to offer, and never counts past
    /// the limit of attempts.
    pub open spec fn wf(&self) -> bool {
        &&& self.config().files().len() > 0
        &&& match self.phase() {
            Phase::Starting { failures } => failures < MAX_ATTEMPTS,
            Phase::Stopping { failures } => failures < MAX_ATTEMPTS,
            _ => true,
        }
    }

    /// A supervisor over the profiles found in `listing`, with no client.
    /// Without a single profile there is no supervisor.
    pub fn new(listing: &Vec<Entry>) -> (res: Result<Handler, ConfigError>)
        ensures
            match res {
                Ok(handler) => handler.wf() && handler.phase() == Phase::Idle
                    && handler.config().files() == profiles_of(listing@, listing@.len()),
                Err(e) => e == ConfigError::NoFilesFound && profiles_of(
                    listing@,
                    listing@.len(),
                ).len() == 0,
            },
    {
        let mut config = File::new();
        match config.init(listing) {
            Ok(()) => Ok(Handler { config, phase: Phase::Idle }),
            Err(e) => Err(e),
        }
    }

    /// Whether a client process exists.
    pub fn has_child(&self) -> (yes: bool)
        ensures
            yes == (self.phase().children() == 1),
    {
        match self.phase {
            Phase::Running => true,
            Phase::Stopping { .. } => true,
            _ => false,
        }
    }

    /// Asks for the client to be started.
    pub fn start(&mut self) -> (action: Action)
        requires
            old(self).wf(),
        ensures
            final(self).wf(),
            final(self).config() == old(self).config(),
            (final(self).phase(), action) == old(self).phase().on_start(),
    {
        match self.phase {
            Phase::Idle => {
                self.phase = Phase::Starting { failures: 0 };
                Action::Spawn { delay_ms: 0 }
            },
            _ => Action::Failed(HandlerError::AlreadyRunning),
        }
    }

    /// Takes the report on a launch.
    pub fn spawned(&mut self, ok: bool) -> (action: Option<Action>)
        requires
            old(self).wf(),
        ensures
            final(self).wf(),
            final(self).config() == old(self).config(),
            (final(self).phase(), action) == old(self).phase().on_spawned(ok),
    {
        match self.phase {
            Phase::Starting { failures } => {
                if ok {
                    self.phase = Phase::Running;
                    Some(Action::Completed)
                } else if failures + 1 >= MAX_ATTEMPTS {
                    self.phase = Phase::Idle;
                    Some(Action::Failed(HandlerError::SpawnExhausted))
                } else {
                    self.phase = Phase::Starting { failures: failures + 1 };
                    Some(Action::Spawn { delay_ms: RETRY_DELAY_MS })
                }
            },
            _ => None,
        }
    }

    /// Asks for the client to be stopped.
    pub fn stop(&mut self) -> (action: Action)
        requires
            old(self).wf(),
        ensures
            final(self).wf(),
            final(self).config() == old(self).config(),
            (final(self).phase(), action) == old(self).phase().on_stop(),
    {
        match self.phase {
            Phase::Running => {
                self.phase = Phase::Stopping { failures: 0 };
                Action::Kill { delay_ms: 0 }
            },
            Phase::Stopping { .. } => Action::Kill { delay_ms: 0 },
            _ => Action::Completed,
        }
    }

    /// Takes the report on a kill signal.
    pub fn killed(&mut self, ok: bool) -> (action: Option<Action>)
        requires
            old(self).wf(),
        ensures
            final(self).wf(),
            final(self).config() == old(self).config(),
            (final(self).phase(), action) == old(self).phase().on_killed(ok),
    {
        match self.phase {
            Phase::Stopping { failures } => {
                if ok {
                    self.phase = Phase::Idle;
                    Some(Action::Completed)
                } else if failures + 1 >= MAX_ATTEMPTS {
                    self.phase = Phase::Running;
                    Some(Action::Failed(HandlerError::TerminateExhausted))
                } else {
                    self.phase = Phase::Stopping { failures: failures + 1 };
                    Some(Action::Kill { delay_ms: RETRY_DELAY_MS })
                }
            },
            _ => None,
        }
    }

    /// The arguments of one launch of the client: a profile drawn afresh
    /// from the set, and the credentials file. A well-formed supervisor
    /// always has a profile to draw.
    pub fn arguments(&self) -> (res: Result<Vec<String>, ConfigError>)
        ensures
            match res {
                Ok(args) => exists|index: int|
                    0 <= index < self.config().files().len() && Self::arguments_name(
                        args,
                        #[trigger] self.config().files()[index],
                        self.config().auth(),
                    ),
                Err(e) => e == ConfigError::EmptySet && !self.wf(),
            },
    {
        match self.config.get_random_file_path() {
            Ok(profile) => {
                let ghost drawn = profile@;
                let args = Self::arguments_for(profile, self.config.get_auth());
                proof {
                    let files = self.config().files();
                    let index = choose|i: int| 0 <= i < files.len() && files[i] == drawn;
                    assert(Self::arguments_name(args, files[index], self.config().auth()));
                }
                Ok(args)
            },
            Err(e) => Err(e),
        }
    }

    /// Whether `args` is the client's command line for a profile and a
    /// credentials file.
    pub open spec fn arguments_name(args: Vec<String>, profile: Seq<char>, auth: Seq<char>) -> bool {
        &&& args@.len() == 4
        &&& args@[0]@ == "--config"@
        &&& args@[1]@ == profile
        &&& args@[2]@ == "--auth-user-pass"@
        &&& args@[3]@ == auth
    }

    /// The client's command line for a profile and a credentials file.
    pub fn arguments_for(profile: String, auth: &String) -> (args: Vec<String>)
        ensures
            Self::arguments_name(args, profile@, auth@),
    {
        let mut args: Vec<String> = Vec::new();
        args.push(String::from_str("--config"));
        args.push(profile);
        args.push(String::from_str("--auth-user-pass"));
        args.push(auth.clone());
        args
    }

    /// The name of the client binary.
    pub fn program() -> (name: String)
        ensures
            name@ == "openvpn"@,
    {
        String::from_str("openvpn")
    }
}

/// A second start without a stop in between is refused, whatever went
/// before the first, and changes nothing; once the first launch has
/// worked, the number of client processes is one and stays one.
pub proof fn lemma_start_twice(phase: Phase)
    ensures
        phase.on_start().0.on_start() == (
            phase.on_start().0,
            Action::Failed(HandlerError::AlreadyRunning),
        ),
        ({
            let first = phase.on_start().0.on_spawned(true).0;
            let second = first.on_start();
            &&& first.children() == 1
            &&& second.1 == Action::Failed(HandlerError::AlreadyRunning)
            &&& second.0 == first
            &&& second.0.children() == 1
        }),
{
}

/// Wherever a client exists or is being launched, a start is refused and
/// changes nothing: no phase holds more than one client.
pub proof fn lemma_at_most_one_child(phase: Phase)
    ensures
        phase.children() <= 1,
        phase != Phase::Idle ==> phase.on_start() == (
            phase,
            Action::Failed(HandlerError::AlreadyRunning),
        ),
        phase.on_start().0.children() == phase.children(),
{
}

/// A stop without a client succeeds at once, launches nothing and changes
/// nothing.
pub proof fn lemma_stop_without_child(phase: Phase)
    requires
        phase.children() == 0,
    ensures
        phase.on_stop() == (phase, Action::Completed),
{
}

/// A start whose launches all fail is tried again after a pause of one
/// second each time, nine times over, and gives up at the tenth failure,
/// with no client left behind.
pub proof fn lemma_spawn_exhausts(n: nat)
    requires
        n < MAX_ATTEMPTS,
    ensures
        ({
            let begun = Phase::Idle.on_start().0;
            let reached = begun.after_failed_spawns(n);
            &&& reached == Phase::Starting { failures: n as u8 }
            &&& n + 1 < MAX_ATTEMPTS ==> reached.on_spawned(false).1 == Some(
                Action::Spawn { delay_ms: RETRY_DELAY_MS },
            )
            &&& n + 1 == MAX_ATTEMPTS ==> reached.on_spawned(false) == (
                Phase::Idle,
                Some(Action::Failed(HandlerError::SpawnExhausted)),
            )
        }),
    decreases n,
{
    if n > 0 {
        lemma_spawn_exhausts((n - 1) as nat);
    }
}

/// A stop whose kill signals all fail gives up at the tenth failure, and
/// the client is still counted.
pub proof fn lemma_kill_exhausts(n: nat)
    requires
        n < MAX_ATTEMPTS,
    ensures
        ({
            let begun = Phase::Running.on_stop().0;
            let reached = begun.after_failed_kills(n);
            &&& reached == Phase::Stopping { failures: n as u8 }
            &&& n + 1 < MAX_ATTEMPTS ==> reached.on_killed(false).1 == Some(
                Action::Kill { delay_ms: RETRY_DELAY_MS },
            )
            &&& n + 1 == MAX_ATTEMPTS ==> reached.on_killed(false) == (
                Phase::Running,
                Some(Action::Failed(HandlerError::TerminateExhausted)),
            )
        }),
    decreases n,
{
    if n > 0 {
        lemma_kill_exhausts((n - 1) as nat);
    }
}

} // verus!
