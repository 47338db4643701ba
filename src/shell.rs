use vstd::prelude::*;

verus! {

/// Number of spawn-and-query cycles before giving up.
pub const MAX_ATTEMPTS: u32 = 10;

/// Seconds to wait before each cycle, the first one included.
pub const RETRY_DELAY_SECS: u64 = 1;

/// The exit code with which the client reports that it could not connect.
pub const CONNECT_FAILED_EXIT_CODE: i32 = 2;

/// The error recorded when the client exits with `CONNECT_FAILED_EXIT_CODE`.
pub const CONNECT_FAILED_ERROR: &'static str = "Failed to connect, psql exited immediately";

/// The error recorded when the spawned client offers no writable input.
pub const NO_STDIN_ERROR: &'static str = "Child did not have a handle to stdin";

/// The client program and its fixed connection arguments.
pub const CLIENT_PROGRAM: &'static str = "psql";
pub const CLIENT_ARGS: [&'static str; 6] = ["-h", "postgresql", "-U", "user", "-a", "db"];

/// Where the spawn-and-query cycle stands.
#[derive(Clone, Copy, Debug, PartialEq, Eq, Structural)]
pub enum ShellPhase {
    /// Waiting before the next cycle.
    Sleeping,
    /// The client process is being spawned.
    Spawning,
    /// The client had no writable input and is being terminated.
    Killing,
    /// The query was handed to the client; waiting for it to exit.
    Querying,
    /// The client exited with a code other than the retry code.
    Completed,
    /// Waiting for the client failed.
    Failed,
    /// Every cycle ended in a retry.
    Exhausted,
}

/// What the caller must do next.
#[derive(Clone, Copy, Debug, PartialEq, Eq, Structural)]
pub enum ShellAction {
    /// Wait this many seconds and report when done.
    Sleep(u64),
    /// Spawn the client with its input piped and its output discarded.
    Spawn,
    /// Terminate the client that was just spawned.
    Kill,
    /// Write the query to the client's input, close it, and wait for exit.
    SendQuery,
    /// Report completion with this exit code (`None`: killed by a signal).
    Finish(Option<i32>),
    /// Report the error of the wait and fail.
    Fail,
    /// Report every collected error and fail.
    GiveUp,
}

/// How a spawn went.
pub enum SpawnOutcome {
    /// The client runs and offers a writable input.
    Ready,
    /// The client runs but offers no writable input.
    NoStdin,
    /// The client could not be started.
    Error(String),
}

/// The decisions of the shell runner: before each cycle it waits, spawns
/// the client and hands it the query. Exit code 2 means the client could not
/// connect and starts a new cycle; any other exit ends the loop.
pub struct ShellRetry {
    /// Cycles started so far.
    pub attempts: u32,
    /// The error of each failed spawn, in order.
    pub errors: Vec<String>,
    pub phase: ShellPhase,
}

impl ShellRetry {
    pub open spec fn wf(&self) -> bool {
        &&& self.attempts <= MAX_ATTEMPTS
        &&& match self.phase {
            ShellPhase::Sleeping => self.errors@.len() == self.attempts
                && self.attempts < MAX_ATTEMPTS,
            ShellPhase::Exhausted => self.errors@.len() == self.attempts
                && self.attempts == MAX_ATTEMPTS,
            _ => self.errors@.len() + 1 == self.attempts,
        }
    }

    /// What follows the end of a cycle that is to be retried.
    pub open spec fn after_retry(&self, a: ShellAction) -> bool {
        if self.attempts < MAX_ATTEMPTS {
            self.phase == ShellPhase::Sleeping && a == ShellAction::Sleep(RETRY_DELAY_SECS)
        } else {
            self.phase == ShellPhase::Exhausted && a == ShellAction::GiveUp
        }
    }

    /// Starts the loop: a wait comes before the first cycle.
    pub fn start() -> (r: (ShellRetry, ShellAction))
        ensures
            r.0.wf(),
            r.0.attempts == 0,
            r.0.errors@.len() == 0,
            r.0.phase == ShellPhase::Sleeping,
            r.1 == ShellAction::Sleep(RETRY_DELAY_SECS),
    {
        (ShellRetry { attempts: 0, errors: Vec::new(), phase: ShellPhase::Sleeping }, ShellAction::Sleep(RETRY_DELAY_SECS))
    }

    fn retry(&mut self) -> (a: ShellAction)
        requires
            1 <= old(self).attempts <= MAX_ATTEMPTS,
            old(self).errors@.len() == old(self).attempts,
        ensures
            final(self).wf(),
            final(self).attempts == old(self).attempts,
            final(self).errors@ == old(self).errors@,
            final(self).after_retry(a),
    {
        if self.attempts < MAX_ATTEMPTS {
            self.phase = ShellPhase::Sleeping;
            ShellAction::Sleep(RETRY_DELAY_SECS)
        } else {
            self.phase = ShellPhase::Exhausted;
            ShellAction::GiveUp
        }
    }

    /// Takes the end of the wait: a new cycle starts with a spawn.
    pub fn on_slept(&mut self) -> (a: ShellAction)
        requires
            old(self).wf(),
            old(self).phase == ShellPhase::Sleeping,
        ensures
            final(self).wf(),
            final(self).attempts == old(self).attempts + 1,
            final(self).errors@ == old(self).errors@,
            final(self).phase == ShellPhase::Spawning,
            a == ShellAction::Spawn,
    {
        self.attempts = self.attempts + 1;
        self.phase = ShellPhase::Spawning;
        ShellAction::Spawn
    }

    /// Takes the outcome of the spawn. A client without writable input is
    /// terminated; a spawn error is recorded and counts as a failed cycle.
    pub fn on_spawned(&mut self, outcome: SpawnOutcome) -> (a: ShellAction)
        requires
            old(self).wf(),
            old(self).phase == ShellPhase::Spawning,
        ensures
            final(self).wf(),
            final(self).attempts == old(self).attempts,
            match outcome {
                SpawnOutcome::Ready => {
                    &&& a == ShellAction::SendQuery
                    &&& final(self).phase == ShellPhase::Querying
                    &&& final(self).errors@ == old(self).errors@
                },
                SpawnOutcome::NoStdin => {
                    &&& a == ShellAction::Kill
                    &&& final(self).phase == ShellPhase::Killing
                    &&& final(self).errors@ == old(self).errors@
                },
                SpawnOutcome::Error(e) => {
                    &&& final(self).errors@ == old(self).errors@.push(e)
                    &&& final(self).after_retry(a)
                },
            },
    {
        match outcome {
            SpawnOutcome::Ready => {
                self.phase = ShellPhase::Querying;
                ShellAction::SendQuery
            },
            SpawnOutcome::NoStdin => {
                self.phase = ShellPhase::Killing;
                ShellAction::Kill
            },
            SpawnOutcome::Error(e) => {
                self.errors.push(e);
                self.retry()
            },
        }
    }

    /// Takes the end of the termination: the cycle is recorded as failed.
    pub fn on_killed(&mut self) -> (a: ShellAction)
        requires
            old(self).wf(),
            old(self).phase == ShellPhase::Killing,
        ensures
            final(self).wf(),
            final(self).attempts == old(self).attempts,
            final(self).errors@.len() == old(self).errors@.len() + 1,
            final(self).errors@.drop_last() == old(self).errors@,
            final(self).errors@.last()@ == NO_STDIN_ERROR@,
            final(self).after_retry(a),
    {
        self.errors.push(String::from_str(NO_STDIN_ERROR));
        let a = self.retry();
        assert(self.errors@.drop_last() =~= old(self).errors@);
        a
    }

    /// Takes how the client ended: exit code 2 is a failed connection, which
    /// is recorded and starts a new cycle; any other exit is the final
    /// outcome, and a failed wait is fatal at once.
    pub fn on_exited(&mut self, status: Result<Option<i32>, String>) -> (a: ShellAction)
        requires
            old(self).wf(),
            old(self).phase == ShellPhase::Querying,
        ensures
            final(self).wf(),
            final(self).attempts == old(self).attempts,
            if status == Ok::<Option<i32>, String>(Some(CONNECT_FAILED_EXIT_CODE)) {
                &&& final(self).errors@.len() == old(self).errors@.len() + 1
                &&& final(self).errors@.drop_last() == old(self).errors@
                &&& final(self).errors@.last()@ == CONNECT_FAILED_ERROR@
                &&& final(self).after_retry(a)
            } else {
                final(self).errors@ == old(self).errors@
            },
            match status {
                Ok(Some(c)) => c != CONNECT_FAILED_EXIT_CODE ==> a == ShellAction::Finish(Some(c))
                    && final(self).phase == ShellPhase::Completed,
                Ok(None) => a == ShellAction::Finish(None) && final(self).phase
                    == ShellPhase::Completed,
                Err(_) => a == ShellAction::Fail && final(self).phase == ShellPhase::Failed,
            },
    {
        match status {
            Ok(Some(c)) => {
                if c == CONNECT_FAILED_EXIT_CODE {
                    self.errors.push(String::from_str(CONNECT_FAILED_ERROR));
                    let a = self.retry();
                    assert(self.errors@.drop_last() =~= old(self).errors@);
                    a
                } else {
                    self.phase = ShellPhase::Completed;
                    ShellAction::Finish(Some(c))
                }
            },
            Ok(None) => {
                self.phase = ShellPhase::Completed;
                ShellAction::Finish(None)
            },
            Err(_) => {
                self.phase = ShellPhase::Failed;
                ShellAction::Fail
            },
        }
    }
}

/// A loop that gave up ran exactly `MAX_ATTEMPTS` cycles and holds one error
/// for each of them.
pub proof fn lemma_exhausted_cycles(m: &ShellRetry)
    requires
        m.wf(),
        m.phase == ShellPhase::Exhausted,
    ensures
        m.attempts == MAX_ATTEMPTS,
        m.errors@.len() == MAX_ATTEMPTS,
{
}

} // verus!
