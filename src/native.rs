use vstd::prelude::*;

verus! {

/// Number of connection attempts before giving up.
pub const MAX_ATTEMPTS: u32 = 10;

/// Seconds to wait between two connection attempts.
pub const RETRY_DELAY_SECS: u64 = 1;

/// The fixed connection settings of the native client.
pub const DB_HOST: &'static str = "postgresql";
pub const DB_USER: &'static str = "user";
pub const DB_PASSWORD: &'static str = "pass";
pub const DB_NAME: &'static str = "db";
pub const KEEPALIVE_IDLE_SECS: u64 = 60;
pub const KEEPALIVE_INTERVAL_SECS: u64 = 15;
pub const KEEPALIVE_RETRIES: u32 = 5;

/// Where the connection retry loop stands.
#[derive(Clone, Copy, Debug, PartialEq, Eq, Structural)]
pub enum ConnectPhase {
    /// An attempt is under way.
    Connecting,
    /// The last attempt failed; the loop waits before the next one.
    Waiting,
    /// An attempt succeeded.
    Connected,
    /// Every attempt failed.
    Exhausted,
}

/// What the caller must do next.
#[derive(Clone, Copy, Debug, PartialEq, Eq, Structural)]
pub enum ConnectAction {
    /// Open a connection and report the outcome.
    Connect,
    /// Wait this many seconds and report when done.
    Sleep(u64),
    /// Keep the connection that was just opened.
    Done,
    /// Report every collected error and fail.
    GiveUp,
}

/// The decisions of a flat connect-with-retry loop: up to `MAX_ATTEMPTS`
/// attempts, `RETRY_DELAY_SECS` apart, collecting the error of each failure.
pub struct ConnectRetry {
    /// Attempts started so far.
    pub attempts: u32,
    /// The error of each failed attempt, in order.
    pub errors: Vec<String>,
    pub phase: ConnectPhase,
}

impl ConnectRetry {
    pub open spec fn wf(&self) -> bool {
        &&& 1 <= self.attempts <= MAX_ATTEMPTS
        &&& match self.phase {
            ConnectPhase::Connecting => self.errors@.len() + 1 == self.attempts,
            ConnectPhase::Waiting => self.errors@.len() == self.attempts
                && self.attempts < MAX_ATTEMPTS,
            ConnectPhase::Connected => self.errors@.len() + 1 == self.attempts,
            ConnectPhase::Exhausted => self.errors@.len() == self.attempts
                && self.attempts == MAX_ATTEMPTS,
        }
    }

    /// Starts the loop: the first attempt is made at once.
    pub fn start() -> (r: (ConnectRetry, ConnectAction))
        ensures
            r.0.wf(),
            r.0.attempts == 1,
            r.0.errors@.len() == 0,
            r.0.phase == ConnectPhase::Connecting,
            r.1 == ConnectAction::Connect,
    {
        (ConnectRetry { attempts: 1, errors: Vec::new(), phase: ConnectPhase::Connecting }, ConnectAction::Connect)
    }

    /// Takes the outcome of the attempt under way. A success ends the loop;
    /// a failure is recorded, then the loop waits, or gives up after the
    /// last attempt.
    pub fn on_connect_result(&mut self, res: Result<(), String>) -> (a: ConnectAction)
        requires
            old(self).wf(),
            old(self).phase == ConnectPhase::Connecting,
        ensures
            final(self).wf(),
            final(self).attempts == old(self).attempts,
            match res {
                Ok(()) => {
                    &&& a == ConnectAction::Done
                    &&& final(self).phase == ConnectPhase::Connected
                    &&& final(self).errors@ == old(self).errors@
                },
                Err(e) => {
                    &&& final(self).errors@ == old(self).errors@.push(e)
                    &&& if old(self).attempts < MAX_ATTEMPTS {
                        a == ConnectAction::Sleep(RETRY_DELAY_SECS)
                            && final(self).phase == ConnectPhase::Waiting
                    } else {
                        a == ConnectAction::GiveUp && final(self).phase == ConnectPhase::Exhausted
                    }
                },
            },
    {
        match res {
            Ok(()) => {
                self.phase = ConnectPhase::Connected;
                ConnectAction::Done
            },
            Err(e) => {
                self.errors.push(e);
                if self.attempts < MAX_ATTEMPTS {
                    self.phase = ConnectPhase::Waiting;
                    ConnectAction::Sleep(RETRY_DELAY_SECS)
                } else {
                    self.phase = ConnectPhase::Exhausted;
                    ConnectAction::GiveUp
                }
            },
        }
    }

    /// Takes the end of the wait: the next attempt starts.
    pub fn on_slept(&mut self) -> (a: ConnectAction)
        requires
            old(self).wf(),
            old(self).phase == ConnectPhase::Waiting,
        ensures
            final(self).wf(),
            final(self).attempts == old(self).attempts + 1,
            final(self).errors@ == old(self).errors@,
            final(self).phase == ConnectPhase::Connecting,
            a == ConnectAction::Connect,
    {
        self.attempts = self.attempts + 1;
        self.phase = ConnectPhase::Connecting;
        ConnectAction::Connect
    }
}

/// A loop that connected made one attempt per recorded failure plus the one
/// that succeeded, and never more than `MAX_ATTEMPTS`.
pub proof fn lemma_connected_attempts(m: &ConnectRetry)
    requires
        m.wf(),
        m.phase == ConnectPhase::Connected,
    ensures
        m.attempts == m.errors@.len() + 1,
        m.attempts <= MAX_ATTEMPTS,
{
}

/// A loop that gave up made exactly `MAX_ATTEMPTS` attempts, and holds the
/// error of each of them.
pub proof fn lemma_exhausted_attempts(m: &ConnectRetry)
    requires
        m.wf(),
        m.phase == ConnectPhase::Exhausted,
    ensures
        m.attempts == MAX_ATTEMPTS,
        m.errors@.len() == MAX_ATTEMPTS,
{
}

} // verus!
