//! The wait itself: a state machine that is fed the outcome of each polling
//! round and answers with what to do next.
//!
//! The caller resolves the nameservers, sleeps and asks; every decision is
//! taken here. A wait starts with a grace delay, polls at a fixed interval,
//! and ends with the first round in which all servers agree, with the first
//! error, or when the round budget is spent.

use vstd::prelude::*;
use crate::challenge::{AuthoritiveResolver, RoundOutcome};
use crate::error::Error;
use crate::round::{reduce_round, spec_verdict, RoundVerdict};

verus! {

/// The timing of a wait.
#[derive(Clone, Copy, Debug, PartialEq, Eq, Structural)]
pub struct WaitConfig {
    /// Seconds to sleep before the first round.
    pub grace_secs: u64,
    /// Seconds to sleep between two rounds.
    pub interval_secs: u64,
    /// The number of rounds after which the wait gives up.
    pub max_rounds: u64,
}

/// Seconds before the first round, unless configured otherwise.
pub const DEFAULT_GRACE_SECS: u64 = 1;

/// Seconds between two rounds, unless configured otherwise.
pub const DEFAULT_INTERVAL_SECS: u64 = 5;

/// The round budget, unless configured otherwise: an hour of rounds.
pub const DEFAULT_MAX_ROUNDS: u64 = 720;

impl Default for WaitConfig {
    fn default() -> (config: WaitConfig)
        ensures
            config.grace_secs == DEFAULT_GRACE_SECS,
            config.interval_secs == DEFAULT_INTERVAL_SECS,
            config.max_rounds == DEFAULT_MAX_ROUNDS,
    {
        WaitConfig {
            grace_secs: DEFAULT_GRACE_SECS,
            interval_secs: DEFAULT_INTERVAL_SECS,
            max_rounds: DEFAULT_MAX_ROUNDS,
        }
    }
}

/// What the caller does next.
#[derive(Clone, Copy, Debug, PartialEq, Eq, Structural)]
pub enum Action {
    /// Sleep for the delay, then ask every server and report the round.
    Poll { delay_secs: u64 },
    /// The wait is over: all servers agree.
    Succeed,
    /// The wait is over with this error.
    Fail(Error),
}

/// The first action of a wait, given what discovery brought.
pub open spec fn spec_first_action(config: WaitConfig, discovered: Option<Error>) -> Action {
    match discovered {
        Some(e) => Action::Fail(e),
        None => if config.max_rounds == 0 {
            Action::Fail(Error::PropagationTimeout)
        } else {
            Action::Poll { delay_secs: config.grace_secs }
        },
    }
}

/// The action after a round with the given outcomes, when `attempts` rounds
/// have failed before it.
pub open spec fn spec_next_action(
    config: WaitConfig,
    attempts: nat,
    outcomes: Seq<RoundOutcome>,
) -> Action {
    match spec_verdict(outcomes) {
        RoundVerdict::Abort(e) => Action::Fail(e),
        RoundVerdict::Success => Action::Succeed,
        RoundVerdict::Retry => if attempts + 1 < config.max_rounds {
            Action::Poll { delay_secs: config.interval_secs }
        } else {
            Action::Fail(Error::PropagationTimeout)
        },
    }
}

/// The state of one wait.
#[derive(Debug)]
pub struct Waiter {
    config: WaitConfig,
    endpoints: usize,
    attempts: u64,
    polling: bool,
}

impl Waiter {
    /// The timing that the wait was started with.
    pub closed spec fn spec_config(&self) -> WaitConfig {
        self.config
    }

    /// The number of servers that every round has to cover.
    pub closed spec fn spec_endpoints(&self) -> nat {
        self.endpoints as nat
    }

    /// The number of rounds that ended without agreement.
    pub closed spec fn spec_attempts(&self) -> nat {
        self.attempts as nat
    }

    /// Whether the wait expects another round.
    pub closed spec fn spec_polling(&self) -> bool {
        self.polling
    }

    /// While the wait expects a round, the budget is not spent.
    pub closed spec fn wf(&self) -> bool {
        self.polling ==> self.attempts < self.config.max_rounds
    }

    /// Starts a wait on the servers that discovery brought. A failed
    /// discovery ends the wait at once, and so does an empty round budget.
    pub fn start(config: WaitConfig, discovered: &Result<Vec<AuthoritiveResolver>, Error>) -> (started:
        (Waiter, Action))
        ensures
            started.0.wf(),
            started.0.spec_config() == config,
            started.0.spec_attempts() == 0,
            started.0.spec_polling() == (started.1 is Poll),
            discovered is Ok ==> started.0.spec_endpoints() == discovered->Ok_0@.len(),
            started.1 == spec_first_action(
                config,
                match *discovered {
                    Ok(_) => None,
                    Err(e) => Some(e),
                },
            ),
    {
        match discovered {
            Err(e) => (
                Waiter { config, endpoints: 0, attempts: 0, polling: false },
                Action::Fail(*e),
            ),
            Ok(endpoints) => {
                if config.max_rounds == 0 {
                    (
                        Waiter { config, endpoints: endpoints.len(), attempts: 0, polling: false },
                        Action::Fail(Error::PropagationTimeout),
                    )
                } else {
                    (
                        Waiter { config, endpoints: endpoints.len(), attempts: 0, polling: true },
                        Action::Poll { delay_secs: config.grace_secs },
                    )
                }
            },
        }
    }

    /// Whether the wait expects another round.
    pub fn is_polling(&self) -> (polling: bool)
        ensures
            polling == self.spec_polling(),
    {
        self.polling
    }

    /// The number of rounds that ended without agreement.
    pub fn attempts(&self) -> (attempts: u64)
        ensures
            attempts == self.spec_attempts(),
    {
        self.attempts
    }

    /// The number of servers that every round has to cover.
    pub fn endpoints(&self) -> (endpoints: usize)
        ensures
            endpoints == self.spec_endpoints(),
    {
        self.endpoints
    }

    /// Takes the outcomes of one complete round, one for every server, and
    /// decides what follows. Nothing of an earlier round enters the decision
    /// but the count of rounds that failed.
    pub fn on_round(&mut self, outcomes: &Vec<RoundOutcome>) -> (action: Action)
        requires
            old(self).wf(),
            old(self).spec_polling(),
            outcomes@.len() == old(self).spec_endpoints(),
        ensures
            final(self).wf(),
            final(self).spec_config() == old(self).spec_config(),
            final(self).spec_endpoints() == old(self).spec_endpoints(),
            action == spec_next_action(
                old(self).spec_config(),
                old(self).spec_attempts(),
                outcomes@,
            ),
            final(self).spec_polling() == (action is Poll),
            final(self).spec_attempts() == if spec_verdict(outcomes@) == RoundVerdict::Retry {
                old(self).spec_attempts() + 1
            } else {
                old(self).spec_attempts()
            },
    {
        match reduce_round(outcomes) {
            RoundVerdict::Abort(e) => {
                self.polling = false;
                Action::Fail(e)
            },
            RoundVerdict::Success => {
                self.polling = false;
                Action::Succeed
            },
            RoundVerdict::Retry => {
                self.attempts = self.attempts + 1;
                if self.attempts < self.config.max_rounds {
                    Action::Poll { delay_secs: self.config.interval_secs }
                } else {
                    self.polling = false;
                    Action::Fail(Error::PropagationTimeout)
                }
            },
        }
    }
}

} // verus!
