//! A whole wait over recorded rounds: the model of what a wait comes to, and
//! a function that plays recorded rounds through the state machine.

use vstd::prelude::*;
use crate::challenge::{AuthoritiveResolver, RoundOutcome};
use crate::error::Error;
use crate::waiter::{spec_next_action, Action, WaitConfig, Waiter};

verus! {

/// Where a wait stands.
#[derive(Clone, Copy, Debug, PartialEq, Eq, Structural)]
pub enum WaitStatus {
    /// The wait expects another round.
    Waiting,
    /// All servers agreed.
    Succeeded,
    /// The wait ended with this error.
    Failed(Error),
}

/// What a wait came to, in the model.
pub struct Run {
    /// Where the wait stands.
    pub status: WaitStatus,
    /// The number of rounds that were polled.
    pub rounds: nat,
    /// The seconds slept, and due to be slept before the next round.
    pub slept_secs: nat,
}

/// What a wait came to.
#[derive(Clone, Copy, Debug, PartialEq, Eq, Structural)]
pub struct WaitReport {
    /// Where the wait stands.
    pub status: WaitStatus,
    /// The number of rounds that were polled.
    pub rounds: u64,
    /// The seconds slept, and due to be slept before the next round.
    pub slept_secs: u128,
}

impl View for WaitReport {
    type V = Run;

    open spec fn view(&self) -> Run {
        Run {
            status: self.status,
            rounds: self.rounds as nat,
            slept_secs: self.slept_secs as nat,
        }
    }
}

/// A wait that has polled `attempts` rounds without agreement and slept
/// `slept_secs`, continued over the rounds in `rest`. Rounds that follow the
/// end of the wait are never polled.
pub open spec fn spec_run(
    config: WaitConfig,
    attempts: nat,
    slept_secs: nat,
    rest: Seq<Seq<RoundOutcome>>,
) -> Run
    decreases rest.len(),
{
    if rest.len() == 0 {
        Run { status: WaitStatus::Waiting, rounds: attempts, slept_secs }
    } else {
        match spec_next_action(config, attempts, rest[0]) {
            Action::Poll { delay_secs } => spec_run(
                config,
                attempts + 1,
                (slept_secs + delay_secs) as nat,
                rest.skip(1),
            ),
            Action::Succeed => Run { status: WaitStatus::Succeeded, rounds: attempts + 1, slept_secs },
            Action::Fail(e) => Run { status: WaitStatus::Failed(e), rounds: attempts + 1, slept_secs },
        }
    }
}

/// A wait on discovered servers, over the rounds in `rounds`: the grace
/// delay, then one round after another until the wait ends. With an empty
/// budget no round is polled.
pub open spec fn spec_wait(config: WaitConfig, rounds: Seq<Seq<RoundOutcome>>) -> Run {
    if config.max_rounds == 0 {
        Run { status: WaitStatus::Failed(Error::PropagationTimeout), rounds: 0, slept_secs: 0 }
    } else {
        spec_run(config, 0, config.grace_secs as nat, rounds)
    }
}

/// Every recorded round holds one outcome for each of `endpoints` servers.
pub open spec fn spec_rounds_cover(rounds: Seq<Vec<RoundOutcome>>, endpoints: nat) -> bool {
    forall|i: int| 0 <= i < rounds.len() ==> (#[trigger] rounds[i])@.len() == endpoints
}

/// The outcomes of recorded rounds.
pub open spec fn spec_rounds(rounds: Seq<Vec<RoundOutcome>>) -> Seq<Seq<RoundOutcome>> {
    Seq::new(rounds.len(), |i: int| rounds[i]@)
}

/// The sleep of a wait fits in 128 bits: it is a 64-bit delay and the
/// product of two 64-bit numbers.
proof fn lemma_sleep_fits(grace: nat, attempts: nat, interval: nat)
    requires
        grace <= u64::MAX,
        attempts < u64::MAX,
        interval <= u64::MAX,
    ensures
        grace + (attempts + 1) * interval <= u128::MAX,
        attempts * interval + interval == (attempts + 1) * interval,
{
    assert((attempts + 1) * interval <= 0x1_0000_0000_0000_0000 * 0xffff_ffff_ffff_ffff)
        by (nonlinear_arith)
        requires
            attempts + 1 <= 0x1_0000_0000_0000_0000,
            interval <= 0xffff_ffff_ffff_ffff,
    ;
    assert(attempts * interval + interval == (attempts + 1) * interval) by (nonlinear_arith);
}

/// Plays recorded rounds through a wait on `endpoints` discovered servers and
/// reports where the wait stands after them.
pub fn replay(config: WaitConfig, endpoints: Vec<AuthoritiveResolver>, rounds: &Vec<
    Vec<RoundOutcome>,
>) -> (report: WaitReport)
    requires
        spec_rounds_cover(rounds@, endpoints@.len()),
    ensures
        report@ == spec_wait(config, spec_rounds(rounds@)),
{
    let discovered: Result<Vec<AuthoritiveResolver>, Error> = Ok(endpoints);
    let (mut waiter, first) = Waiter::start(config, &discovered);
    let ghost all = spec_rounds(rounds@);
    let mut slept: u128 = 0;
    match first {
        Action::Poll { delay_secs } => {
            slept = delay_secs as u128;
        },
        Action::Succeed => {
            return WaitReport { status: WaitStatus::Succeeded, rounds: 0, slept_secs: 0 };
        },
        Action::Fail(e) => {
            return WaitReport { status: WaitStatus::Failed(e), rounds: 0, slept_secs: 0 };
        },
    }
    proof {
        assert(all.skip(0) =~= all);
    }
    let mut i: usize = 0;
    while i < rounds.len()
        invariant
            0 <= i <= rounds.len(),
            all == spec_rounds(rounds@),
            spec_rounds_cover(rounds@, waiter.spec_endpoints()),
            waiter.wf(),
            waiter.spec_polling(),
            waiter.spec_config() == config,
            config.max_rounds > 0,
            waiter.spec_attempts() < config.max_rounds,
            slept == config.grace_secs + waiter.spec_attempts() * config.interval_secs,
            spec_wait(config, all) == spec_run(
                config,
                waiter.spec_attempts(),
                slept as nat,
                all.skip(i as int),
            ),
        decreases rounds.len() - i,
    {
        let ghost rest = all.skip(i as int);
        let ghost before = waiter.spec_attempts();
        proof {
            assert(rest[0] == rounds@[i as int]@);
            assert(rest.skip(1) =~= all.skip(i + 1));
            lemma_sleep_fits(config.grace_secs as nat, before, config.interval_secs as nat);
        }
        let polled: u64 = waiter.attempts() + 1;
        let action = waiter.on_round(&rounds[i]);
        match action {
            Action::Poll { delay_secs } => {
                slept = slept + delay_secs as u128;
            },
            Action::Succeed => {
                return WaitReport { status: WaitStatus::Succeeded, rounds: polled, slept_secs: slept };
            },
            Action::Fail(e) => {
                return WaitReport { status: WaitStatus::Failed(e), rounds: polled, slept_secs: slept };
            },
        }
        i += 1;
    }
    proof {
        assert(all.skip(i as int).len() == 0);
    }
    WaitReport { status: WaitStatus::Waiting, rounds: waiter.attempts(), slept_secs: slept }
}

} // verus!
