//! What holds of every round and of every wait.

use vstd::prelude::*;
use crate::challenge::{spec_classify, RoundOutcome};
use crate::error::{Error, LookupError};
use crate::round::{
    spec_all_matched, spec_ambiguous, spec_any_failed, spec_first_failed, spec_is_first_failed,
    spec_verdict, RoundVerdict,
};
use crate::run::{spec_run, spec_wait, Run, WaitStatus};
use crate::waiter::{spec_next_action, Action, WaitConfig};

verus! {

/// Every outcome of the round says that the record is not there yet, and the
/// round covers at least one server.
pub open spec fn spec_none_present(outcomes: Seq<RoundOutcome>) -> bool {
    &&& outcomes.len() > 0
    &&& forall|i: int| 0 <= i < outcomes.len() ==> outcomes[i] == RoundOutcome::NotYetPresent
}

/// Before an error in a round there is a first error of that round.
pub proof fn lemma_first_failed_exists(outcomes: Seq<RoundOutcome>, i: int)
    requires
        0 <= i < outcomes.len(),
        outcomes[i] is Failed,
    ensures
        spec_is_first_failed(outcomes, spec_first_failed(outcomes)),
        spec_first_failed(outcomes) <= i,
    decreases i,
{
    if forall|j: int| 0 <= j < i ==> !(outcomes[j] is Failed) {
        assert(spec_is_first_failed(outcomes, i));
    } else {
        let j = choose|j: int| 0 <= j < i && outcomes[j] is Failed;
        lemma_first_failed_exists(outcomes, j);
    }
    let k = spec_first_failed(outcomes);
    if i < k {
        assert(!(outcomes[i] is Failed));
    }
}

/// A round succeeds exactly when every server of that round reports a match;
/// it is aborted exactly when some server of that round reports an error,
/// whatever the others report, and then with an error that one of them
/// reported; and an ambiguous challenge on any server decides the round.
pub proof fn law_round_verdict(outcomes: Seq<RoundOutcome>)
    ensures
        spec_verdict(outcomes) == RoundVerdict::Success <==> spec_all_matched(outcomes),
        spec_verdict(outcomes) is Abort <==> spec_any_failed(outcomes),
        spec_verdict(outcomes) is Abort ==> exists|i: int|
            0 <= i < outcomes.len() && outcomes[i] == RoundOutcome::Failed(
                spec_verdict(outcomes)->Abort_0,
            ),
        spec_ambiguous(outcomes) ==> spec_verdict(outcomes) == RoundVerdict::Abort(
            Error::AmbiguousChallenge,
        ),
{
    if spec_ambiguous(outcomes) {
        let i = choose|i: int|
            0 <= i < outcomes.len() && outcomes[i] == RoundOutcome::Failed(
                Error::AmbiguousChallenge,
            );
        assert(outcomes[i] is Failed);
        assert(outcomes[i] != RoundOutcome::Matched);
    } else if spec_any_failed(outcomes) {
        let i = choose|i: int| 0 <= i < outcomes.len() && outcomes[i] is Failed;
        assert(outcomes[i] != RoundOutcome::Matched);
        lemma_first_failed_exists(outcomes, i);
        let k = spec_first_failed(outcomes);
        assert(outcomes[k] == RoundOutcome::Failed(outcomes[k]->Failed_0));
    }
}

/// A round in which one server reports an error ends the wait with an error
/// that a server of that round reported, whatever the others report.
pub proof fn law_error_ends_wait(
    config: WaitConfig,
    attempts: nat,
    outcomes: Seq<RoundOutcome>,
    i: int,
)
    requires
        0 <= i < outcomes.len(),
        outcomes[i] is Failed,
    ensures
        spec_next_action(config, attempts, outcomes) is Fail,
        exists|k: int|
            0 <= k < outcomes.len() && outcomes[k] == RoundOutcome::Failed(
                spec_next_action(config, attempts, outcomes)->Fail_0,
            ),
{
    law_round_verdict(outcomes);
    let e = spec_verdict(outcomes)->Abort_0;
    let k = choose|k: int| 0 <= k < outcomes.len() && outcomes[k] == RoundOutcome::Failed(e);
    assert(outcomes[k] == RoundOutcome::Failed(e));
}

/// A wait that still expects a round after the first `k` rounds goes on from
/// there: what it comes to depends on the later rounds and on the count of
/// rounds before them only.
pub proof fn lemma_run_continues(
    config: WaitConfig,
    attempts: nat,
    slept_secs: nat,
    rounds: Seq<Seq<RoundOutcome>>,
    k: int,
)
    requires
        0 <= k <= rounds.len(),
        spec_run(config, attempts, slept_secs, rounds.take(k)).status == WaitStatus::Waiting,
    ensures
        spec_run(config, attempts, slept_secs, rounds.take(k)).rounds == attempts + k,
        spec_run(config, attempts, slept_secs, rounds) == spec_run(
            config,
            attempts + k as nat,
            spec_run(config, attempts, slept_secs, rounds.take(k)).slept_secs,
            rounds.skip(k),
        ),
    decreases k,
{
    if k == 0 {
        assert(rounds.skip(0) =~= rounds);
    } else {
        let head = rounds.take(k);
        assert(head[0] == rounds[0]);
        assert(head.skip(1) =~= rounds.skip(1).take(k - 1));
        assert(rounds.skip(1).skip(k - 1) =~= rounds.skip(k));
        match spec_next_action(config, attempts, rounds[0]) {
            Action::Poll { delay_secs } => {
                lemma_run_continues(
                    config,
                    attempts + 1,
                    (slept_secs + delay_secs) as nat,
                    rounds.skip(1),
                    k - 1,
                );
            },
            _ => {},
        }
    }
}

/// Success is decided by one round alone: a wait succeeds only with a round
/// in which every server reports a match, and that round is the last one
/// polled.
pub proof fn lemma_run_success(
    config: WaitConfig,
    attempts: nat,
    slept_secs: nat,
    rest: Seq<Seq<RoundOutcome>>,
)
    requires
        spec_run(config, attempts, slept_secs, rest).status == WaitStatus::Succeeded,
    ensures
        attempts < spec_run(config, attempts, slept_secs, rest).rounds <= attempts + rest.len(),
        spec_all_matched(rest[spec_run(config, attempts, slept_secs, rest).rounds - attempts - 1]),
    decreases rest.len(),
{
    match spec_next_action(config, attempts, rest[0]) {
        Action::Poll { delay_secs } => {
            lemma_run_success(config, attempts + 1, (slept_secs + delay_secs) as nat, rest.skip(1));
        },
        _ => {
            law_round_verdict(rest[0]);
        },
    }
}

/// A wait succeeds only if, in the last round it polled, every server
/// reported a match. Matches of different rounds never add up.
pub proof fn law_success_in_one_round(config: WaitConfig, rounds: Seq<Seq<RoundOutcome>>)
    requires
        spec_wait(config, rounds).status == WaitStatus::Succeeded,
    ensures
        1 <= spec_wait(config, rounds).rounds <= rounds.len(),
        spec_all_matched(rounds[spec_wait(config, rounds).rounds - 1]),
{
    lemma_run_success(config, 0, config.grace_secs as nat, rounds);
}

/// Where every server holds the challenge as its single record when the
/// first round is polled, a wait with a budget succeeds with that round,
/// after the grace delay alone.
pub proof fn law_agreement_at_start(
    config: WaitConfig,
    challenge: Seq<char>,
    rounds: Seq<Seq<RoundOutcome>>,
)
    requires
        config.max_rounds > 0,
        rounds.len() > 0,
        forall|i: int|
            0 <= i < rounds[0].len() ==> rounds[0][i] == spec_classify(
                Ok(seq![challenge]),
                challenge,
            ),
    ensures
        spec_wait(config, rounds) == (Run {
            status: WaitStatus::Succeeded,
            rounds: 1,
            slept_secs: config.grace_secs as nat,
        }),
{
    assert(seq![challenge][0] == challenge);
    assert(spec_all_matched(rounds[0]));
    law_round_verdict(rounds[0]);
}

/// A round of servers that all lack the record calls for another round.
pub proof fn lemma_none_present_retries(outcomes: Seq<RoundOutcome>)
    requires
        spec_none_present(outcomes),
    ensures
        spec_verdict(outcomes) == RoundVerdict::Retry,
{
    law_round_verdict(outcomes);
    assert(outcomes[0] != RoundOutcome::Matched);
    if spec_any_failed(outcomes) {
        let i = choose|i: int| 0 <= i < outcomes.len() && outcomes[i] is Failed;
        assert(outcomes[i] == RoundOutcome::NotYetPresent);
    }
}

/// A wait whose remaining rounds all lack the record spends the rest of its
/// budget, sleeping the interval between any two rounds.
pub proof fn lemma_run_times_out(
    config: WaitConfig,
    attempts: nat,
    slept_secs: nat,
    rest: Seq<Seq<RoundOutcome>>,
)
    requires
        attempts < config.max_rounds,
        rest.len() >= config.max_rounds - attempts,
        forall|i: int| 0 <= i < config.max_rounds - attempts ==> spec_none_present(#[trigger] rest[i]),
    ensures
        spec_run(config, attempts, slept_secs, rest) == (Run {
            status: WaitStatus::Failed(Error::PropagationTimeout),
            rounds: config.max_rounds as nat,
            slept_secs: (slept_secs + (config.max_rounds - attempts - 1) * config.interval_secs) as nat,
        }),
    decreases rest.len(),
{
    lemma_none_present_retries(rest[0]);
    if attempts + 1 < config.max_rounds {
        let tail = rest.skip(1);
        assert forall|i: int| 0 <= i < config.max_rounds - (attempts + 1) implies spec_none_present(
            #[trigger] tail[i],
        ) by {
            assert(tail[i] == rest[i + 1]);
        }
        lemma_run_times_out(
            config,
            attempts + 1,
            slept_secs + config.interval_secs as nat,
            tail,
        );
        assert(slept_secs + config.interval_secs + (config.max_rounds - (attempts + 1) - 1)
            * config.interval_secs == slept_secs + (config.max_rounds - attempts - 1)
            * config.interval_secs) by (nonlinear_arith);
    } else {
        assert((config.max_rounds - attempts - 1) * config.interval_secs == 0) by (nonlinear_arith)
            requires
                config.max_rounds - attempts - 1 == 0,
        ;
    }
}

/// Where no server holds a record at the challenge name in any round, and
/// there is a server to ask, a wait polls as many rounds as its budget
/// allows, sleeps the interval between any two of them, and ends with a
/// timeout. Its sleep stays within the grace delay and one interval for each
/// round of the budget.
pub proof fn law_never_present_times_out(config: WaitConfig, rounds: Seq<Seq<RoundOutcome>>)
    requires
        rounds.len() >= config.max_rounds,
        forall|i: int| 0 <= i < config.max_rounds ==> spec_none_present(#[trigger] rounds[i]),
    ensures
        spec_wait(config, rounds).status == WaitStatus::Failed(Error::PropagationTimeout),
        spec_wait(config, rounds).rounds == config.max_rounds,
        config.max_rounds > 0 ==> spec_wait(config, rounds).slept_secs == config.grace_secs + (
        config.max_rounds - 1) * config.interval_secs,
        spec_wait(config, rounds).slept_secs <= config.grace_secs + config.max_rounds
            * config.interval_secs,
{
    if config.max_rounds > 0 {
        lemma_run_times_out(config, 0, config.grace_secs as nat, rounds);
        assert((config.max_rounds - 1) * config.interval_secs <= config.max_rounds
            * config.interval_secs) by (nonlinear_arith)
            requires
                config.max_rounds > 0,
                config.interval_secs >= 0,
        ;
    } else {
        assert(config.max_rounds * config.interval_secs == 0) by (nonlinear_arith)
            requires
                config.max_rounds == 0,
        ;
    }
}

/// A server that answers without a record, or with a negative answer, says
/// that the record is not there yet.
pub proof fn law_absent_is_not_an_error(challenge: Seq<char>)
    ensures
        spec_classify(Ok(Seq::empty()), challenge) == RoundOutcome::NotYetPresent,
        spec_classify(Err(LookupError::NoRecords), challenge) == RoundOutcome::NotYetPresent,
{
}

/// Where a server reports more than one record at the challenge name in a
/// round that the wait polls, the wait ends with that round and with the
/// error of an ambiguous challenge: nothing more is slept and no later round
/// is polled.
pub proof fn law_ambiguity_ends_wait(
    config: WaitConfig,
    challenge: Seq<char>,
    records: Seq<Seq<char>>,
    rounds: Seq<Seq<RoundOutcome>>,
    k: int,
    server: int,
)
    requires
        0 <= k < rounds.len(),
        spec_wait(config, rounds.take(k)).status == WaitStatus::Waiting,
        0 <= server < rounds[k].len(),
        records.len() > 1,
        rounds[k][server] == spec_classify(Ok(records), challenge),
    ensures
        spec_wait(config, rounds) == (Run {
            status: WaitStatus::Failed(Error::AmbiguousChallenge),
            rounds: (k + 1) as nat,
            slept_secs: spec_wait(config, rounds.take(k)).slept_secs,
        }),
{
    lemma_run_continues(config, 0, config.grace_secs as nat, rounds, k);
    let rest = rounds.skip(k);
    assert(rest[0] == rounds[k]);
    assert(spec_ambiguous(rounds[k]));
    law_round_verdict(rounds[k]);
}

} // verus!
