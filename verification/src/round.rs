//! The reduction of one polling round to a verdict.
//!
//! A round holds one outcome for every server, all of them taken in that
//! round. Any error ends the wait, an ambiguous challenge before any other;
//! agreement of all servers ends it with success; anything else calls for
//! another round.

use vstd::prelude::*;
use crate::challenge::{spec_answer, spec_classify, AuthoritiveResolver, RoundOutcome};
use crate::error::{Error, LookupError};

verus! {

/// What a round decides.
#[derive(Clone, Copy, Debug, PartialEq, Eq, Structural)]
pub enum RoundVerdict {
    /// Every server holds the expected record.
    Success,
    /// No server failed, and at least one does not hold the record yet.
    Retry,
    /// A server failed in a way that waiting will not mend.
    Abort(Error),
}

/// Every outcome of the round is a match.
pub open spec fn spec_all_matched(outcomes: Seq<RoundOutcome>) -> bool {
    forall|i: int| 0 <= i < outcomes.len() ==> outcomes[i] == RoundOutcome::Matched
}

/// Some outcome of the round is an error.
pub open spec fn spec_any_failed(outcomes: Seq<RoundOutcome>) -> bool {
    exists|i: int| 0 <= i < outcomes.len() && outcomes[i] is Failed
}

/// Some server of the round reported more than one challenge record.
pub open spec fn spec_ambiguous(outcomes: Seq<RoundOutcome>) -> bool {
    exists|i: int|
        0 <= i < outcomes.len() && outcomes[i] == RoundOutcome::Failed(Error::AmbiguousChallenge)
}

/// Position `i` holds the first error of the round.
pub open spec fn spec_is_first_failed(outcomes: Seq<RoundOutcome>, i: int) -> bool {
    &&& 0 <= i < outcomes.len()
    &&& outcomes[i] is Failed
    &&& forall|j: int| 0 <= j < i ==> !(outcomes[j] is Failed)
}

/// The position of the first error of the round, where there is one.
pub open spec fn spec_first_failed(outcomes: Seq<RoundOutcome>) -> int {
    choose|i: int| spec_is_first_failed(outcomes, i)
}

/// The verdict of a round: an ambiguous challenge wins over everything, then
/// the first error in the order of the servers, then agreement of all.
pub open spec fn spec_verdict(outcomes: Seq<RoundOutcome>) -> RoundVerdict {
    if spec_ambiguous(outcomes) {
        RoundVerdict::Abort(Error::AmbiguousChallenge)
    } else if spec_any_failed(outcomes) {
        RoundVerdict::Abort(outcomes[spec_first_failed(outcomes)]->Failed_0)
    } else if spec_all_matched(outcomes) {
        RoundVerdict::Success
    } else {
        RoundVerdict::Retry
    }
}

/// Only one position can hold the first error of a round.
pub proof fn lemma_first_failed_unique(outcomes: Seq<RoundOutcome>, i: int)
    requires
        spec_is_first_failed(outcomes, i),
    ensures
        spec_first_failed(outcomes) == i,
        spec_any_failed(outcomes),
{
    let k = spec_first_failed(outcomes);
    assert(spec_is_first_failed(outcomes, k));
    if k < i {
        assert(!(outcomes[k] is Failed));
    }
    if i < k {
        assert(!(outcomes[i] is Failed));
    }
}

/// Reduces the outcomes of one round, one for each server, to its verdict.
pub fn reduce_round(outcomes: &Vec<RoundOutcome>) -> (verdict: RoundVerdict)
    ensures
        verdict == spec_verdict(outcomes@),
        verdict == RoundVerdict::Success <==> spec_all_matched(outcomes@),
        verdict is Abort <==> spec_any_failed(outcomes@),
        spec_ambiguous(outcomes@) ==> verdict == RoundVerdict::Abort(Error::AmbiguousChallenge),
{
    let mut first: Option<Error> = None;
    let mut ambiguous: bool = false;
    let mut all: bool = true;
    let ghost mut at: int = 0;
    let mut i: usize = 0;
    while i < outcomes.len()
        invariant
            0 <= i <= outcomes.len(),
            ambiguous == (exists|j: int|
                0 <= j < i && outcomes@[j] == RoundOutcome::Failed(Error::AmbiguousChallenge)),
            all == (forall|j: int| 0 <= j < i ==> outcomes@[j] == RoundOutcome::Matched),
            first is None ==> forall|j: int| 0 <= j < i ==> !(outcomes@[j] is Failed),
            first is Some ==> spec_is_first_failed(outcomes@, at) && at < i && outcomes@[at]
                == RoundOutcome::Failed(first->Some_0),
        decreases outcomes.len() - i,
    {
        match outcomes[i] {
            RoundOutcome::Matched => {},
            RoundOutcome::NotYetPresent => {
                all = false;
            },
            RoundOutcome::Failed(e) => {
                all = false;
                if first.is_none() {
                    first = Some(e);
                    proof {
                        at = i as int;
                    }
                }
                match e {
                    Error::AmbiguousChallenge => {
                        ambiguous = true;
                    },
                    _ => {},
                }
            },
        }
        i += 1;
    }
    proof {
        if first is Some {
            lemma_first_failed_unique(outcomes@, at);
        }
    }
    if ambiguous {
        RoundVerdict::Abort(Error::AmbiguousChallenge)
    } else {
        match first {
            Some(e) => RoundVerdict::Abort(e),
            None => if all {
                RoundVerdict::Success
            } else {
                RoundVerdict::Retry
            },
        }
    }
}

/// The outcomes of a round in which server `i` gave `answers[i]`.
pub open spec fn spec_round_outcomes(
    answers: Seq<Result<Vec<String>, LookupError>>,
    challenge: Seq<char>,
) -> Seq<RoundOutcome> {
    Seq::new(answers.len(), |i: int| spec_classify(spec_answer(answers[i]), challenge))
}

/// Classifies the answers of one round, one for each server and in their
/// order.
pub fn check_round(
    endpoints: &Vec<AuthoritiveResolver>,
    answers: &Vec<Result<Vec<String>, LookupError>>,
    challenge: &str,
) -> (outcomes: Vec<RoundOutcome>)
    requires
        answers.len() == endpoints.len(),
    ensures
        outcomes@ == spec_round_outcomes(answers@, challenge@),
{
    let mut outcomes: Vec<RoundOutcome> = Vec::new();
    let mut i: usize = 0;
    while i < answers.len()
        invariant
            0 <= i <= answers.len(),
            answers.len() == endpoints.len(),
            outcomes@.len() == i,
            forall|j: int|
                0 <= j < i ==> outcomes@[j] == spec_classify(
                    spec_answer(#[trigger] answers@[j]),
                    challenge@,
                ),
        decreases answers.len() - i,
    {
        let outcome = endpoints[i].check(&answers[i], challenge);
        outcomes.push(outcome);
        i += 1;
    }
    proof {
        assert(outcomes@ =~= spec_round_outcomes(answers@, challenge@));
    }
    outcomes
}

/// The fan-in of one round: a slot for every server, filled as the servers
/// report, in whatever order they do. Nothing is decided before the last of
/// them has reported.
#[derive(Debug)]
pub struct Round {
    slots: Vec<Option<RoundOutcome>>,
}

impl View for Round {
    type V = Seq<Option<RoundOutcome>>;

    closed spec fn view(&self) -> Seq<Option<RoundOutcome>> {
        self.slots@
    }
}

/// Every server of the round has reported.
pub open spec fn spec_complete(slots: Seq<Option<RoundOutcome>>) -> bool {
    forall|i: int| 0 <= i < slots.len() ==> slots[i] is Some
}

/// What the servers of a complete round reported, in their order.
pub open spec fn spec_reported(slots: Seq<Option<RoundOutcome>>) -> Seq<RoundOutcome> {
    Seq::new(slots.len(), |i: int| slots[i]->Some_0)
}

impl Round {
    /// A round of `endpoints` servers, none of which has reported.
    pub fn open(endpoints: usize) -> (round: Round)
        ensures
            round@ == Seq::new(endpoints as nat, |i: int| None::<RoundOutcome>),
    {
        let mut slots: Vec<Option<RoundOutcome>> = Vec::new();
        let mut i: usize = 0;
        while i < endpoints
            invariant
                0 <= i <= endpoints,
                slots@.len() == i,
                forall|j: int| 0 <= j < i ==> slots@[j] is None,
            decreases endpoints - i,
        {
            slots.push(None);
            i += 1;
        }
        proof {
            assert(slots@ =~= Seq::new(endpoints as nat, |i: int| None::<RoundOutcome>));
        }
        Round { slots }
    }

    /// Takes down what server `endpoint` reported. Where the round has no
    /// such server, nothing changes and the answer is `false`.
    pub fn report(&mut self, endpoint: usize, outcome: RoundOutcome) -> (taken: bool)
        ensures
            taken == (endpoint < old(self)@.len()),
            taken ==> final(self)@ == old(self)@.update(endpoint as int, Some(outcome)),
            !taken ==> final(self)@ == old(self)@,
    {
        if endpoint < self.slots.len() {
            self.slots.set(endpoint, Some(outcome));
            true
        } else {
            false
        }
    }

    /// The outcomes of the round, once every server has reported, and `None`
    /// before that.
    pub fn outcomes(&self) -> (outcomes: Option<Vec<RoundOutcome>>)
        ensures
            outcomes is Some <==> spec_complete(self@),
            outcomes is Some ==> outcomes->Some_0@ == spec_reported(self@),
    {
        let mut outcomes: Vec<RoundOutcome> = Vec::new();
        let mut i: usize = 0;
        while i < self.slots.len()
            invariant
                0 <= i <= self.slots.len(),
                outcomes@.len() == i,
                forall|j: int| 0 <= j < i ==> self.slots@[j] == Some(outcomes@[j]),
            decreases self.slots.len() - i,
        {
            match self.slots[i] {
                Some(outcome) => {
                    outcomes.push(outcome);
                },
                None => {
                    return None;
                },
            }
            i += 1;
        }
        proof {
            assert(outcomes@ =~= spec_reported(self@));
        }
        Some(outcomes)
    }

    /// The verdict of the round, once every server has reported, and `None`
    /// before that: a server that is slow to report holds the verdict back,
    /// whatever the others have reported.
    pub fn decide(&self) -> (verdict: Option<RoundVerdict>)
        ensures
            verdict is Some <==> spec_complete(self@),
            verdict is Some ==> verdict->Some_0 == spec_verdict(spec_reported(self@)),
    {
        match self.outcomes() {
            Some(outcomes) => Some(reduce_round(&outcomes)),
            None => None,
        }
    }
}

} // verus!
