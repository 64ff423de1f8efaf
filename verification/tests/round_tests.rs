use acme_propagation::address::Address;
use acme_propagation::challenge::{AuthoritiveResolver, RoundOutcome};
use acme_propagation::error::{Error, FailureKind, LookupError};
use acme_propagation::round::{check_round, reduce_round, Round, RoundVerdict};

const M: RoundOutcome = RoundOutcome::Matched;
const N: RoundOutcome = RoundOutcome::NotYetPresent;
const AMBIGUOUS: RoundOutcome = RoundOutcome::Failed(Error::AmbiguousChallenge);
const TIMED_OUT: RoundOutcome = RoundOutcome::Failed(Error::QueryFailure(FailureKind::Timeout));
const REFUSED: RoundOutcome = RoundOutcome::Failed(Error::QueryFailure(FailureKind::Refused));

#[test]
fn all_matched_is_success() {
    assert_eq!(reduce_round(&vec![M]), RoundVerdict::Success);
    assert_eq!(reduce_round(&vec![M, M, M]), RoundVerdict::Success);
}

#[test]
fn round_without_servers_is_success() {
    assert_eq!(reduce_round(&vec![]), RoundVerdict::Success);
}

#[test]
fn one_missing_record_is_retry() {
    assert_eq!(reduce_round(&vec![N]), RoundVerdict::Retry);
    assert_eq!(reduce_round(&vec![M, N, M]), RoundVerdict::Retry);
    assert_eq!(reduce_round(&vec![M, M, N]), RoundVerdict::Retry);
    assert_eq!(reduce_round(&vec![N, N, N]), RoundVerdict::Retry);
}

#[test]
fn any_error_aborts_the_round() {
    assert_eq!(
        reduce_round(&vec![M, M, TIMED_OUT]),
        RoundVerdict::Abort(Error::QueryFailure(FailureKind::Timeout))
    );
    assert_eq!(
        reduce_round(&vec![TIMED_OUT, M, M]),
        RoundVerdict::Abort(Error::QueryFailure(FailureKind::Timeout))
    );
    assert_eq!(
        reduce_round(&vec![N, TIMED_OUT, N]),
        RoundVerdict::Abort(Error::QueryFailure(FailureKind::Timeout))
    );
    assert_eq!(reduce_round(&vec![M, AMBIGUOUS]), RoundVerdict::Abort(Error::AmbiguousChallenge));
}

#[test]
fn first_error_in_server_order_is_reported() {
    assert_eq!(
        reduce_round(&vec![M, REFUSED, TIMED_OUT]),
        RoundVerdict::Abort(Error::QueryFailure(FailureKind::Refused))
    );
    assert_eq!(
        reduce_round(&vec![TIMED_OUT, N, REFUSED]),
        RoundVerdict::Abort(Error::QueryFailure(FailureKind::Timeout))
    );
}

#[test]
fn ambiguity_wins_over_other_errors() {
    assert_eq!(
        reduce_round(&vec![TIMED_OUT, AMBIGUOUS, REFUSED]),
        RoundVerdict::Abort(Error::AmbiguousChallenge)
    );
    assert_eq!(
        reduce_round(&vec![REFUSED, M, N, AMBIGUOUS]),
        RoundVerdict::Abort(Error::AmbiguousChallenge)
    );
}

#[test]
fn check_round_classifies_each_answer_in_order() {
    let endpoints = vec![
        AuthoritiveResolver::new(vec![Address::V4(1)]),
        AuthoritiveResolver::new(vec![Address::V4(2)]),
        AuthoritiveResolver::new(vec![Address::V4(3)]),
        AuthoritiveResolver::new(vec![Address::V4(4)]),
        AuthoritiveResolver::new(vec![Address::V4(5)]),
    ];
    let answers = vec![
        Ok(vec!["token".to_string()]),
        Ok(vec![]),
        Err(LookupError::NoRecords),
        Ok(vec!["token".to_string(), "token2".to_string()]),
        Err(LookupError::Failed(FailureKind::Timeout)),
    ];
    assert_eq!(check_round(&endpoints, &answers, "token"), vec![M, N, N, AMBIGUOUS, TIMED_OUT]);
    assert_eq!(check_round(&vec![], &vec![], "token"), vec![]);
}

#[test]
fn round_decides_nothing_before_all_servers_reported() {
    let mut round = Round::open(3);
    assert_eq!(round.decide(), None);
    assert_eq!(round.outcomes(), None);
    assert!(round.report(2, TIMED_OUT));
    assert_eq!(round.decide(), None);
    assert!(round.report(0, M));
    assert_eq!(round.decide(), None);
    assert_eq!(round.outcomes(), None);
    assert!(round.report(1, N));
    assert_eq!(round.outcomes(), Some(vec![M, N, TIMED_OUT]));
    assert_eq!(
        round.decide(),
        Some(RoundVerdict::Abort(Error::QueryFailure(FailureKind::Timeout)))
    );
}

#[test]
fn round_takes_reports_in_any_order() {
    let mut late = Round::open(2);
    assert!(late.report(1, M));
    assert!(late.report(0, M));
    let mut early = Round::open(2);
    assert!(early.report(0, M));
    assert!(early.report(1, M));
    assert_eq!(late.outcomes(), early.outcomes());
    assert_eq!(late.decide(), Some(RoundVerdict::Success));
}

#[test]
fn round_refuses_a_server_it_does_not_have() {
    let mut round = Round::open(1);
    assert!(!round.report(1, M));
    assert_eq!(round.decide(), None);
    assert!(round.report(0, N));
    assert_eq!(round.decide(), Some(RoundVerdict::Retry));
    assert!(round.report(0, M));
    assert_eq!(round.decide(), Some(RoundVerdict::Success));
}

#[test]
fn round_without_servers_is_complete() {
    let round = Round::open(0);
    assert_eq!(round.outcomes(), Some(vec![]));
    assert_eq!(round.decide(), Some(RoundVerdict::Success));
}
