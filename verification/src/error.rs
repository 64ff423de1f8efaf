//! What can go wrong, as plain values.

use vstd::prelude::*;

verus! {

/// Why a lookup failed for a reason other than a negative answer.
#[derive(Clone, Copy, Debug, PartialEq, Eq, Structural)]
pub enum FailureKind {
    /// No server answered in time.
    Timeout,
    /// The exchange with the server broke down.
    Transport,
    /// The answer could not be decoded.
    Malformed,
    /// The server refused the query.
    Refused,
    /// Any other failure.
    Other,
}

/// The failure of one lookup. A negative answer is told apart from all other
/// failures, because only the former is worth waiting out.
#[derive(Clone, Copy, Debug, PartialEq, Eq, Structural)]
pub enum LookupError {
    /// The name or the record does not exist.
    NoRecords,
    /// The lookup did not produce an answer.
    Failed(FailureKind),
}

/// The terminal errors of a wait.
#[derive(Clone, Copy, Debug, PartialEq, Eq, Structural)]
pub enum Error {
    /// The nameservers of the zone, or the addresses of one of them, could not
    /// be resolved.
    DiscoveryFailure(LookupError),
    /// An authoritative server holds more than one TXT record at the challenge
    /// name.
    AmbiguousChallenge,
    /// A challenge query failed for a reason other than a negative answer.
    QueryFailure(FailureKind),
    /// The round budget ran out before all servers agreed.
    PropagationTimeout,
    /// The worker of the blocking entry point could not be started.
    AdapterInitFailure,
}

impl Error {
    /// A short description of the error.
    pub fn message(&self) -> (text: &'static str)
        ensures
            text@ == spec_message(*self),
    {
        match self {
            Error::DiscoveryFailure(_) => "authoritative nameservers could not be resolved",
            Error::AmbiguousChallenge => "more than one acme challenge record present",
            Error::QueryFailure(_) => "acme challenge query failed",
            Error::PropagationTimeout => "timeout checking acme challenge record",
            Error::AdapterInitFailure => "worker runtime could not be started",
        }
    }
}

/// The text that `Error::message` gives for each error.
pub open spec fn spec_message(e: Error) -> Seq<char> {
    match e {
        Error::DiscoveryFailure(_) => "authoritative nameservers could not be resolved"@,
        Error::AmbiguousChallenge => "more than one acme challenge record present"@,
        Error::QueryFailure(_) => "acme challenge query failed"@,
        Error::PropagationTimeout => "timeout checking acme challenge record"@,
        Error::AdapterInitFailure => "worker runtime could not be started"@,
    }
}

} // verus!
