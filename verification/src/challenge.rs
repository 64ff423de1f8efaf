//! The challenge check on one authoritative server: what is asked, and how
//! the answer is classified.

use vstd::prelude::*;
use vstd::string::StringExecFns;
use crate::address::{Address, DNS_PORT};
use crate::error::{Error, LookupError};

verus! {

/// What one server contributed to one polling round.
#[derive(Clone, Copy, Debug, PartialEq, Eq, Structural)]
pub enum RoundOutcome {
    /// The server holds exactly the expected challenge record.
    Matched,
    /// The server does not hold the expected record yet.
    NotYetPresent,
    /// The check ended in an error that waiting will not mend.
    Failed(Error),
}

/// How a resolver is set up.
#[derive(Clone, Debug)]
pub struct ResolverSettings {
    /// The servers that are asked, in order.
    pub servers: Vec<Address>,
    /// The port on which they are asked.
    pub port: u16,
    /// Whether the servers are asked without encryption, over UDP and TCP.
    pub cleartext: bool,
    /// Whether the servers are asked to recurse.
    pub recursion_desired: bool,
    /// Whether only IPv6 addresses are looked up for a host name.
    pub ipv6_only: bool,
    /// Whether the local hosts file may answer.
    pub use_hosts_file: bool,
    /// Whether an answer may come from the resolver's cache.
    pub use_cache: bool,
}

/// A TXT lookup to be made.
#[derive(Clone, Debug)]
pub struct TxtQuery {
    /// The record name.
    pub name: String,
    /// How the resolver that makes the lookup is set up.
    pub settings: ResolverSettings,
}

/// The label under which the challenge record is published.
pub open spec fn spec_challenge_prefix() -> Seq<char> {
    "_acme-challenge."@
}

/// The record name of the challenge for a domain.
pub open spec fn spec_challenge_name(domain: Seq<char>) -> Seq<char> {
    spec_challenge_prefix() + domain
}

/// The record name at which the challenge of `domain` is published.
pub fn challenge_name(domain: &str) -> (name: String)
    ensures
        name@ == spec_challenge_name(domain@),
{
    String::from_str("_acme-challenge.").concat(domain)
}

/// The outcome that an answer to the challenge query stands for.
///
/// Exactly one record is the only determinate state: it matches or it does
/// not. No record, or a negative answer, means that the record has not
/// arrived. Several records are an error, as is any other failure.
pub open spec fn spec_classify(
    answer: Result<Seq<Seq<char>>, LookupError>,
    challenge: Seq<char>,
) -> RoundOutcome {
    match answer {
        Ok(records) => {
            if records.len() == 0 {
                RoundOutcome::NotYetPresent
            } else if records.len() == 1 {
                if records[0] == challenge {
                    RoundOutcome::Matched
                } else {
                    RoundOutcome::NotYetPresent
                }
            } else {
                RoundOutcome::Failed(Error::AmbiguousChallenge)
            }
        },
        Err(LookupError::NoRecords) => RoundOutcome::NotYetPresent,
        Err(LookupError::Failed(kind)) => RoundOutcome::Failed(Error::QueryFailure(kind)),
    }
}

/// The values of a list of records.
pub open spec fn spec_texts(records: Seq<String>) -> Seq<Seq<char>> {
    Seq::new(records.len(), |i: int| records[i]@)
}

/// An answer to a TXT lookup, with each record as its value.
pub open spec fn spec_answer(answer: Result<Vec<String>, LookupError>) -> Result<
    Seq<Seq<char>>,
    LookupError,
> {
    match answer {
        Ok(records) => Ok(spec_texts(records@)),
        Err(e) => Err(e),
    }
}

/// The outcome of a round as the result of a single check: `Ok(true)` for a
/// match, `Ok(false)` where the record is not there yet.
pub open spec fn spec_outcome_result(outcome: RoundOutcome) -> Result<bool, Error> {
    match outcome {
        RoundOutcome::Matched => Ok(true),
        RoundOutcome::NotYetPresent => Ok(false),
        RoundOutcome::Failed(e) => Err(e),
    }
}

/// Classifies the answer of one server to the challenge query.
pub fn classify(answer: &Result<Vec<String>, LookupError>, challenge: &str) -> (outcome:
    RoundOutcome)
    ensures
        outcome == spec_classify(spec_answer(*answer), challenge@),
{
    match answer {
        Ok(records) => {
            if records.len() == 0 {
                RoundOutcome::NotYetPresent
            } else if records.len() == 1 {
                let expected = String::from_str(challenge);
                if records[0] == expected {
                    RoundOutcome::Matched
                } else {
                    RoundOutcome::NotYetPresent
                }
            } else {
                RoundOutcome::Failed(Error::AmbiguousChallenge)
            }
        },
        Err(LookupError::NoRecords) => RoundOutcome::NotYetPresent,
        Err(LookupError::Failed(kind)) => RoundOutcome::Failed(Error::QueryFailure(*kind)),
    }
}

/// One authoritative nameserver of the zone, asked directly.
///
/// Its addresses are fixed when it is made. It is never asked to recurse, and
/// no answer is taken from a cache.
#[derive(Clone, Debug)]
pub struct AuthoritiveResolver {
    addresses: Vec<Address>,
}

impl View for AuthoritiveResolver {
    type V = Seq<Address>;

    closed spec fn view(&self) -> Seq<Address> {
        self.addresses@
    }
}

/// Whether `settings` describe a direct path to the servers at `addresses`:
/// the standard port, cleartext, no recursion, no hosts file, no cache.
pub open spec fn spec_direct(settings: ResolverSettings, addresses: Seq<Address>) -> bool {
    &&& settings.servers@ == addresses
    &&& settings.port == DNS_PORT
    &&& settings.cleartext
    &&& !settings.recursion_desired
    &&& settings.ipv6_only
    &&& !settings.use_hosts_file
    &&& !settings.use_cache
}

impl AuthoritiveResolver {
    /// An endpoint for the server at the given addresses.
    pub fn new(addresses: Vec<Address>) -> (endpoint: AuthoritiveResolver)
        ensures
            endpoint@ == addresses@,
    {
        AuthoritiveResolver { addresses }
    }

    /// The addresses of the server, in the order in which they are tried.
    pub fn addresses(&self) -> (addresses: &Vec<Address>)
        ensures
            addresses@ == self@,
    {
        &self.addresses
    }

    /// How the resolver for this server is set up.
    pub fn settings(&self) -> (settings: ResolverSettings)
        ensures
            spec_direct(settings, self@),
    {
        ResolverSettings {
            servers: self.addresses.clone(),
            port: DNS_PORT,
            cleartext: true,
            recursion_desired: false,
            ipv6_only: true,
            use_hosts_file: false,
            use_cache: false,
        }
    }

    /// The lookup that checks the challenge of `domain` on this server.
    pub fn challenge_query(&self, domain: &str) -> (query: TxtQuery)
        ensures
            query.name@ == spec_challenge_name(domain@),
            spec_direct(query.settings, self@),
    {
        TxtQuery { name: challenge_name(domain), settings: self.settings() }
    }

    /// The outcome of this server's answer to the challenge query.
    pub fn check(&self, answer: &Result<Vec<String>, LookupError>, challenge: &str) -> (outcome:
        RoundOutcome)
        ensures
            outcome == spec_classify(spec_answer(*answer), challenge@),
    {
        classify(answer, challenge)
    }

    /// Whether this server's answer holds the challenge as its single record.
    pub fn has_single_acme(
        &self,
        answer: &Result<Vec<String>, LookupError>,
        challenge: &str,
    ) -> (found: Result<bool, Error>)
        ensures
            found == spec_outcome_result(spec_classify(spec_answer(*answer), challenge@)),
    {
        match classify(answer, challenge) {
            RoundOutcome::Matched => Ok(true),
            RoundOutcome::NotYetPresent => Ok(false),
            RoundOutcome::Failed(e) => Err(e),
        }
    }
}

} // verus!
