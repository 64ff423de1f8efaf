//! Discovery of the authoritative nameservers of a zone.
//!
//! A recursive resolver finds the host names of the zone's nameservers and
//! the addresses of each. Out of every nameserver's addresses an endpoint is
//! made that is asked directly from then on.

use vstd::prelude::*;
use crate::address::{Address, ResolverType, DNS_PORT, spec_nameservers};
use crate::challenge::{AuthoritiveResolver, ResolverSettings};
use crate::error::{Error, LookupError};

verus! {

/// The settings of a resolver that asks `servers` in cleartext on the standard
/// port, never reads the hosts file and keeps no cache.
pub fn ipv6_resolver(servers: Vec<Address>, recursion: bool, ipv6_only: bool) -> (settings:
    ResolverSettings)
    ensures
        settings.servers@ == servers@,
        settings.port == DNS_PORT,
        settings.cleartext,
        settings.recursion_desired == recursion,
        settings.ipv6_only == ipv6_only,
        !settings.use_hosts_file,
        !settings.use_cache,
{
    ResolverSettings {
        servers,
        port: DNS_PORT,
        cleartext: true,
        recursion_desired: recursion,
        ipv6_only,
        use_hosts_file: false,
        use_cache: false,
    }
}

/// The settings of a resolver that asks `servers` to recurse.
pub fn recursive_resolver(servers: Vec<Address>, ipv6_only: bool) -> (settings: ResolverSettings)
    ensures
        settings.servers@ == servers@,
        settings.port == DNS_PORT,
        settings.cleartext,
        settings.recursion_desired,
        settings.ipv6_only == ipv6_only,
        !settings.use_hosts_file,
        !settings.use_cache,
{
    ipv6_resolver(servers, true, ipv6_only)
}

/// The resolver that discovery starts from.
#[derive(Clone, Debug)]
pub struct RecursiveResolver {
    settings: ResolverSettings,
}

impl ResolverType {
    /// The settings of a recursive resolver of this type.
    pub fn resolver(&self, ipv6_only: bool) -> (settings: ResolverSettings)
        ensures
            settings.servers@ == spec_nameservers(*self),
            settings.port == DNS_PORT,
            settings.cleartext,
            settings.recursion_desired,
            settings.ipv6_only == ipv6_only,
            !settings.use_hosts_file,
            !settings.use_cache,
    {
        recursive_resolver(self.nameservers(), ipv6_only)
    }

    /// A recursive resolver of this type.
    pub fn recursive_resolver(&self, ipv6_only: bool) -> (resolver: RecursiveResolver)
        ensures
            resolver.spec_settings().servers@ == spec_nameservers(*self),
            resolver.spec_settings().port == DNS_PORT,
            resolver.spec_settings().cleartext,
            resolver.spec_settings().recursion_desired,
            resolver.spec_settings().ipv6_only == ipv6_only,
            !resolver.spec_settings().use_hosts_file,
            !resolver.spec_settings().use_cache,
    {
        RecursiveResolver { settings: self.resolver(ipv6_only) }
    }
}

/// The addresses of one family, where a family without records counts as
/// empty and any other failure stops discovery.
pub open spec fn spec_family<T>(answer: Result<Vec<T>, LookupError>) -> Result<
    Seq<T>,
    Error,
> {
    match answer {
        Ok(found) => Ok(found@),
        Err(LookupError::NoRecords) => Ok(Seq::empty()),
        Err(LookupError::Failed(kind)) => Err(
            Error::DiscoveryFailure(LookupError::Failed(kind)),
        ),
    }
}

/// The addresses of a nameserver: those of IPv6 first, then those of IPv4,
/// with nothing removed.
pub open spec fn spec_merge(ipv6: Seq<u128>, ipv4: Seq<u32>) -> Seq<Address> {
    Seq::new(
        ipv6.len() + ipv4.len(),
        |i: int|
            if i < ipv6.len() {
                Address::V6(ipv6[i])
            } else {
                Address::V4(ipv4[i - ipv6.len()])
            },
    )
}

/// The endpoint addresses that the two address lookups of a nameserver give,
/// or the error of the first lookup that failed.
pub open spec fn spec_endpoint(
    ipv6: Result<Vec<u128>, LookupError>,
    ipv4: Result<Vec<u32>, LookupError>,
) -> Result<Seq<Address>, Error> {
    match spec_family(ipv6) {
        Err(e) => Err(e),
        Ok(six) => match spec_family(ipv4) {
            Err(e) => Err(e),
            Ok(four) => Ok(spec_merge(six, four)),
        },
    }
}

/// The first error among the endpoints, where there is one.
pub open spec fn spec_is_first_error(
    resolved: Seq<Result<AuthoritiveResolver, Error>>,
    i: int,
) -> bool {
    &&& 0 <= i < resolved.len()
    &&& resolved[i] is Err
    &&& forall|j: int| 0 <= j < i ==> resolved[j] is Ok
}

/// The address lists of endpoints.
pub open spec fn spec_endpoints(endpoints: Seq<AuthoritiveResolver>) -> Seq<Seq<Address>> {
    Seq::new(endpoints.len(), |i: int| endpoints[i]@)
}

impl RecursiveResolver {
    /// The settings of this resolver.
    pub closed spec fn spec_settings(&self) -> ResolverSettings {
        self.settings
    }

    /// The settings with which this resolver makes its lookups.
    pub fn settings(&self) -> (settings: &ResolverSettings)
        ensures
            *settings == self.spec_settings(),
    {
        &self.settings
    }

    /// The host names of the zone's nameservers, out of the answer to the NS
    /// lookup. Any failure of that lookup ends discovery.
    pub fn nameservers(&self, answer: Result<Vec<String>, LookupError>) -> (names: Result<
        Vec<String>,
        Error,
    >)
        ensures
            match answer {
                Ok(found) => names == Ok::<Vec<String>, Error>(found),
                Err(e) => names == Err::<Vec<String>, Error>(Error::DiscoveryFailure(e)),
            },
    {
        match answer {
            Ok(found) => Ok(found),
            Err(e) => Err(Error::DiscoveryFailure(e)),
        }
    }

    /// The endpoint of one nameserver, out of the answers to its two address
    /// lookups. A family without records is passed over; any other failure of
    /// a lookup fails discovery.
    pub fn authoritive_resolver(
        &self,
        ipv6: Result<Vec<u128>, LookupError>,
        ipv4: Result<Vec<u32>, LookupError>,
    ) -> (endpoint: Result<AuthoritiveResolver, Error>)
        ensures
            match spec_endpoint(ipv6, ipv4) {
                Ok(addresses) => endpoint is Ok && endpoint->Ok_0@ == addresses,
                Err(e) => endpoint == Err::<AuthoritiveResolver, Error>(e),
            },
    {
        let six: Vec<u128> = match ipv6 {
            Ok(found) => found,
            Err(LookupError::NoRecords) => Vec::new(),
            Err(LookupError::Failed(kind)) => {
                return Err(Error::DiscoveryFailure(LookupError::Failed(kind)));
            },
        };
        let four: Vec<u32> = match ipv4 {
            Ok(found) => found,
            Err(LookupError::NoRecords) => Vec::new(),
            Err(LookupError::Failed(kind)) => {
                return Err(Error::DiscoveryFailure(LookupError::Failed(kind)));
            },
        };
        let mut addresses: Vec<Address> = Vec::new();
        let mut i: usize = 0;
        while i < six.len()
            invariant
                0 <= i <= six.len(),
                addresses@.len() == i,
                forall|j: int| 0 <= j < i ==> addresses@[j] == Address::V6(six@[j]),
            decreases six.len() - i,
        {
            addresses.push(Address::V6(six[i]));
            i += 1;
        }
        let mut k: usize = 0;
        while k < four.len()
            invariant
                0 <= k <= four.len(),
                addresses@.len() == six.len() + k,
                forall|j: int| 0 <= j < six.len() ==> addresses@[j] == Address::V6(six@[j]),
                forall|j: int|
                    0 <= j < k ==> addresses@[six.len() + j] == Address::V4(#[trigger] four@[j]),
            decreases four.len() - k,
        {
            addresses.push(Address::V4(four[k]));
            k += 1;
        }
        proof {
            assert forall|j: int| 0 <= j < addresses@.len() implies addresses@[j] == spec_merge(
                six@,
                four@,
            )[j] by {
                if j >= six.len() {
                    let d = j - six.len();
                    assert(addresses@[six.len() + d] == Address::V4(four@[d]));
                }
            }
            assert(addresses@ =~= spec_merge(six@, four@));
        }
        Ok(AuthoritiveResolver::new(addresses))
    }

    /// The endpoints of all nameservers, or the error of the first nameserver
    /// that could not be resolved: one failure fails discovery as a whole.
    pub fn authoritive_resolvers(&self, resolved: Vec<Result<AuthoritiveResolver, Error>>) -> (all:
        Result<Vec<AuthoritiveResolver>, Error>)
        ensures
            all is Ok <==> forall|i: int| 0 <= i < resolved@.len() ==> resolved@[i] is Ok,
            all is Ok ==> all->Ok_0@.len() == resolved@.len() && forall|i: int|
                0 <= i < resolved@.len() ==> all->Ok_0@[i]@ == resolved@[i]->Ok_0@,
            all is Err ==> exists|i: int|
                spec_is_first_error(resolved@, i) && resolved@[i]->Err_0 == all->Err_0,
    {
        let mut endpoints: Vec<AuthoritiveResolver> = Vec::new();
        let mut i: usize = 0;
        while i < resolved.len()
            invariant
                0 <= i <= resolved.len(),
                endpoints@.len() == i,
                forall|j: int| 0 <= j < i ==> resolved@[j] is Ok,
                forall|j: int| 0 <= j < i ==> endpoints@[j]@ == resolved@[j]->Ok_0@,
            decreases resolved.len() - i,
        {
            match &resolved[i] {
                Ok(endpoint) => {
                    endpoints.push(AuthoritiveResolver::new(endpoint.addresses().clone()));
                },
                Err(e) => {
                    proof {
                        assert(spec_is_first_error(resolved@, i as int));
                    }
                    return Err(*e);
                },
            }
            i += 1;
        }
        Ok(endpoints)
    }
}

} // verus!
