use acme_propagation::address::{Address, ResolverType};
use acme_propagation::challenge::AuthoritiveResolver;
use acme_propagation::discovery::{ipv6_resolver, recursive_resolver, RecursiveResolver};
use acme_propagation::error::{Error, FailureKind, LookupError};
use hickory_resolver::config::{CLOUDFLARE_IPS, GOOGLE_IPS};

fn same<T: PartialEq + From<[u8; 4]> + From<[u8; 16]>>(theirs: &[T], ours: &[Address]) -> bool {
    theirs.len() == ours.len()
        && theirs.iter().zip(ours).all(|(t, o)| match o {
            Address::V4(bits) => *t == T::from(bits.to_be_bytes()),
            Address::V6(bits) => *t == T::from(bits.to_be_bytes()),
        })
}

fn google() -> RecursiveResolver {
    ResolverType::Google.recursive_resolver(true)
}

fn ipv6_endpoint(bits: u128) -> Vec<Address> {
    google()
        .authoritive_resolver(Ok(vec![bits]), Err(LookupError::NoRecords))
        .unwrap()
        .addresses()
        .clone()
}

#[test]
fn google_nameserver() {
    let _ = ResolverType::Google.resolver(true);
}

#[test]
fn google_servers_are_the_public_ones() {
    assert_eq!(
        ResolverType::Google.nameservers(),
        vec![
            Address::V4(0x0808_0808),
            Address::V4(0x0808_0404),
            Address::V6(0x2001_4860_4860_0000_0000_0000_0000_8888),
            Address::V6(0x2001_4860_4860_0000_0000_0000_0000_8844),
        ]
    );
    assert!(same(GOOGLE_IPS, &ResolverType::Google.nameservers()));
}

#[test]
fn cloudflare_servers_are_the_public_ones() {
    assert_eq!(
        ResolverType::Cloudflare.nameservers(),
        vec![
            Address::V4(0x0101_0101),
            Address::V4(0x0100_0001),
            Address::V6(0x2606_4700_4700_0000_0000_0000_0000_1111),
            Address::V6(0x2606_4700_4700_0000_0000_0000_0000_1001),
        ]
    );
    assert!(same(CLOUDFLARE_IPS, &ResolverType::Cloudflare.nameservers()));
    assert!(!same(GOOGLE_IPS, &ResolverType::Cloudflare.nameservers()));
}

#[test]
fn local_servers_are_loopback() {
    assert_eq!(
        ResolverType::Local.nameservers(),
        vec![Address::V6(1), Address::V4(0x7f00_0001)]
    );
    assert!(Address::V6(1).is_v6());
    assert!(!Address::V4(0x7f00_0001).is_v6());
}

#[test]
fn recursive_resolver_recurses_and_skips_hosts_file() {
    let settings = ResolverType::Google.resolver(false);
    assert_eq!(settings.servers, ResolverType::Google.nameservers());
    assert_eq!(settings.port, 53);
    assert!(settings.cleartext);
    assert!(settings.recursion_desired);
    assert!(!settings.ipv6_only);
    assert!(!settings.use_hosts_file);
    assert!(!settings.use_cache);
    let resolver = ResolverType::Cloudflare.recursive_resolver(true);
    assert_eq!(resolver.settings().servers, ResolverType::Cloudflare.nameservers());
    assert!(resolver.settings().recursion_desired);
    assert!(resolver.settings().ipv6_only);
    let plain = recursive_resolver(vec![Address::V4(9)], true);
    assert_eq!(plain.servers, vec![Address::V4(9)]);
    assert!(plain.recursion_desired);
    let direct = ipv6_resolver(vec![Address::V4(9)], false, true);
    assert!(!direct.recursion_desired);
    assert!(direct.ipv6_only);
    assert_eq!(direct.port, 53);
}

#[test]
fn paul_min_nl() {
    let answer = Ok(vec![
        "ns1.transip.nl.".to_owned(),
        "ns2.transip.eu.".to_owned(),
        "ns0.transip.net.".to_owned(),
    ]);
    let mut names = google().nameservers(answer).unwrap();
    names.sort();
    assert_eq!(
        names,
        vec![
            "ns0.transip.net.".to_owned(),
            "ns1.transip.nl.".to_owned(),
            "ns2.transip.eu.".to_owned(),
        ]
    )
}

#[test]
fn test_domain_ns() {
    let answer = Ok(vec![
        "ns2.transip.eu.".to_owned(),
        "ns0.transip.net.".to_owned(),
        "ns1.transip.nl.".to_owned(),
    ]);
    let mut domain = google().nameservers(answer).unwrap();
    domain.sort();
    assert_eq!(
        domain,
        vec![
            "ns0.transip.net.".to_owned(),
            "ns1.transip.nl.".to_owned(),
            "ns2.transip.eu.".to_owned(),
        ],
    );
}

#[test]
fn failed_ns_lookup_fails_discovery() {
    assert_eq!(
        google().nameservers(Err(LookupError::NoRecords)),
        Err(Error::DiscoveryFailure(LookupError::NoRecords))
    );
    assert_eq!(
        google().nameservers(Err(LookupError::Failed(FailureKind::Timeout))),
        Err(Error::DiscoveryFailure(LookupError::Failed(FailureKind::Timeout)))
    );
}

#[test]
fn test_ns0_transip_net() {
    assert_eq!(
        ipv6_endpoint(0x2a01_07c8_dddd_0195_0000_0000_0000_0195),
        vec![Address::V6(0x2a01_07c8_dddd_0195_0000_0000_0000_0195)],
    );
}

#[test]
fn test_ns1_transip_nl() {
    assert_eq!(
        ipv6_endpoint(0x2a01_07c8_7000_0195_0000_0000_0000_0195),
        vec![Address::V6(0x2a01_07c8_7000_0195_0000_0000_0000_0195)],
    );
}

#[test]
fn test_ns2_transip_eu() {
    assert_eq!(
        ipv6_endpoint(0x2a01_07c8_000f_0c1f_0000_0000_0000_0195),
        vec![Address::V6(0x2a01_07c8_000f_0c1f_0000_0000_0000_0195)],
    );
}

#[test]
fn test_www_paulmin_nl() {
    let found: Vec<u128> = vec![
        0x2606_50c0_8000_0000_0000_0000_0000_0153,
        0x2606_50c0_8001_0000_0000_0000_0000_0153,
        0x2606_50c0_8002_0000_0000_0000_0000_0153,
        0x2606_50c0_8003_0000_0000_0000_0000_0153,
    ];
    let endpoint = google().authoritive_resolver(Ok(found.clone()), Ok(vec![])).unwrap();
    let addresses = endpoint.addresses();
    assert!(addresses.contains(&Address::V6(found[0])));
    assert!(addresses.contains(&Address::V6(found[1])));
    assert!(addresses.contains(&Address::V6(found[2])));
    assert!(addresses.contains(&Address::V6(found[3])));
}

#[test]
fn endpoint_lists_ipv6_before_ipv4() {
    let endpoint = google()
        .authoritive_resolver(Ok(vec![7, 8]), Ok(vec![0x0a00_0001, 0x0a00_0002, 0x0a00_0001]))
        .unwrap();
    assert_eq!(
        endpoint.addresses(),
        &vec![
            Address::V6(7),
            Address::V6(8),
            Address::V4(0x0a00_0001),
            Address::V4(0x0a00_0002),
            Address::V4(0x0a00_0001),
        ]
    );
}

#[test]
fn missing_family_is_tolerated() {
    let only_v4 = google()
        .authoritive_resolver(Err(LookupError::NoRecords), Ok(vec![0x0a00_0001]))
        .unwrap();
    assert_eq!(only_v4.addresses(), &vec![Address::V4(0x0a00_0001)]);
    let only_v6 = google().authoritive_resolver(Ok(vec![9]), Err(LookupError::NoRecords)).unwrap();
    assert_eq!(only_v6.addresses(), &vec![Address::V6(9)]);
    let none = google()
        .authoritive_resolver(Err(LookupError::NoRecords), Err(LookupError::NoRecords))
        .unwrap();
    assert!(none.addresses().is_empty());
}

#[test]
fn failed_address_lookup_fails_discovery() {
    let v6_failed = google().authoritive_resolver(
        Err(LookupError::Failed(FailureKind::Timeout)),
        Err(LookupError::Failed(FailureKind::Refused)),
    );
    assert_eq!(
        v6_failed.err(),
        Some(Error::DiscoveryFailure(LookupError::Failed(FailureKind::Timeout)))
    );
    let v4_failed =
        google().authoritive_resolver(Ok(vec![9]), Err(LookupError::Failed(FailureKind::Refused)));
    assert_eq!(
        v4_failed.err(),
        Some(Error::DiscoveryFailure(LookupError::Failed(FailureKind::Refused)))
    );
}

#[test]
fn one_unresolved_nameserver_fails_discovery() {
    let first = Error::DiscoveryFailure(LookupError::Failed(FailureKind::Transport));
    let second = Error::DiscoveryFailure(LookupError::Failed(FailureKind::Timeout));
    let resolved = vec![
        Ok(AuthoritiveResolver::new(vec![Address::V6(1)])),
        Err(first),
        Ok(AuthoritiveResolver::new(vec![Address::V6(2)])),
        Err(second),
    ];
    assert_eq!(google().authoritive_resolvers(resolved).err(), Some(first));
}

#[test]
fn resolved_nameservers_keep_their_order() {
    let resolved = vec![
        Ok(AuthoritiveResolver::new(vec![Address::V6(1), Address::V4(1)])),
        Ok(AuthoritiveResolver::new(vec![Address::V6(2)])),
        Ok(AuthoritiveResolver::new(vec![])),
    ];
    let endpoints = google().authoritive_resolvers(resolved).unwrap();
    let lists: Vec<Vec<Address>> = endpoints.iter().map(|e| e.addresses().clone()).collect();
    assert_eq!(
        lists,
        vec![vec![Address::V6(1), Address::V4(1)], vec![Address::V6(2)], vec![]]
    );
    assert!(google().authoritive_resolvers(vec![]).unwrap().is_empty());
}
