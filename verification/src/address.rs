//! Server addresses and the public recursive resolvers.

use vstd::prelude::*;

verus! {

/// An IP address as its bits in network order.
#[derive(Clone, Copy, Debug, PartialEq, Eq, Structural)]
pub enum Address {
    /// An IPv4 address.
    V4(u32),
    /// An IPv6 address.
    V6(u128),
}

impl Address {
    /// Whether this is an IPv6 address.
    pub fn is_v6(&self) -> (yes: bool)
        ensures
            yes == (*self is V6),
    {
        match self {
            Address::V6(_) => true,
            Address::V4(_) => false,
        }
    }
}

/// The port on which nameservers are asked.
pub const DNS_PORT: u16 = 53;

/// `8.8.8.8`
pub const GOOGLE_V4_PRIMARY: u32 = 0x0808_0808;

/// `8.8.4.4`
pub const GOOGLE_V4_SECONDARY: u32 = 0x0808_0404;

/// `2001:4860:4860::8888`
pub const GOOGLE_V6_PRIMARY: u128 = 0x2001_4860_4860_0000_0000_0000_0000_8888;

/// `2001:4860:4860::8844`
pub const GOOGLE_V6_SECONDARY: u128 = 0x2001_4860_4860_0000_0000_0000_0000_8844;

/// `1.1.1.1`
pub const CLOUDFLARE_V4_PRIMARY: u32 = 0x0101_0101;

/// `1.0.0.1`
pub const CLOUDFLARE_V4_SECONDARY: u32 = 0x0100_0001;

/// `2606:4700:4700::1111`
pub const CLOUDFLARE_V6_PRIMARY: u128 = 0x2606_4700_4700_0000_0000_0000_0000_1111;

/// `2606:4700:4700::1001`
pub const CLOUDFLARE_V6_SECONDARY: u128 = 0x2606_4700_4700_0000_0000_0000_0000_1001;

/// `127.0.0.1`
pub const LOCALHOST_V4: u32 = 0x7f00_0001;

/// `::1`
pub const LOCALHOST_V6: u128 = 1;

/// The recursive resolvers that discovery can start from.
#[derive(Clone, Copy, Debug, PartialEq, Eq, Structural)]
pub enum ResolverType {
    /// Google public DNS.
    Google,
    /// Cloudflare public DNS.
    Cloudflare,
    /// A resolver on this host.
    Local,
}

/// The servers of each resolver type, in the order in which they are tried.
pub open spec fn spec_nameservers(kind: ResolverType) -> Seq<Address> {
    match kind {
        ResolverType::Google => seq![
            Address::V4(GOOGLE_V4_PRIMARY),
            Address::V4(GOOGLE_V4_SECONDARY),
            Address::V6(GOOGLE_V6_PRIMARY),
            Address::V6(GOOGLE_V6_SECONDARY),
        ],
        ResolverType::Cloudflare => seq![
            Address::V4(CLOUDFLARE_V4_PRIMARY),
            Address::V4(CLOUDFLARE_V4_SECONDARY),
            Address::V6(CLOUDFLARE_V6_PRIMARY),
            Address::V6(CLOUDFLARE_V6_SECONDARY),
        ],
        ResolverType::Local => seq![
            Address::V6(LOCALHOST_V6),
            Address::V4(LOCALHOST_V4),
        ],
    }
}

impl ResolverType {
    /// The addresses of the servers behind this resolver type.
    pub fn nameservers(&self) -> (servers: Vec<Address>)
        ensures
            servers@ =~= spec_nameservers(*self),
    {
        match self {
            ResolverType::Google => vec![
                Address::V4(GOOGLE_V4_PRIMARY),
                Address::V4(GOOGLE_V4_SECONDARY),
                Address::V6(GOOGLE_V6_PRIMARY),
                Address::V6(GOOGLE_V6_SECONDARY),
            ],
            ResolverType::Cloudflare => vec![
                Address::V4(CLOUDFLARE_V4_PRIMARY),
                Address::V4(CLOUDFLARE_V4_SECONDARY),
                Address::V6(CLOUDFLARE_V6_PRIMARY),
                Address::V6(CLOUDFLARE_V6_SECONDARY),
            ],
            ResolverType::Local => vec![
                Address::V6(LOCALHOST_V6),
                Address::V4(LOCALHOST_V4),
            ],
        }
    }
}

} // verus!
