//! Static guest network identity of a microVM NIC.

use vstd::arithmetic::power2::{lemma2_to64, lemma_pow2_strictly_increases, pow2};
use vstd::bits::lemma_u64_shl_is_mul;
use vstd::prelude::*;

use crate::config::{MicrovmNetworkConfig, MicrovmNetworkProfile};
use crate::net::{
    ipv4_of, ipv4_text, law_ipv4_text_reads_back, lemma_ipv4_text_no_slash, lemma_split_head, octet,
    Ipv4Address, MacAddress,
};
use crate::numeral::{
    decimal, law_numeral_reads_back, lemma_numeral_plain, parse_unsigned, push_decimal,
    read_unsigned,
};
use crate::text::{contains_char, push_text, split_at_first, split_once};

verus! {

/// Error returned for an invalid microVM static network specification.
#[derive(Debug, PartialEq, Eq)]
pub enum InvalidMicrovmNetworkConfig {
    /// The text is not an address, a slash, and a prefix.
    InvalidFormat,
    /// The part before the slash is not an IPv4 address.
    InvalidAddress(String),
    /// The part after the slash is not a small unsigned integer.
    InvalidPrefix(String),
    /// The prefix leaves no room for a gateway and a guest.
    PrefixOutOfRange(u8),
    /// The guest address is the subnet network address.
    NetworkAddress(Ipv4Address),
    /// The guest address is the subnet broadcast address.
    BroadcastAddress(Ipv4Address),
    /// The guest address is the derived gateway.
    GatewayCollision(Ipv4Address),
}

/// The mathematical value of an [`InvalidMicrovmNetworkConfig`].
pub enum NetworkSpecFailure {
    InvalidFormat,
    InvalidAddress(Seq<char>),
    InvalidPrefix(Seq<char>),
    PrefixOutOfRange(nat),
    NetworkAddress(nat),
    BroadcastAddress(nat),
    GatewayCollision(nat),
}

impl View for InvalidMicrovmNetworkConfig {
    type V = NetworkSpecFailure;

    open spec fn view(&self) -> NetworkSpecFailure {
        match self {
            InvalidMicrovmNetworkConfig::InvalidFormat => NetworkSpecFailure::InvalidFormat,
            InvalidMicrovmNetworkConfig::InvalidAddress(text) =>
                NetworkSpecFailure::InvalidAddress(text@),
            InvalidMicrovmNetworkConfig::InvalidPrefix(text) => NetworkSpecFailure::InvalidPrefix(
                text@,
            ),
            InvalidMicrovmNetworkConfig::PrefixOutOfRange(prefix) =>
                NetworkSpecFailure::PrefixOutOfRange(*prefix as nat),
            InvalidMicrovmNetworkConfig::NetworkAddress(address) =>
                NetworkSpecFailure::NetworkAddress(address.bits as nat),
            InvalidMicrovmNetworkConfig::BroadcastAddress(address) =>
                NetworkSpecFailure::BroadcastAddress(address.bits as nat),
            InvalidMicrovmNetworkConfig::GatewayCollision(address) =>
                NetworkSpecFailure::GatewayCollision(address.bits as nat),
        }
    }
}

impl InvalidMicrovmNetworkConfig {
    /// The diagnostic text of the error.
    pub open spec fn text(self) -> Seq<char> {
        match self {
            InvalidMicrovmNetworkConfig::InvalidFormat =>
                "expected <IPv4>/<prefix>, for example 10.0.0.2/24"@,
            InvalidMicrovmNetworkConfig::InvalidAddress(text) => "invalid IPv4 address '"@ + text@
                + "'"@,
            InvalidMicrovmNetworkConfig::InvalidPrefix(text) => "invalid IPv4 prefix '"@ + text@
                + "'"@,
            InvalidMicrovmNetworkConfig::PrefixOutOfRange(prefix) => "IPv4 prefix /"@ + decimal(
                prefix as nat,
            ) + " is outside the supported range /1 through /30"@,
            InvalidMicrovmNetworkConfig::NetworkAddress(address) => "guest IPv4 address "@
                + ipv4_text(address.bits as nat) + " is the subnet network address"@,
            InvalidMicrovmNetworkConfig::BroadcastAddress(address) => "guest IPv4 address "@
                + ipv4_text(address.bits as nat) + " is the subnet broadcast address"@,
            InvalidMicrovmNetworkConfig::GatewayCollision(address) => "guest IPv4 address "@
                + ipv4_text(address.bits as nat) + " collides with the derived gateway"@,
        }
    }

    pub fn message(&self) -> (s: String)
        ensures
            s@ == self.text(),
    {
        let mut s = String::new();
        match self {
            InvalidMicrovmNetworkConfig::InvalidFormat => {
                push_text(&mut s, "expected <IPv4>/<prefix>, for example 10.0.0.2/24");
            },
            InvalidMicrovmNetworkConfig::InvalidAddress(text) => {
                push_text(&mut s, "invalid IPv4 address '");
                push_text(&mut s, text.as_str());
                push_text(&mut s, "'");
            },
            InvalidMicrovmNetworkConfig::InvalidPrefix(text) => {
                push_text(&mut s, "invalid IPv4 prefix '");
                push_text(&mut s, text.as_str());
                push_text(&mut s, "'");
            },
            InvalidMicrovmNetworkConfig::PrefixOutOfRange(prefix) => {
                push_text(&mut s, "IPv4 prefix /");
                push_decimal(&mut s, *prefix as u128);
                push_text(&mut s, " is outside the supported range /1 through /30");
            },
            InvalidMicrovmNetworkConfig::NetworkAddress(address) => {
                push_text(&mut s, "guest IPv4 address ");
                address.push_to(&mut s);
                push_text(&mut s, " is the subnet network address");
            },
            InvalidMicrovmNetworkConfig::BroadcastAddress(address) => {
                push_text(&mut s, "guest IPv4 address ");
                address.push_to(&mut s);
                push_text(&mut s, " is the subnet broadcast address");
            },
            InvalidMicrovmNetworkConfig::GatewayCollision(address) => {
                push_text(&mut s, "guest IPv4 address ");
                address.push_to(&mut s);
                push_text(&mut s, " collides with the derived gateway");
            },
        }
        assert(s@ =~= self.text());
        s
    }
}

impl MicrovmNetworkProfile {
    /// The stable command-line and snapshot spelling of this profile.
    pub open spec fn spelling(self) -> Seq<char> {
        match self {
            MicrovmNetworkProfile::Portable => "portable"@,
        }
    }

    /// Returns the stable command-line and snapshot spelling of this profile.
    pub fn as_str(self) -> (s: &'static str)
        ensures
            s@ == self.spelling(),
    {
        match self {
            MicrovmNetworkProfile::Portable => "portable",
        }
    }
}

/// The number of addresses in a subnet with this prefix length.
pub open spec fn subnet_size(prefix: nat) -> nat {
    pow2((32 - prefix) as nat)
}

/// The first address of the subnet that holds `address`.
pub open spec fn network_of(address: nat, prefix: nat) -> nat {
    (address - address % subnet_size(prefix)) as nat
}

/// The hardware address derived from an IPv4 address.
pub open spec fn derived_mac(address: nat) -> Seq<u8> {
    seq![
        0x52u8,
        0x54u8,
        0x00u8,
        octet(address, 1) as u8,
        octet(address, 2) as u8,
        octet(address, 3) as u8,
    ]
}

/// A guest address that is usable in its subnet: not the network address, not
/// the broadcast address, and not the gateway, which is the first host.
pub open spec fn usable_guest(address: nat, prefix: nat) -> bool {
    let host = address % subnet_size(prefix);
    host != 0 && host != 1 && host != subnet_size(prefix) - 1
}

/// Whether a text specifies a network identity, and why not.
pub open spec fn network_spec_failure(spec: Seq<char>) -> Option<NetworkSpecFailure> {
    match split_at_first(spec, '/') {
        None => Some(NetworkSpecFailure::InvalidFormat),
        Some((address, prefix)) => if prefix.contains('/') {
            Some(NetworkSpecFailure::InvalidFormat)
        } else {
            match (ipv4_of(address), parse_unsigned(prefix, 10, 255)) {
                (None, _) => Some(NetworkSpecFailure::InvalidAddress(address)),
                (Some(_), None) => Some(NetworkSpecFailure::InvalidPrefix(prefix)),
                (Some(guest), Some(length)) => if length < 1 || length > 30 {
                    Some(NetworkSpecFailure::PrefixOutOfRange(length))
                } else if guest % subnet_size(length) == 0 {
                    Some(NetworkSpecFailure::NetworkAddress(guest))
                } else if guest % subnet_size(length) == subnet_size(length) - 1 {
                    Some(NetworkSpecFailure::BroadcastAddress(guest))
                } else if guest % subnet_size(length) == 1 {
                    Some(NetworkSpecFailure::GatewayCollision(guest))
                } else {
                    None
                },
            }
        },
    }
}

/// The address and prefix length that a valid specification names.
pub open spec fn network_spec_parts(spec: Seq<char>) -> (nat, nat) {
    let parts = split_at_first(spec, '/')->0;
    (ipv4_of(parts.0)->0, parse_unsigned(parts.1, 10, 255)->0)
}

proof fn lemma_subnet_size(prefix: nat)
    requires
        1 <= prefix <= 32,
    ensures
        1 <= subnet_size(prefix) <= 0x8000_0000,
        prefix <= 30 ==> subnet_size(prefix) >= 4,
        0x1_0000_0000nat % subnet_size(prefix) == 0,
{
    lemma2_to64();
    let n = (32 - prefix) as nat;
    vstd::arithmetic::power2::lemma_pow2_pos(n);
    if n < 31 {
        lemma_pow2_strictly_increases(n, 31);
    }
    if n > 2 {
        lemma_pow2_strictly_increases(2, n);
    }
    vstd::arithmetic::power2::lemma_pow2_adds(n, prefix);
    let a = pow2(n) as int;
    let b = pow2(prefix) as int;
    assert(a * b == 0x1_0000_0000);
    vstd::arithmetic::div_mod::lemma_mod_multiples_basic(b, a);
    vstd::arithmetic::mul::lemma_mul_is_commutative(a, b);
}

/// A host part below the subnet size stays in the subnet and in 32 bits.
proof fn lemma_subnet_bounds(address: nat, prefix: nat)
    requires
        1 <= prefix <= 32,
        address <= u32::MAX,
    ensures
        network_of(address, prefix) <= address,
        network_of(address, prefix) + subnet_size(prefix) <= 0x1_0000_0000,
{
    lemma_subnet_size(prefix);
    let size = subnet_size(prefix) as int;
    let q = address as int / size;
    let total = 0x1_0000_0000int / size;
    vstd::arithmetic::div_mod::lemma_fundamental_div_mod(address as int, size);
    vstd::arithmetic::div_mod::lemma_fundamental_div_mod(0x1_0000_0000, size);
    assert(network_of(address, prefix) == size * q);
    assert(size * total == 0x1_0000_0000);
    assert(q < total) by (nonlinear_arith)
        requires
            size * q <= address,
            address < size * total,
            size > 0,
            address >= 0,
    ;
    assert(size * q + size <= size * total) by (nonlinear_arith)
        requires
            q + 1 <= total,
            size > 0,
    ;
}

fn exec_subnet_size(prefix: u8) -> (size: u64)
    requires
        1 <= prefix <= 32,
    ensures
        size == subnet_size(prefix as nat),
{
    let shift: u64 = (32 - prefix) as u64;
    proof {
        lemma_subnet_size(prefix as nat);
        lemma_u64_shl_is_mul(1u64, shift);
    }
    1u64 << shift
}

impl MicrovmNetworkConfig {
    /// The identity is consistent: every field follows from the guest address
    /// and the prefix length, and the guest address is usable in its subnet.
    pub open spec fn wf(self) -> bool {
        let guest = self.guest_ipv4.bits as nat;
        let prefix = self.prefix_length as nat;
        &&& 1 <= prefix <= 30
        &&& usable_guest(guest, prefix)
        &&& self.derived_gateway_ipv4.bits == network_of(guest, prefix) + 1
        &&& self.guest_mac.octets@ == derived_mac(guest)
        &&& self.gateway_mac.octets@ == derived_mac(self.derived_gateway_ipv4.bits as nat)
    }

    /// Returns the subnet mask derived from `prefix_length`.
    pub fn netmask(&self) -> (mask: Ipv4Address)
        requires
            1 <= self.prefix_length <= 32,
        ensures
            mask.bits == 0x1_0000_0000 - subnet_size(self.prefix_length as nat),
    {
        proof {
            lemma_subnet_size(self.prefix_length as nat);
        }
        let size: u64 = exec_subnet_size(self.prefix_length);
        Ipv4Address { bits: (0x1_0000_0000u64 - size) as u32 }
    }

    /// The guest-bootstrap command-line tokens, with the gateway as name server
    /// where it serves names.
    pub open spec fn fragment(self, gateway_dns: bool) -> Seq<char> {
        let mask = (0x1_0000_0000 - subnet_size(self.prefix_length as nat)) as nat;
        let gateway = ipv4_text(self.derived_gateway_ipv4.bits as nat);
        "virtnet_ip="@ + ipv4_text(self.guest_ipv4.bits as nat) + " virtnet_mask="@ + ipv4_text(
            mask,
        ) + " virtnet_gw="@ + gateway + if gateway_dns {
            " virtnet_dns="@ + gateway
        } else {
            Seq::empty()
        }
    }

    /// Returns the pinned guest-bootstrap command-line tokens.
    pub fn command_line_fragment(&self) -> (s: String)
        requires
            1 <= self.prefix_length <= 32,
        ensures
            s@ == self.fragment(false),
    {
        self.command_line_fragment_with_dns(false)
    }

    /// Returns the pinned bootstrap tokens, optionally including gateway DNS.
    pub fn command_line_fragment_with_dns(&self, gateway_dns: bool) -> (s: String)
        requires
            1 <= self.prefix_length <= 32,
        ensures
            s@ == self.fragment(gateway_dns),
    {
        let mut s = String::new();
        push_text(&mut s, "virtnet_ip=");
        self.guest_ipv4.push_to(&mut s);
        push_text(&mut s, " virtnet_mask=");
        self.netmask().push_to(&mut s);
        push_text(&mut s, " virtnet_gw=");
        self.derived_gateway_ipv4.push_to(&mut s);
        if gateway_dns {
            push_text(&mut s, " virtnet_dns=");
            self.derived_gateway_ipv4.push_to(&mut s);
        }
        assert(s@ =~= self.fragment(gateway_dns));
        s
    }

    fn derive_mac(address: Ipv4Address) -> (mac: MacAddress)
        ensures
            mac.octets@ == derived_mac(address.bits as nat),
    {
        let second: u8 = (address.bits / 0x1_0000 % 0x100) as u8;
        let third: u8 = (address.bits / 0x100 % 0x100) as u8;
        let fourth: u8 = (address.bits % 0x100) as u8;
        let octets: [u8; 6] = [0x52, 0x54, 0x00, second, third, fourth];
        assert(octets@ =~= derived_mac(address.bits as nat));
        MacAddress { octets }
    }

    /// Reads a network identity from `<IPv4>/<prefix>`.
    pub fn from_str(spec: &str) -> (r: Result<MicrovmNetworkConfig, InvalidMicrovmNetworkConfig>)
        ensures
            match r {
                Ok(config) => {
                    &&& network_spec_failure(spec@) is None
                    &&& config.wf()
                    &&& (config.guest_ipv4.bits as nat, config.prefix_length as nat)
                        == network_spec_parts(spec@)
                    &&& config.profile == MicrovmNetworkProfile::Portable
                },
                Err(e) => network_spec_failure(spec@) == Some(e@),
            },
    {
        let (address, prefix) = match split_once(spec, '/') {
            Some(parts) => parts,
            None => return Err(InvalidMicrovmNetworkConfig::InvalidFormat),
        };
        if contains_char(prefix.as_str(), '/') {
            return Err(InvalidMicrovmNetworkConfig::InvalidFormat);
        }
        let guest_ipv4 = match Ipv4Address::parse(address.as_str()) {
            Some(guest) => guest,
            None => return Err(InvalidMicrovmNetworkConfig::InvalidAddress(address)),
        };
        let prefix_length: u8 = match read_unsigned(prefix.as_str(), 10, 255) {
            Some(length) => length as u8,
            None => return Err(InvalidMicrovmNetworkConfig::InvalidPrefix(prefix)),
        };
        if prefix_length < 1 || prefix_length > 30 {
            return Err(InvalidMicrovmNetworkConfig::PrefixOutOfRange(prefix_length));
        }
        proof {
            lemma_subnet_size(prefix_length as nat);
            lemma_subnet_bounds(guest_ipv4.bits as nat, prefix_length as nat);
            vstd::arithmetic::div_mod::lemma_mod_decreases(
                guest_ipv4.bits as nat,
                subnet_size(prefix_length as nat),
            );
        }
        let size: u64 = exec_subnet_size(prefix_length);
        let host: u64 = guest_ipv4.bits as u64 % size;
        if host == 0 {
            return Err(InvalidMicrovmNetworkConfig::NetworkAddress(guest_ipv4));
        }
        if host == size - 1 {
            return Err(InvalidMicrovmNetworkConfig::BroadcastAddress(guest_ipv4));
        }
        let derived_gateway_ipv4 = Ipv4Address {
            bits: ((guest_ipv4.bits as u64 - host) + 1) as u32,
        };
        if host == 1 {
            return Err(InvalidMicrovmNetworkConfig::GatewayCollision(guest_ipv4));
        }
        Ok(
            MicrovmNetworkConfig {
                profile: MicrovmNetworkProfile::Portable,
                guest_ipv4,
                prefix_length,
                derived_gateway_ipv4,
                guest_mac: Self::derive_mac(guest_ipv4),
                gateway_mac: Self::derive_mac(derived_gateway_ipv4),
            },
        )
    }
}

/// The text of an address and a prefix length.
pub open spec fn network_spec_text(guest: nat, prefix: nat) -> Seq<char> {
    ipv4_text(guest) + seq!['/'] + decimal(prefix)
}

/// What the text of an address and a prefix length spells.
pub proof fn lemma_network_spec_text(guest: nat, prefix: nat)
    requires
        guest <= u32::MAX,
        prefix <= 255,
    ensures
        network_spec_parts(network_spec_text(guest, prefix)) == (guest, prefix),
        network_spec_failure(network_spec_text(guest, prefix)) is None <==> 1 <= prefix <= 30
            && usable_guest(guest, prefix),
{
    law_ipv4_text_reads_back(guest);
    law_numeral_reads_back(prefix, 10, 255);
    lemma_numeral_plain(prefix, 10);
    lemma_ipv4_text_no_slash(guest);
    lemma_split_head(ipv4_text(guest), '/', decimal(prefix));
}

/// Writing a consistent identity as `<IPv4>/<prefix>` and reading it back gives
/// the same address and prefix, which determine every other field.
pub proof fn law_network_identity_round_trips(config: MicrovmNetworkConfig)
    requires
        config.wf(),
    ensures
        ({
            let spec = network_spec_text(
                config.guest_ipv4.bits as nat,
                config.prefix_length as nat,
            );
            &&& network_spec_failure(spec) is None
            &&& network_spec_parts(spec) == (
                config.guest_ipv4.bits as nat,
                config.prefix_length as nat,
            )
        }),
{
    lemma_network_spec_text(config.guest_ipv4.bits as nat, config.prefix_length as nat);
}

/// The gateway shares the guest's subnet, is a host address of it, and is not
/// the guest.
pub proof fn law_gateway_is_a_neighbour(config: MicrovmNetworkConfig)
    requires
        config.wf(),
    ensures
        ({
            let guest = config.guest_ipv4.bits as nat;
            let gateway = config.derived_gateway_ipv4.bits as nat;
            let prefix = config.prefix_length as nat;
            &&& network_of(gateway, prefix) == network_of(guest, prefix)
            &&& gateway != guest
            &&& network_of(guest, prefix) < gateway < network_of(guest, prefix) + subnet_size(
                prefix,
            ) - 1
            &&& network_of(guest, prefix) < guest < network_of(guest, prefix) + subnet_size(prefix)
                - 1
        }),
{
    let guest = config.guest_ipv4.bits as nat;
    let prefix = config.prefix_length as nat;
    let size = subnet_size(prefix) as int;
    lemma_subnet_size(prefix);
    vstd::arithmetic::div_mod::lemma_fundamental_div_mod(guest as int, size);
    let q = guest as int / size;
    assert(network_of(guest, prefix) == size * q);
    vstd::arithmetic::div_mod::lemma_mod_multiples_vanish(q, 1, size);
    assert((size * q + 1) % size == 1int % size);
    vstd::arithmetic::div_mod::lemma_small_mod(1, size as nat);
    vstd::arithmetic::div_mod::lemma_mod_bound(guest as int, size);
}

} // verus!
