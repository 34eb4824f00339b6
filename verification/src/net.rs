//! Network addresses and their textual forms.

use vstd::prelude::*;

use crate::numeral::{
    all_digits, decimal, digit_value, digits_value, lemma_numeral, lemma_numeral_plain, numeral,
    push_decimal, read_unsigned,
};
use crate::text::{chars_of, has_prefix, push_text, slice_of, split_at_first, split_once, starts_with};

verus! {

/// An IPv4 address, as the number its four octets make, most significant first.
#[derive(Clone, Copy, Debug, PartialEq, Eq, Structural)]
pub struct Ipv4Address {
    pub bits: u32,
}

/// A six-octet hardware address.
#[derive(Clone, Copy, Debug, PartialEq, Eq)]
pub struct MacAddress {
    pub octets: [u8; 6],
}

/// The octet of an address at a position, counted from the most significant.
pub open spec fn octet(bits: nat, position: int) -> nat {
    if position == 0 {
        bits / 0x100_0000
    } else if position == 1 {
        bits / 0x1_0000 % 0x100
    } else if position == 2 {
        bits / 0x100 % 0x100
    } else {
        bits % 0x100
    }
}

/// The dotted-decimal text of an address.
pub open spec fn ipv4_text(bits: nat) -> Seq<char> {
    decimal(octet(bits, 0)) + seq!['.'] + decimal(octet(bits, 1)) + seq!['.'] + decimal(
        octet(bits, 2),
    ) + seq!['.'] + decimal(octet(bits, 3))
}

/// An octet in dotted-decimal text: one to three digits, no leading zero, and a
/// value below 256.
pub open spec fn octet_of(s: Seq<char>) -> Option<nat> {
    if 1 <= s.len() <= 3 && all_digits(s, 10) && (s.len() > 1 ==> s[0] != '0') && digits_value(
        s,
        10,
    ) <= 255 {
        Some(digits_value(s, 10))
    } else {
        None
    }
}

/// The address that a dotted-decimal text spells.
pub open spec fn ipv4_of(s: Seq<char>) -> Option<nat> {
    match split_at_first(s, '.') {
        None => None,
        Some((a, r)) => match split_at_first(r, '.') {
            None => None,
            Some((b, r)) => match split_at_first(r, '.') {
                None => None,
                Some((c, d)) => match (octet_of(a), octet_of(b), octet_of(c), octet_of(d)) {
                    (Some(a), Some(b), Some(c), Some(d)) => Some(
                        a * 0x100_0000 + b * 0x1_0000 + c * 0x100 + d,
                    ),
                    _ => None,
                },
            },
        },
    }
}

fn read_octet(s: &str) -> (r: Option<u8>)
    ensures
        match r {
            Some(v) => octet_of(s@) == Some(v as nat),
            None => octet_of(s@) is None,
        },
{
    let chars = chars_of(s);
    if chars.len() == 0 || chars.len() > 3 {
        return None;
    }
    if chars[0] == '+' {
        proof {
            assert(digit_value(s@[0]) is None);
        }
        return None;
    }
    if chars.len() > 1 && chars[0] == '0' {
        return None;
    }
    match read_unsigned(s, 10, 255) {
        Some(v) => Some(v as u8),
        None => None,
    }
}

impl Ipv4Address {
    /// Reads an address in dotted-decimal notation.
    pub fn parse(s: &str) -> (r: Option<Ipv4Address>)
        ensures
            match r {
                Some(address) => ipv4_of(s@) == Some(address.bits as nat),
                None => ipv4_of(s@) is None,
            },
    {
        match split_once(s, '.') {
            None => None,
            Some((a, r)) => match split_once(r.as_str(), '.') {
                None => None,
                Some((b, r)) => match split_once(r.as_str(), '.') {
                    None => None,
                    Some((c, d)) => {
                        let a: u8 = match read_octet(a.as_str()) {
                            Some(v) => v,
                            None => return None,
                        };
                        let b: u8 = match read_octet(b.as_str()) {
                            Some(v) => v,
                            None => return None,
                        };
                        let c: u8 = match read_octet(c.as_str()) {
                            Some(v) => v,
                            None => return None,
                        };
                        let d: u8 = match read_octet(d.as_str()) {
                            Some(v) => v,
                            None => return None,
                        };
                        Some(
                            Ipv4Address {
                                bits: (a as u32) * 0x100_0000 + (b as u32) * 0x1_0000 + (c as u32)
                                    * 0x100 + (d as u32),
                            },
                        )
                    },
                },
            },
        }
    }

    /// Appends the address in dotted-decimal notation.
    pub fn push_to(&self, out: &mut String)
        ensures
            final(out)@ == old(out)@ + ipv4_text(self.bits as nat),
    {
        push_decimal(out, (self.bits / 0x100_0000) as u128);
        out.push('.');
        push_decimal(out, (self.bits / 0x1_0000 % 0x100) as u128);
        out.push('.');
        push_decimal(out, (self.bits / 0x100 % 0x100) as u128);
        out.push('.');
        push_decimal(out, (self.bits % 0x100) as u128);
        assert(out@ =~= old(out)@ + ipv4_text(self.bits as nat));
    }

    /// The address in dotted-decimal notation.
    pub fn to_text(&self) -> (s: String)
        ensures
            s@ == ipv4_text(self.bits as nat),
    {
        let mut s = String::new();
        self.push_to(&mut s);
        assert(s@ =~= ipv4_text(self.bits as nat));
        s
    }

    /// The address lies in the loopback block `127.0.0.0/8`.
    pub open spec fn loopback(self) -> bool {
        octet(self.bits as nat, 0) == 127
    }

    pub fn is_loopback(&self) -> (b: bool)
        ensures
            b == self.loopback(),
    {
        self.bits / 0x100_0000 == 127
    }
}

/// The numeral of an octet is a well-formed octet.
proof fn lemma_octet_text(v: nat)
    requires
        v <= 255,
    ensures
        octet_of(decimal(v)) == Some(v),
        !decimal(v).contains('.'),
{
    lemma_numeral(v, 10);
    lemma_numeral_plain(v, 10);
    reveal_with_fuel(numeral, 4);
    if v < 10 {
        assert(decimal(v).len() == 1);
    } else if v < 100 {
        assert(decimal(v).len() == 2);
    } else {
        assert(decimal(v).len() == 3);
    }
}

/// A text without the separator, then the separator, splits there.
pub proof fn lemma_split_head(head: Seq<char>, c: char, tail: Seq<char>)
    requires
        !head.contains(c),
    ensures
        split_at_first(head + seq![c] + tail, c) == Some((head, tail)),
{
    let s = head + seq![c] + tail;
    assert(s[head.len() as int] == c);
    assert(s.contains(c));
    s.index_of_first_ensures(c);
    let at = s.index_of_first(c)->0;
    if at < head.len() {
        assert(s[at] == head[at]);
        assert(head.contains(c));
    }
    assert(at == head.len());
    assert(s.take(at) =~= head);
    assert(s.skip(at + 1) =~= tail);
}

/// The octets make up the address.
proof fn lemma_octets(bits: nat)
    requires
        bits <= u32::MAX,
    ensures
        octet(bits, 0) <= 255,
        octet(bits, 1) <= 255,
        octet(bits, 2) <= 255,
        octet(bits, 3) <= 255,
        octet(bits, 0) * 0x100_0000 + octet(bits, 1) * 0x1_0000 + octet(bits, 2) * 0x100 + octet(
            bits,
            3,
        ) == bits,
{
}

/// The textual form of an address spells that address.
pub proof fn law_ipv4_text_reads_back(bits: nat)
    requires
        bits <= u32::MAX,
    ensures
        ipv4_of(ipv4_text(bits)) == Some(bits),
{
    lemma_octets(bits);
    lemma_dotted(octet(bits, 0), octet(bits, 1), octet(bits, 2), octet(bits, 3));
}

/// Four octets with dots between them spell the address they make.
pub proof fn lemma_dotted(w: nat, x: nat, y: nat, z: nat)
    requires
        w <= 255,
        x <= 255,
        y <= 255,
        z <= 255,
    ensures
        ipv4_of(
            decimal(w) + seq!['.'] + decimal(x) + seq!['.'] + decimal(y) + seq!['.'] + decimal(z),
        ) == Some(w * 0x100_0000 + x * 0x1_0000 + y * 0x100 + z),
{
    let a = decimal(w);
    let b = decimal(x);
    let c = decimal(y);
    let d = decimal(z);
    lemma_octet_text(w);
    lemma_octet_text(x);
    lemma_octet_text(y);
    lemma_octet_text(z);
    let cd = c + seq!['.'] + d;
    let bcd = b + seq!['.'] + cd;
    assert(a + seq!['.'] + b + seq!['.'] + c + seq!['.'] + d =~= a + seq!['.'] + bcd);
    lemma_split_head(a, '.', bcd);
    lemma_split_head(b, '.', cd);
    lemma_split_head(c, '.', d);
}

/// A TCP endpoint. An IPv6 one is known by the text, port, and kind that the
/// host's own address type gives it.
#[derive(Debug)]
pub enum SocketAddress {
    V4 { ip: Ipv4Address, port: u16 },
    V6 { text: String, port: u16, loopback: bool },
}

/// The mathematical value of a [`SocketAddress`].
pub enum Endpoint {
    V4 { ip: nat, port: nat },
    V6 { text: Seq<char>, port: nat, loopback: bool },
}

impl View for SocketAddress {
    type V = Endpoint;

    open spec fn view(&self) -> Endpoint {
        match self {
            SocketAddress::V4 { ip, port } => Endpoint::V4 {
                ip: ip.bits as nat,
                port: *port as nat,
            },
            SocketAddress::V6 { text, port, loopback } => Endpoint::V6 {
                text: text@,
                port: *port as nat,
                loopback: *loopback,
            },
        }
    }
}

impl Endpoint {
    pub open spec fn port(self) -> nat {
        match self {
            Endpoint::V4 { port, .. } => port,
            Endpoint::V6 { port, .. } => port,
        }
    }

    pub open spec fn loopback(self) -> bool {
        match self {
            Endpoint::V4 { ip, .. } => octet(ip, 0) == 127,
            Endpoint::V6 { loopback, .. } => loopback,
        }
    }

    /// The text of the endpoint.
    pub open spec fn text(self) -> Seq<char> {
        match self {
            Endpoint::V4 { ip, port } => ipv4_text(ip) + seq![':'] + decimal(port),
            Endpoint::V6 { text, .. } => text,
        }
    }
}

/// A number in text: digits only, leading zeros allowed.
pub open spec fn plain_number(s: Seq<char>, max: nat) -> Option<nat> {
    if s.len() > 0 && all_digits(s, 10) && digits_value(s, 10) <= max {
        Some(digits_value(s, 10))
    } else {
        None
    }
}

/// A port in text.
pub open spec fn port_of(s: Seq<char>) -> Option<nat> {
    plain_number(s, 65535)
}

fn read_plain_number(s: &str, max: u64) -> (r: Option<u64>)
    ensures
        match r {
            Some(v) => plain_number(s@, max as nat) == Some(v as nat),
            None => plain_number(s@, max as nat) is None,
        },
{
    let digits = chars_of(s);
    if digits.len() == 0 || digits[0] == '+' {
        proof {
            if s@.len() > 0 {
                assert(digit_value(s@[0]) is None);
            }
        }
        return None;
    }
    read_unsigned(s, 10, max)
}

/// The text of an endpoint on the IPv6 loopback address, which names its scope
/// where it has one.
pub open spec fn loopback_text(scope: nat, port: nat) -> Seq<char> {
    "[::1"@ + (if scope == 0 {
        Seq::empty()
    } else {
        seq!['%'] + decimal(scope)
    }) + "]:"@ + decimal(port)
}

/// The endpoint on the IPv6 loopback address with a scope and a port.
pub open spec fn loopback_endpoint(scope: nat, port: nat) -> Endpoint {
    Endpoint::V6 { text: loopback_text(scope, port), port, loopback: true }
}

/// The scope that stands behind an address: none, or a number behind `%`.
pub open spec fn scope_of(s: Seq<char>) -> Option<nat> {
    if s.len() == 0 {
        Some(0)
    } else if s[0] == '%' {
        plain_number(s.skip(1), u32::MAX as nat)
    } else {
        None
    }
}

/// The endpoint on the IPv6 loopback address that a text spells with `::1`.
pub open spec fn socket_loopback_of(s: Seq<char>) -> Option<Endpoint> {
    if !has_prefix(s, "[::1"@) {
        None
    } else {
        match split_at_first(s.skip(4), ']') {
            None => None,
            Some((scope, rest)) => if rest.len() == 0 || rest[0] != ':' {
                None
            } else {
                match (scope_of(scope), port_of(rest.skip(1))) {
                    (Some(scope), Some(port)) => Some(loopback_endpoint(scope, port)),
                    _ => None,
                }
            },
        }
    }
}

/// The endpoint is one that an address type can hold: its numbers are in range, and
/// on the IPv6 loopback address its text says so.
pub open spec fn is_endpoint(e: Endpoint) -> bool {
    match e {
        Endpoint::V4 { ip, port } => ip <= u32::MAX && port <= 65535,
        Endpoint::V6 { text, port, loopback } => port <= 65535 && (loopback ==> exists|scope: nat|
            scope <= u32::MAX && text == #[trigger] loopback_text(scope, port)),
    }
}

/// The IPv4 endpoint that a text spells.
pub open spec fn socket_v4_of(s: Seq<char>) -> Option<Endpoint> {
    match split_at_first(s, ':') {
        None => None,
        Some((ip, port)) => match (ipv4_of(ip), port_of(port)) {
            (Some(ip), Some(port)) => Some(Endpoint::V4 { ip, port }),
            _ => None,
        },
    }
}

impl SocketAddress {
    /// Reads an IPv4 endpoint.
    pub fn parse_v4(s: &str) -> (r: Option<SocketAddress>)
        ensures
            match r {
                Some(address) => socket_v4_of(s@) == Some(address@),
                None => socket_v4_of(s@) is None,
            },
    {
        match split_once(s, ':') {
            None => None,
            Some((ip, port)) => {
                let ip = match Ipv4Address::parse(ip.as_str()) {
                    Some(ip) => ip,
                    None => return None,
                };
                match read_plain_number(port.as_str(), 65535) {
                    Some(port) => Some(SocketAddress::V4 { ip, port: port as u16 }),
                    None => None,
                }
            },
        }
    }

    /// Reads an endpoint on the IPv6 loopback address, where it is spelled `::1`.
    pub fn parse_loopback(s: &str) -> (r: Option<SocketAddress>)
        ensures
            match r {
                Some(address) => socket_loopback_of(s@) == Some(address@),
                None => socket_loopback_of(s@) is None,
            },
    {
        proof {
            reveal_strlit("[::1");
        }
        if !starts_with(s, "[::1") {
            return None;
        }
        let chars = chars_of(s);
        let behind = slice_of(&chars, 4, chars.len());
        assert(behind@ =~= s@.skip(4));
        match split_once(behind.as_str(), ']') {
            None => None,
            Some((scope_text, rest)) => {
                let rest_chars = chars_of(rest.as_str());
                if rest_chars.len() == 0 || rest_chars[0] != ':' {
                    return None;
                }
                let port_text = slice_of(&rest_chars, 1, rest_chars.len());
                assert(port_text@ =~= rest@.skip(1));
                let scope_chars = chars_of(scope_text.as_str());
                let scope: u64 = if scope_chars.len() == 0 {
                    0
                } else if scope_chars[0] == '%' {
                    let digits = slice_of(&scope_chars, 1, scope_chars.len());
                    assert(digits@ =~= scope_text@.skip(1));
                    match read_plain_number(digits.as_str(), u32::MAX as u64) {
                        Some(scope) => scope,
                        None => return None,
                    }
                } else {
                    return None;
                };
                let port: u64 = match read_plain_number(port_text.as_str(), 65535) {
                    Some(port) => port,
                    None => return None,
                };
                let mut text = "[::1".to_owned();
                if scope != 0 {
                    text.push('%');
                    push_decimal(&mut text, scope as u128);
                }
                push_text(&mut text, "]:");
                push_decimal(&mut text, port as u128);
                assert(text@ =~= loopback_text(scope as nat, port as nat));
                Some(SocketAddress::V6 { text, port: port as u16, loopback: true })
            },
        }
    }

    pub fn port(&self) -> (port: u16)
        ensures
            port == self@.port(),
    {
        match self {
            SocketAddress::V4 { port, .. } => *port,
            SocketAddress::V6 { port, .. } => *port,
        }
    }

    pub fn is_loopback(&self) -> (b: bool)
        ensures
            b == self@.loopback(),
    {
        match self {
            SocketAddress::V4 { ip, .. } => ip.is_loopback(),
            SocketAddress::V6 { loopback, .. } => *loopback,
        }
    }

    pub fn to_text(&self) -> (s: String)
        ensures
            s@ == self@.text(),
    {
        match self {
            SocketAddress::V4 { ip, port } => {
                let mut s = ip.to_text();
                s.push(':');
                push_decimal(&mut s, *port as u128);
                assert(s@ =~= self@.text());
                s
            },
            SocketAddress::V6 { text, .. } => text.clone(),
        }
    }

    /// A copy of the address.
    pub fn duplicate(&self) -> (r: SocketAddress)
        ensures
            r@ == self@,
    {
        match self {
            SocketAddress::V4 { ip, port } => SocketAddress::V4 { ip: *ip, port: *port },
            SocketAddress::V6 { text, port, loopback } => SocketAddress::V6 {
                text: text.clone(),
                port: *port,
                loopback: *loopback,
            },
        }
    }
}

proof fn lemma_ipv4_text_plain(bits: nat, c: char)
    requires
        c == ':' || c == '/',
    ensures
        !ipv4_text(bits).contains(c),
{
    lemma_numeral_plain(octet(bits, 0), 10);
    lemma_numeral_plain(octet(bits, 1), 10);
    lemma_numeral_plain(octet(bits, 2), 10);
    lemma_numeral_plain(octet(bits, 3), 10);
    let text = ipv4_text(bits);
    let a = decimal(octet(bits, 0));
    let b = decimal(octet(bits, 1));
    let e = decimal(octet(bits, 2));
    let d = decimal(octet(bits, 3));
    if text.contains(c) {
        let i = choose|i: int| 0 <= i < text.len() && text[i] == c;
        let n1 = a.len() as int;
        let n2 = n1 + 1 + b.len();
        let n3 = n2 + 1 + e.len();
        if i < n1 {
            assert(text[i] == a[i]);
        } else if n1 < i < n2 {
            assert(text[i] == b[i - n1 - 1]);
        } else if n2 < i < n3 {
            assert(text[i] == e[i - n2 - 1]);
        } else if i > n3 {
            assert(text[i] == d[i - n3 - 1]);
        }
    }
}

/// The text of an IPv4 endpoint spells that endpoint.
pub proof fn law_socket_text_reads_back(ip: nat, port: nat)
    requires
        ip <= u32::MAX,
        port <= 65535,
    ensures
        socket_v4_of((Endpoint::V4 { ip, port }).text()) == Some(Endpoint::V4 { ip, port }),
{
    law_ipv4_text_reads_back(ip);
    lemma_ipv4_text_plain(ip, ':');
    lemma_numeral(port, 10);
    lemma_split_head(ipv4_text(ip), ':', decimal(port));
}

/// The text of an endpoint on the IPv6 loopback address spells that endpoint, and no
/// IPv4 endpoint.
pub proof fn law_loopback_text_reads_back(scope: nat, port: nat)
    requires
        scope <= u32::MAX,
        port <= 65535,
    ensures
        socket_loopback_of(loopback_text(scope, port)) == Some(loopback_endpoint(scope, port)),
        socket_v4_of(loopback_text(scope, port)) is None,
{
    reveal_strlit("[::1");
    reveal_strlit("]:");
    let text = loopback_text(scope, port);
    let named = if scope == 0 {
        Seq::empty()
    } else {
        seq!['%'] + decimal(scope)
    };
    lemma_numeral(scope, 10);
    lemma_numeral(port, 10);
    assert(text.take(4) =~= "[::1"@);
    assert(text.skip(4) =~= named + seq![']'] + (seq![':'] + decimal(port)));
    assert(!named.contains(']')) by {
        assert forall|i: int| 0 <= i < named.len() implies named[i] != ']' by {
            if i > 0 {
                assert(named[i] == decimal(scope)[i - 1]);
                assert(digit_value(decimal(scope)[i - 1]) is Some);
            }
        }
    }
    lemma_split_head(named, ']', seq![':'] + decimal(port));
    assert((seq![':'] + decimal(port)).skip(1) =~= decimal(port));
    if scope != 0 {
        assert(named.skip(1) =~= decimal(scope));
    }
    // The part before the first colon is no IPv4 address.
    let tail = text.skip(2);
    assert(text =~= seq!['['] + seq![':'] + tail);
    assert(!seq!['['].contains(':'));
    lemma_split_head(seq!['['], ':', tail);
    assert(!seq!['['].contains('.'));
}

/// The text of an IPv4 address holds no slash.
pub proof fn lemma_ipv4_text_no_slash(bits: nat)
    ensures
        !ipv4_text(bits).contains('/'),
{
    lemma_ipv4_text_plain(bits, '/');
}

} // verus!
