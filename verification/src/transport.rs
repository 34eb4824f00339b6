//! Which protocol a management connection speaks.

use vstd::prelude::*;

use crate::numeral::{fixed_hex, push_fixed_hex};
use crate::refusal::{refusal_of, refuse_naming, refuse_quoting, Refusal};

verus! {

/// The protocols a management server is asked to accept.
#[derive(Clone, Copy, Debug, PartialEq, Eq, Structural)]
pub enum RpcTransport {
    Ttrpc,
    Grpc,
    /// Told apart for each connection by the first byte of its stream.
    Auto,
}

/// The protocols a build of the server speaks.
#[derive(Clone, Copy, Debug, PartialEq, Eq, Structural)]
pub struct TransportFeatures {
    pub ttrpc: bool,
    pub grpc: bool,
    /// Descriptors are passed over Unix sockets.
    pub fd_passing: bool,
}

/// The name of a transport.
pub open spec fn transport_name(transport: RpcTransport) -> Seq<char> {
    match transport {
        RpcTransport::Ttrpc => "ttrpc"@,
        RpcTransport::Grpc => "grpc"@,
        RpcTransport::Auto => "auto"@,
    }
}

impl RpcTransport {
    /// The name of the transport, as options and messages spell it.
    pub fn name(&self) -> (s: &'static str)
        ensures
            s@ == transport_name(*self),
    {
        match self {
            RpcTransport::Ttrpc => "ttrpc",
            RpcTransport::Grpc => "grpc",
            RpcTransport::Auto => "auto",
        }
    }

    /// Ttrpc connections are permitted in this mode.
    pub open spec fn permits_ttrpc(self) -> bool {
        self != RpcTransport::Grpc
    }

    /// gRPC connections are permitted in this mode.
    pub open spec fn permits_grpc(self) -> bool {
        self != RpcTransport::Ttrpc
    }

    /// Whether ttrpc connections are permitted in this mode.
    pub fn allows_ttrpc(self) -> (b: bool)
        ensures
            b == self.permits_ttrpc(),
    {
        match self {
            RpcTransport::Ttrpc => true,
            RpcTransport::Grpc => false,
            RpcTransport::Auto => true,
        }
    }

    /// Whether gRPC connections are permitted in this mode.
    pub fn allows_grpc(self) -> (b: bool)
        ensures
            b == self.permits_grpc(),
    {
        match self {
            RpcTransport::Ttrpc => false,
            RpcTransport::Grpc => true,
            RpcTransport::Auto => true,
        }
    }
}

/// A build can serve a transport.
pub open spec fn transport_supported(
    transport: RpcTransport,
    features: TransportFeatures,
) -> bool {
    match transport {
        RpcTransport::Ttrpc => features.ttrpc,
        RpcTransport::Grpc => features.grpc,
        RpcTransport::Auto => true,
    }
}

/// Checks that this build serves the transport that was asked for.
pub fn resolve_transport(transport: RpcTransport, features: TransportFeatures) -> (r: Result<
    RpcTransport,
    Refusal,
>)
    ensures
        refusal_of(r) == (if transport_supported(transport, features) {
            None
        } else {
            Some("unsupported transport "@ + transport_name(transport))
        }),
        r is Ok ==> r->Ok_0 == transport,
{
    let supported = match transport {
        RpcTransport::Ttrpc => features.ttrpc,
        RpcTransport::Grpc => features.grpc,
        RpcTransport::Auto => true,
    };
    if supported {
        Ok(transport)
    } else {
        Err(refuse_naming("unsupported transport ", transport.name()))
    }
}

/// The protocol of one connection.
#[derive(Clone, Copy, Debug, PartialEq, Eq, Structural)]
pub enum Protocol {
    Ttrpc,
    Grpc,
    FdPassing,
}

/// The most significant byte of a ttrpc length field, which is always zero.
pub const TTRPC_FIRST_BYTE: u8 = 0x00;

/// The first letter of the preface of an HTTP/2 connection.
pub const GRPC_FIRST_BYTE: u8 = 0x50;

/// The first byte of the descriptor-passing handshake.
pub const FD_PASSING_FIRST_BYTE: u8 = 0xFD;

/// The protocol that a first byte announces, where the mode permits it.
pub open spec fn protocol_of(
    first_byte: u8,
    transport: RpcTransport,
    features: TransportFeatures,
) -> Option<Protocol> {
    if first_byte == TTRPC_FIRST_BYTE && features.ttrpc && transport.permits_ttrpc() {
        Some(Protocol::Ttrpc)
    } else if first_byte == GRPC_FIRST_BYTE && features.grpc && transport.permits_grpc() {
        Some(Protocol::Grpc)
    } else if first_byte == FD_PASSING_FIRST_BYTE && features.fd_passing {
        Some(Protocol::FdPassing)
    } else {
        None
    }
}

/// Tells the protocol of a connection from the first byte of its stream.
///
/// The mode only restricts which protocols are permitted. Descriptor passing is
/// permitted in every mode.
pub fn classify(first_byte: u8, transport: RpcTransport, features: TransportFeatures) -> (r: Result<
    Protocol,
    Refusal,
>)
    ensures
        refusal_of(r) == (if protocol_of(first_byte, transport, features) is Some {
            None
        } else {
            Some(
                "unrecognized or disallowed rpc protocol (first byte 0x"@ + fixed_hex(
                    first_byte as nat,
                    2,
                ) + ")"@,
            )
        }),
        r is Ok ==> Some(r->Ok_0) == protocol_of(first_byte, transport, features),
{
    if first_byte == TTRPC_FIRST_BYTE && features.ttrpc && transport.allows_ttrpc() {
        return Ok(Protocol::Ttrpc);
    }
    if first_byte == GRPC_FIRST_BYTE && features.grpc && transport.allows_grpc() {
        return Ok(Protocol::Grpc);
    }
    if first_byte == FD_PASSING_FIRST_BYTE && features.fd_passing {
        return Ok(Protocol::FdPassing);
    }
    let mut byte = String::new();
    push_fixed_hex(&mut byte, first_byte as u64, 2);
    assert(byte@ =~= fixed_hex(first_byte as nat, 2));
    Err(
        refuse_quoting(
            "unrecognized or disallowed rpc protocol (first byte 0x",
            byte.as_str(),
            ")",
        ),
    )
}

/// A restricted mode accepts no connection that the automatic mode tells to
/// speak another protocol, and what it accepts it tells as the automatic mode
/// does.
pub proof fn law_modes_only_restrict(
    first_byte: u8,
    transport: RpcTransport,
    features: TransportFeatures,
)
    ensures
        protocol_of(first_byte, transport, features) is Some ==> protocol_of(
            first_byte,
            transport,
            features,
        ) == protocol_of(first_byte, RpcTransport::Auto, features),
{
}

} // verus!
