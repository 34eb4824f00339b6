//! The microVM virtio-console attachment: where it leads, and how a restored
//! machine finds it again.

use vstd::prelude::*;
use vstd::utf8::encode_utf8;

use crate::bytes::{bytes_of_text, law_text_reads_back, read_text, text_of_bytes};
use crate::config::HostOs;
use crate::microvm::MICROVM_CONSOLE_RECONNECT_TIMEOUT_MS;
use crate::net::{
    is_endpoint, law_loopback_text_reads_back, law_socket_text_reads_back, loopback_text,
    socket_loopback_of, socket_v4_of, Endpoint, SocketAddress,
};
use crate::path::{parse_parent, parse_path, path_parent, path_parts, same_path};
use crate::refusal::{refusal_of, refuse, refuse_naming, refuse_quoting, string_view, Refusal};
use crate::snapshot::{find_attachment, has_device, Attachment, SnapshotAttachment, SnapshotMachineContract};
use crate::text::{byte_len, contains_char, copy_optional, has_prefix, push_text, same_text, starts_with, text_byte_len};

verus! {

pub const MICROVM_CONSOLE_STABLE_ID: &'static str = "console:microvm-virtio0";

/// Where a serial port leads. Paths are in the host's canonical form.
#[derive(Debug)]
pub enum SerialConfigCli {
    /// Nowhere.
    Disconnected,
    /// The terminal of this process.
    Console,
    /// A terminal window of its own, with the program that shows it and its title.
    NewConsole(Option<String>, Option<String>),
    /// The diagnostic stream of this process.
    Stderr,
    /// A file.
    File(String),
    /// A socket or pipe that this process listens on.
    Pipe(String),
    /// A socket or pipe that this process connects to.
    ConnectPipe(String),
    /// A TCP endpoint that this process listens on.
    Tcp(SocketAddress),
    /// A TCP endpoint that this process connects to.
    ConnectTcp(SocketAddress),
}

/// The mathematical value of a [`SerialConfigCli`].
pub enum SerialEndpoint {
    Disconnected,
    Console,
    NewConsole(Option<Seq<char>>, Option<Seq<char>>),
    Stderr,
    File(Seq<char>),
    Pipe(Seq<char>),
    ConnectPipe(Seq<char>),
    Tcp(Endpoint),
    ConnectTcp(Endpoint),
}

impl View for SerialConfigCli {
    type V = SerialEndpoint;

    open spec fn view(&self) -> SerialEndpoint {
        match self {
            SerialConfigCli::Disconnected => SerialEndpoint::Disconnected,
            SerialConfigCli::Console => SerialEndpoint::Console,
            SerialConfigCli::NewConsole(app, title) => SerialEndpoint::NewConsole(
                string_view(*app),
                string_view(*title),
            ),
            SerialConfigCli::Stderr => SerialEndpoint::Stderr,
            SerialConfigCli::File(path) => SerialEndpoint::File(path@),
            SerialConfigCli::Pipe(path) => SerialEndpoint::Pipe(path@),
            SerialConfigCli::ConnectPipe(path) => SerialEndpoint::ConnectPipe(path@),
            SerialConfigCli::Tcp(address) => SerialEndpoint::Tcp(address@),
            SerialConfigCli::ConnectTcp(address) => SerialEndpoint::ConnectTcp(address@),
        }
    }
}

impl SerialConfigCli {
    /// A copy of the configuration.
    pub fn duplicate(&self) -> (r: SerialConfigCli)
        ensures
            r@ == self@,
    {
        match self {
            SerialConfigCli::Disconnected => SerialConfigCli::Disconnected,
            SerialConfigCli::Console => SerialConfigCli::Console,
            SerialConfigCli::NewConsole(app, title) => SerialConfigCli::NewConsole(
                copy_optional(app),
                copy_optional(title),
            ),
            SerialConfigCli::Stderr => SerialConfigCli::Stderr,
            SerialConfigCli::File(path) => SerialConfigCli::File(path.clone()),
            SerialConfigCli::Pipe(path) => SerialConfigCli::Pipe(path.clone()),
            SerialConfigCli::ConnectPipe(path) => SerialConfigCli::ConnectPipe(path.clone()),
            SerialConfigCli::Tcp(address) => SerialConfigCli::Tcp(address.duplicate()),
            SerialConfigCli::ConnectTcp(address) => SerialConfigCli::ConnectTcp(
                address.duplicate(),
            ),
        }
    }
}

#[derive(Clone, Copy, Debug, PartialEq, Eq, Structural)]
pub enum VirtioConsoleBackendKind {
    UnixSocket,
    NamedPipe,
    Tcp,
    Inherited,
    Disconnected,
}

#[derive(Clone, Copy, Debug, PartialEq, Eq, Structural)]
pub enum VirtioConsoleAttachmentMode {
    Listen,
    Connect,
    Inherited,
}

#[derive(Clone, Copy, Debug, PartialEq, Eq, Structural)]
pub enum VirtioConsoleReconnectPolicy {
    RecreateListener,
    ReconnectClient,
    RequireInheritedAttachment,
    DiscardWhileDisconnected,
}

/// What the console device is told of its attachment.
#[derive(Debug)]
pub struct VirtioConsoleAttachment {
    pub stable_id: String,
    pub backend_kind: VirtioConsoleBackendKind,
    pub mode: VirtioConsoleAttachmentMode,
    pub endpoint_identity: String,
    pub reconnect_policy: VirtioConsoleReconnectPolicy,
    pub required: bool,
    pub reconnect_timeout_ms: u64,
}

/// The mathematical value of a [`VirtioConsoleAttachment`].
pub struct ConsoleResource {
    pub stable_id: Seq<char>,
    pub backend_kind: VirtioConsoleBackendKind,
    pub mode: VirtioConsoleAttachmentMode,
    pub endpoint_identity: Seq<char>,
    pub reconnect_policy: VirtioConsoleReconnectPolicy,
    pub required: bool,
    pub reconnect_timeout_ms: nat,
}

impl View for VirtioConsoleAttachment {
    type V = ConsoleResource;

    open spec fn view(&self) -> ConsoleResource {
        ConsoleResource {
            stable_id: self.stable_id@,
            backend_kind: self.backend_kind,
            mode: self.mode,
            endpoint_identity: self.endpoint_identity@,
            reconnect_policy: self.reconnect_policy,
            required: self.required,
            reconnect_timeout_ms: self.reconnect_timeout_ms as nat,
        }
    }
}

/// The stable spelling of a reconnect policy.
pub open spec fn policy_name(policy: VirtioConsoleReconnectPolicy) -> Seq<char> {
    match policy {
        VirtioConsoleReconnectPolicy::RecreateListener => "recreate-listener"@,
        VirtioConsoleReconnectPolicy::ReconnectClient => "reconnect-client"@,
        VirtioConsoleReconnectPolicy::RequireInheritedAttachment =>
            "require-inherited-attachment"@,
        VirtioConsoleReconnectPolicy::DiscardWhileDisconnected =>
            "discard-while-disconnected"@,
    }
}

/// The stable spelling of a backend kind.
pub open spec fn identity_kind_name(kind: VirtioConsoleBackendKind) -> Seq<char> {
    match kind {
        VirtioConsoleBackendKind::UnixSocket => "unix-socket"@,
        VirtioConsoleBackendKind::NamedPipe => "named-pipe"@,
        VirtioConsoleBackendKind::Tcp => "tcp"@,
        VirtioConsoleBackendKind::Inherited => "provider"@,
        VirtioConsoleBackendKind::Disconnected => "disconnected"@,
    }
}

fn policy_text(policy: VirtioConsoleReconnectPolicy) -> (s: &'static str)
    ensures
        s@ == policy_name(policy),
{
    match policy {
        VirtioConsoleReconnectPolicy::RecreateListener => "recreate-listener",
        VirtioConsoleReconnectPolicy::ReconnectClient => "reconnect-client",
        VirtioConsoleReconnectPolicy::RequireInheritedAttachment => "require-inherited-attachment",
        VirtioConsoleReconnectPolicy::DiscardWhileDisconnected => "discard-while-disconnected",
    }
}

fn identity_kind_text(kind: VirtioConsoleBackendKind) -> (s: &'static str)
    ensures
        s@ == identity_kind_name(kind),
{
    match kind {
        VirtioConsoleBackendKind::UnixSocket => "unix-socket",
        VirtioConsoleBackendKind::NamedPipe => "named-pipe",
        VirtioConsoleBackendKind::Tcp => "tcp",
        VirtioConsoleBackendKind::Inherited => "provider",
        VirtioConsoleBackendKind::Disconnected => "disconnected",
    }
}

/// The endpoint is one that this process connects to as a client.
pub open spec fn is_client(config: SerialEndpoint) -> bool {
    config is ConnectPipe || config is ConnectTcp
}

/// The identity of the endpoint that an attachment names.
pub open spec fn endpoint_identity(config: SerialEndpoint) -> Seq<char> {
    match config {
        SerialEndpoint::Pipe(path) => path,
        SerialEndpoint::ConnectPipe(path) => path,
        SerialEndpoint::Tcp(address) => address.text(),
        SerialEndpoint::ConnectTcp(address) => address.text(),
        SerialEndpoint::Console => "console"@,
        _ => "discard"@,
    }
}

/// What the device is told of an endpoint that can be attached.
pub open spec fn console_resource(config: SerialEndpoint, host: HostOs) -> ConsoleResource {
    let client = is_client(config);
    ConsoleResource {
        stable_id: MICROVM_CONSOLE_STABLE_ID@,
        backend_kind: match config {
            SerialEndpoint::Pipe(_) | SerialEndpoint::ConnectPipe(_) => if host
                == HostOs::Windows {
                VirtioConsoleBackendKind::NamedPipe
            } else {
                VirtioConsoleBackendKind::UnixSocket
            },
            SerialEndpoint::Tcp(_) | SerialEndpoint::ConnectTcp(_) =>
                VirtioConsoleBackendKind::Tcp,
            SerialEndpoint::Console => VirtioConsoleBackendKind::Inherited,
            _ => VirtioConsoleBackendKind::Disconnected,
        },
        mode: match config {
            SerialEndpoint::Pipe(_) | SerialEndpoint::Tcp(_) =>
                VirtioConsoleAttachmentMode::Listen,
            SerialEndpoint::ConnectPipe(_) | SerialEndpoint::ConnectTcp(_) =>
                VirtioConsoleAttachmentMode::Connect,
            _ => VirtioConsoleAttachmentMode::Inherited,
        },
        endpoint_identity: endpoint_identity(config),
        reconnect_policy: match config {
            SerialEndpoint::Pipe(_) | SerialEndpoint::Tcp(_) =>
                VirtioConsoleReconnectPolicy::RecreateListener,
            SerialEndpoint::ConnectPipe(_) | SerialEndpoint::ConnectTcp(_) =>
                VirtioConsoleReconnectPolicy::ReconnectClient,
            SerialEndpoint::Console => VirtioConsoleReconnectPolicy::RequireInheritedAttachment,
            _ => VirtioConsoleReconnectPolicy::DiscardWhileDisconnected,
        },
        required: client || config is Console,
        reconnect_timeout_ms: if client {
            MICROVM_CONSOLE_RECONNECT_TIMEOUT_MS as nat
        } else {
            0
        },
    }
}

/// What a snapshot records of an endpoint that can be attached.
pub open spec fn console_snapshot(config: SerialEndpoint, host: HostOs) -> Attachment {
    let resource = console_resource(config, host);
    Attachment {
        stable_id: MICROVM_CONSOLE_STABLE_ID@,
        kind: "virtio-console"@,
        required: resource.required,
        reconnect_policy: policy_name(resource.reconnect_policy),
        identity_kind: identity_kind_name(resource.backend_kind),
        identity: encode_utf8(resource.endpoint_identity),
        length: 0,
        reconnect_timeout_ms: resource.reconnect_timeout_ms,
    }
}

/// Why an endpoint cannot be the console of a microVM, if it cannot.
pub open spec fn console_refusal(config: SerialEndpoint, host: HostOs) -> Option<Seq<char>> {
    let identity = endpoint_identity(config);
    let supported = match config {
        SerialEndpoint::NewConsole(_, _) | SerialEndpoint::Stderr | SerialEndpoint::File(_) => Some(
            "microVM virtio-console requires listen=..., connect=..., console, or none"@,
        ),
        SerialEndpoint::Pipe(path) | SerialEndpoint::ConnectPipe(path) => if host
            == HostOs::Windows && !has_prefix(path, "//./pipe/openvmm-microvm-"@) {
            Some("Windows microVM console pipes must use //./pipe/openvmm-microvm-<NAME>"@)
        } else {
            None
        },
        SerialEndpoint::Tcp(address) | SerialEndpoint::ConnectTcp(address) => if address.port()
            == 0 {
            Some("microVM console TCP endpoint requires a nonzero stable port"@)
        } else if !address.loopback() {
            Some("microVM console TCP endpoints must use a loopback address"@)
        } else {
            None
        },
        _ => None,
    };
    if supported is Some {
        supported
    } else if identity.len() == 0 || byte_len(identity) > 4096 {
        Some("microVM console endpoint identity is empty or exceeds 4096 bytes"@)
    } else {
        None
    }
}

/// The attachment for an endpoint: where it leads, what the device is told, and
/// what a snapshot records.
pub fn microvm_console_attachment_from_cli(config: &SerialConfigCli, host: HostOs) -> (r: Result<
    (SerialConfigCli, VirtioConsoleAttachment, SnapshotAttachment),
    Refusal,
>)
    ensures
        match r {
            Ok((effective, resource, snapshot)) => {
                &&& console_refusal(config@, host) is None
                &&& effective@ == config@
                &&& resource@ == console_resource(config@, host)
                &&& snapshot@ == console_snapshot(config@, host)
            },
            Err(e) => console_refusal(config@, host) == Some(e@),
        },
{
    let mut backend_kind = VirtioConsoleBackendKind::Disconnected;
    let mut mode = VirtioConsoleAttachmentMode::Inherited;
    let mut reconnect_policy = VirtioConsoleReconnectPolicy::DiscardWhileDisconnected;
    let mut required: bool = false;
    let mut reconnect_timeout_ms: u64 = 0;
    let endpoint_identity: String;
    match config {
        SerialConfigCli::Pipe(path) | SerialConfigCli::ConnectPipe(path) => {
            if host == HostOs::Windows {
                if !starts_with(path.as_str(), "//./pipe/openvmm-microvm-") {
                    return Err(
                        refuse(
                            "Windows microVM console pipes must use //./pipe/openvmm-microvm-<NAME>",
                        ),
                    );
                }
                backend_kind = VirtioConsoleBackendKind::NamedPipe;
            } else {
                backend_kind = VirtioConsoleBackendKind::UnixSocket;
            }
            endpoint_identity = path.clone();
        },
        SerialConfigCli::Tcp(address) | SerialConfigCli::ConnectTcp(address) => {
            if address.port() == 0 {
                return Err(
                    refuse("microVM console TCP endpoint requires a nonzero stable port"),
                );
            }
            if !address.is_loopback() {
                return Err(
                    refuse("microVM console TCP endpoints must use a loopback address"),
                );
            }
            backend_kind = VirtioConsoleBackendKind::Tcp;
            endpoint_identity = address.to_text();
        },
        SerialConfigCli::Console => {
            backend_kind = VirtioConsoleBackendKind::Inherited;
            reconnect_policy = VirtioConsoleReconnectPolicy::RequireInheritedAttachment;
            required = true;
            endpoint_identity = "console".to_owned();
        },
        SerialConfigCli::Disconnected => {
            endpoint_identity = "discard".to_owned();
        },
        _ => {
            return Err(
                refuse(
                    "microVM virtio-console requires listen=..., connect=..., console, or none",
                ),
            );
        },
    }
    match config {
        SerialConfigCli::ConnectPipe(_) | SerialConfigCli::ConnectTcp(_) => {
            mode = VirtioConsoleAttachmentMode::Connect;
            reconnect_policy = VirtioConsoleReconnectPolicy::ReconnectClient;
            required = true;
            reconnect_timeout_ms = MICROVM_CONSOLE_RECONNECT_TIMEOUT_MS;
        },
        SerialConfigCli::Pipe(_) | SerialConfigCli::Tcp(_) => {
            mode = VirtioConsoleAttachmentMode::Listen;
            reconnect_policy = VirtioConsoleReconnectPolicy::RecreateListener;
        },
        _ => {},
    }
    if endpoint_identity.as_str().is_empty() || text_byte_len(endpoint_identity.as_str()) > 4096 {
        return Err(
            refuse("microVM console endpoint identity is empty or exceeds 4096 bytes"),
        );
    }
    let identity = bytes_of_text(endpoint_identity.as_str());
    let attachment = VirtioConsoleAttachment {
        stable_id: MICROVM_CONSOLE_STABLE_ID.to_owned(),
        backend_kind,
        mode,
        endpoint_identity,
        reconnect_policy,
        required,
        reconnect_timeout_ms,
    };
    let snapshot = SnapshotAttachment {
        stable_id: MICROVM_CONSOLE_STABLE_ID.to_owned(),
        kind: "virtio-console".to_owned(),
        required,
        reconnect_policy: policy_text(reconnect_policy).to_owned(),
        identity_kind: identity_kind_text(backend_kind).to_owned(),
        identity,
        length: 0,
        reconnect_timeout_ms,
    };
    Ok((config.duplicate(), attachment, snapshot))
}

/// The name of a pipe in the namespace kept for microVM consoles.
pub open spec fn console_pipe_name(identity: Seq<char>) -> bool {
    let prefix = "//./pipe/openvmm-microvm-"@;
    &&& has_prefix(identity, prefix)
    &&& identity.len() > prefix.len()
    &&& !identity.skip(prefix.len() as int).contains('/')
    &&& !identity.skip(prefix.len() as int).contains('\\')
}

/// Why an attachment lies outside the namespace of a snapshot, if it does. The
/// snapshot's parent directory is given in canonical form.
pub open spec fn namespace_refusal(
    attachment: Attachment,
    snapshot_parent: Seq<char>,
) -> Option<Seq<char>> {
    let kind = attachment.identity_kind;
    let identity = text_of_bytes(attachment.identity);
    if kind == "unix-socket"@ {
        match identity {
            None => Some("microVM console socket identity is not valid UTF-8"@),
            Some(endpoint) => match path_parent(endpoint) {
                None => Some("microVM console socket identity has no parent"@),
                Some(parent) => if parent == path_parts(snapshot_parent) {
                    None
                } else {
                    Some(
                        "microVM console socket must be inside the snapshot parent namespace "@
                            + snapshot_parent,
                    )
                },
            },
        }
    } else if kind == "named-pipe"@ {
        match identity {
            None => Some("microVM console pipe identity is not valid UTF-8"@),
            Some(name) => if console_pipe_name(name) {
                None
            } else {
                Some("microVM console pipe is outside //./pipe/openvmm-microvm-<NAME>"@)
            },
        }
    } else if kind == "tcp"@ || kind == "provider"@ || kind == "disconnected"@ {
        None
    } else {
        Some("unsupported microVM console identity kind '"@ + kind + "'"@)
    }
}

/// Holds a console attachment to the namespace of a snapshot.
pub fn validate_microvm_console_attachment_namespace(
    attachment: &SnapshotAttachment,
    snapshot_parent: &str,
) -> (r: Result<(), Refusal>)
    ensures
        refusal_of(r) == namespace_refusal(attachment@, snapshot_parent@),
{
    let kind = attachment.identity_kind.as_str();
    if same_text(kind, "unix-socket") {
        let endpoint = match read_text(&attachment.identity) {
            Some(endpoint) => endpoint,
            None => return Err(refuse("microVM console socket identity is not valid UTF-8")),
        };
        let parent = match parse_parent(endpoint.as_str()) {
            Some(parent) => parent,
            None => return Err(refuse("microVM console socket identity has no parent")),
        };
        let expected = parse_path(snapshot_parent);
        if !same_path(&parent, &expected) {
            return Err(
                refuse_naming(
                    "microVM console socket must be inside the snapshot parent namespace ",
                    snapshot_parent,
                ),
            );
        }
        Ok(())
    } else if same_text(kind, "named-pipe") {
        let name = match read_text(&attachment.identity) {
            Some(name) => name,
            None => return Err(refuse("microVM console pipe identity is not valid UTF-8")),
        };
        if !is_console_pipe_name(name.as_str()) {
            return Err(
                refuse("microVM console pipe is outside //./pipe/openvmm-microvm-<NAME>"),
            );
        }
        Ok(())
    } else if same_text(kind, "tcp") || same_text(kind, "provider") || same_text(
        kind,
        "disconnected",
    ) {
        Ok(())
    } else {
        Err(refuse_quoting("unsupported microVM console identity kind '", kind, "'"))
    }
}

fn is_console_pipe_name(identity: &str) -> (b: bool)
    ensures
        b == console_pipe_name(identity@),
{
    if !starts_with(identity, "//./pipe/openvmm-microvm-") {
        return false;
    }
    proof {
        reveal_strlit("//./pipe/openvmm-microvm-");
    }
    let chars = crate::text::chars_of(identity);
    if chars.len() <= 25 {
        return false;
    }
    let name = crate::text::slice_of(&chars, 25, chars.len());
    assert(name@ =~= identity@.skip(25));
    !contains_char(name.as_str(), '/') && !contains_char(name.as_str(), '\\')
}

/// What the host makes of a recorded identity: the canonical form of the path
/// it names, or why there is none, and the IPv6 endpoint that it spells in some
/// other way than the usual one, if any.
pub struct ResolvedIdentity {
    pub path: Result<String, Refusal>,
    pub v6: Option<SocketAddress>,
}

/// A result whose success and refusal are both texts.
pub open spec fn path_view(r: Result<String, Refusal>) -> Result<Seq<char>, Seq<char>> {
    match r {
        Ok(path) => Ok(path@),
        Err(e) => Err(e@),
    }
}

pub open spec fn endpoint_view(r: Option<SocketAddress>) -> Option<Endpoint> {
    match r {
        Some(address) => Some(address@),
        None => None,
    }
}

/// A requested endpoint, where its path could be resolved.
pub open spec fn requested_view(
    r: Option<&Result<SerialConfigCli, Refusal>>,
) -> Option<Result<SerialEndpoint, Seq<char>>> {
    match r {
        None => None,
        Some(Ok(config)) => Some(Ok(config@)),
        Some(Err(e)) => Some(Err(e@)),
    }
}

/// The endpoint that a recorded identity and policy describe.
pub open spec fn recorded_endpoint(
    policy: Seq<char>,
    kind: Seq<char>,
    identity: Seq<char>,
    requested: Option<Result<SerialEndpoint, Seq<char>>>,
    path: Result<Seq<char>, Seq<char>>,
    v6: Option<Endpoint>,
) -> Result<SerialEndpoint, Seq<char>> {
    let by_path = kind == "unix-socket"@ || kind == "named-pipe"@;
    let address = match socket_v4_of(identity) {
        Some(endpoint) => Some(endpoint),
        None => match socket_loopback_of(identity) {
            Some(endpoint) => Some(endpoint),
            None => v6,
        },
    };
    if policy == "recreate-listener"@ && by_path {
        match path {
            Ok(p) => Ok(SerialEndpoint::Pipe(p)),
            Err(e) => Err(e),
        }
    } else if policy == "recreate-listener"@ && kind == "tcp"@ {
        match address {
            Some(endpoint) => Ok(SerialEndpoint::Tcp(endpoint)),
            None => Err("snapshot microVM console TCP identity is invalid"@),
        }
    } else if policy == "reconnect-client"@ && by_path {
        match path {
            Ok(p) => Ok(SerialEndpoint::ConnectPipe(p)),
            Err(e) => Err(e),
        }
    } else if policy == "reconnect-client"@ && kind == "tcp"@ {
        match address {
            Some(endpoint) => Ok(SerialEndpoint::ConnectTcp(endpoint)),
            None => Err("snapshot microVM console TCP identity is invalid"@),
        }
    } else if policy == "require-inherited-attachment"@ && kind == "provider"@ {
        match requested {
            Some(r) => r,
            None => Err(
                "snapshot requires --virtio-console console as a replacement attachment"@,
            ),
        }
    } else if policy == "discard-while-disconnected"@ && kind == "disconnected"@ {
        Ok(SerialEndpoint::Disconnected)
    } else {
        Err(
            "snapshot microVM console policy '"@ + policy + "' and backend kind '"@ + kind
                + "' are unsupported"@,
        )
    }
}

/// The endpoint that a restored machine attaches to, or why there is none.
pub open spec fn restored_console(
    attachment: Attachment,
    requested: Option<Result<SerialEndpoint, Seq<char>>>,
    path: Result<Seq<char>, Seq<char>>,
    v6: Option<Endpoint>,
    host: HostOs,
) -> Result<SerialEndpoint, Seq<char>> {
    if attachment.stable_id != MICROVM_CONSOLE_STABLE_ID@ || attachment.kind
        != "virtio-console"@ || attachment.length != 0 {
        Err("snapshot has an invalid microVM console attachment"@)
    } else {
        match text_of_bytes(attachment.identity) {
            None => Err("snapshot microVM console identity is not valid UTF-8"@),
            Some(identity) => if attachment.reconnect_policy == "reconnect-client"@ && requested
                is None {
                Err("snapshot requires an explicitly approved restore-time client attachment"@)
            } else {
                match recorded_endpoint(
                    attachment.reconnect_policy,
                    attachment.identity_kind,
                    identity,
                    requested,
                    path,
                    v6,
                ) {
                    Err(e) => Err(e),
                    Ok(config) => if console_refusal(config, host) is Some {
                        Err(console_refusal(config, host)->0)
                    } else if console_snapshot(config, host) != attachment {
                        Err("snapshot microVM console identity is not canonical"@)
                    } else {
                        match requested {
                            None => Ok(config),
                            Some(Err(e)) => Err(e),
                            Some(Ok(wanted)) => if console_refusal(wanted, host) is Some {
                                Err(console_refusal(wanted, host)->0)
                            } else if console_snapshot(wanted, host) != attachment {
                                Err(
                                    "restore-time virtio-console does not match the snapshot attachment"@,
                                )
                            } else {
                                Ok(config)
                            },
                        }
                    },
                }
            },
        }
    }
}

fn find_recorded_endpoint(
    policy: &str,
    kind: &str,
    identity: &str,
    requested: Option<&Result<SerialConfigCli, Refusal>>,
    resolved: &ResolvedIdentity,
) -> (r: Result<SerialConfigCli, Refusal>)
    ensures
        match r {
            Ok(config) => recorded_endpoint(
                policy@,
                kind@,
                identity@,
                requested_view(requested),
                path_view(resolved.path),
                endpoint_view(resolved.v6),
            ) == Ok::<SerialEndpoint, Seq<char>>(config@),
            Err(e) => recorded_endpoint(
                policy@,
                kind@,
                identity@,
                requested_view(requested),
                path_view(resolved.path),
                endpoint_view(resolved.v6),
            ) == Err::<SerialEndpoint, Seq<char>>(e@),
        },
{
    let listener = same_text(policy, "recreate-listener");
    let client = same_text(policy, "reconnect-client");
    let by_path = same_text(kind, "unix-socket") || same_text(kind, "named-pipe");
    let by_tcp = same_text(kind, "tcp");
    proof {
        reveal_strlit("recreate-listener");
        reveal_strlit("reconnect-client");
        reveal_strlit("unix-socket");
        reveal_strlit("named-pipe");
        reveal_strlit("tcp");
        assert("recreate-listener"@.len() != "reconnect-client"@.len());
        assert("unix-socket"@.len() != "tcp"@.len());
        assert("named-pipe"@.len() != "tcp"@.len());
    }
    if (listener || client) && by_path {
        match &resolved.path {
            Ok(path) => {
                if listener {
                    Ok(SerialConfigCli::Pipe(path.clone()))
                } else {
                    Ok(SerialConfigCli::ConnectPipe(path.clone()))
                }
            },
            Err(e) => Err(Refusal { message: e.message.clone() }),
        }
    } else if (listener || client) && by_tcp {
        let address = match SocketAddress::parse_v4(identity) {
            Some(address) => address,
            None => match SocketAddress::parse_loopback(identity) {
                Some(address) => address,
                None => match &resolved.v6 {
                    Some(address) => address.duplicate(),
                    None => {
                        return Err(refuse("snapshot microVM console TCP identity is invalid"));
                    },
                },
            },
        };
        if listener {
            Ok(SerialConfigCli::Tcp(address))
        } else {
            Ok(SerialConfigCli::ConnectTcp(address))
        }
    } else if same_text(policy, "require-inherited-attachment") && same_text(kind, "provider") {
        match requested {
            Some(Ok(config)) => Ok(config.duplicate()),
            Some(Err(e)) => Err(Refusal { message: e.message.clone() }),
            None => Err(
                refuse("snapshot requires --virtio-console console as a replacement attachment"),
            ),
        }
    } else if same_text(policy, "discard-while-disconnected") && same_text(kind, "disconnected") {
        Ok(SerialConfigCli::Disconnected)
    } else {
        let mut message = "snapshot microVM console policy '".to_owned();
        push_text(&mut message, policy);
        push_text(&mut message, "' and backend kind '");
        push_text(&mut message, kind);
        push_text(&mut message, "' are unsupported");
        Err(Refusal { message })
    }
}

/// Rebuilds the console attachment of a snapshot for a restored machine.
pub fn microvm_console_attachment_from_snapshot(
    attachment: &SnapshotAttachment,
    requested: Option<&Result<SerialConfigCli, Refusal>>,
    resolved: &ResolvedIdentity,
    host: HostOs,
) -> (r: Result<(SerialConfigCli, VirtioConsoleAttachment, SnapshotAttachment), Refusal>)
    ensures
        ({
            let outcome = restored_console(
                attachment@,
                requested_view(requested),
                path_view(resolved.path),
                endpoint_view(resolved.v6),
                host,
            );
            match r {
                Ok((config, resource, snapshot)) => {
                    &&& outcome == Ok::<SerialEndpoint, Seq<char>>(config@)
                    &&& resource@ == console_resource(config@, host)
                    &&& snapshot@ == attachment@
                },
                Err(e) => outcome == Err::<SerialEndpoint, Seq<char>>(e@),
            }
        }),
{
    if !(same_text(attachment.stable_id.as_str(), MICROVM_CONSOLE_STABLE_ID) && same_text(
        attachment.kind.as_str(),
        "virtio-console",
    ) && attachment.length == 0) {
        return Err(refuse("snapshot has an invalid microVM console attachment"));
    }
    let identity = match read_text(&attachment.identity) {
        Some(identity) => identity,
        None => return Err(refuse("snapshot microVM console identity is not valid UTF-8")),
    };
    if same_text(attachment.reconnect_policy.as_str(), "reconnect-client")
        && requested.is_none() {
        return Err(
            refuse("snapshot requires an explicitly approved restore-time client attachment"),
        );
    }
    let config = match find_recorded_endpoint(
        attachment.reconnect_policy.as_str(),
        attachment.identity_kind.as_str(),
        identity.as_str(),
        requested,
        resolved,
    ) {
        Ok(config) => config,
        Err(e) => return Err(e),
    };
    let reconstructed = match microvm_console_attachment_from_cli(&config, host) {
        Ok(reconstructed) => reconstructed,
        Err(e) => return Err(e),
    };
    if !reconstructed.2.same(attachment) {
        return Err(refuse("snapshot microVM console identity is not canonical"));
    }
    match requested {
        None => {},
        Some(Err(e)) => {
            return Err(Refusal { message: e.message.clone() });
        },
        Some(Ok(wanted)) => match microvm_console_attachment_from_cli(wanted, host) {
            Err(e) => return Err(e),
            Ok(other) => {
                if !other.2.same(attachment) {
                    return Err(
                        refuse(
                            "restore-time virtio-console does not match the snapshot attachment",
                        ),
                    );
                }
            },
        },
    }
    Ok(reconstructed)
}

/// What the console of a machine is: what was asked for on a fresh boot, what
/// the snapshot records on a restore.
pub open spec fn effective_console(
    requested: Option<Result<SerialEndpoint, Seq<char>>>,
    restore: Option<SnapshotMachineContract>,
    path: Result<Seq<char>, Seq<char>>,
    v6: Option<Endpoint>,
    host: HostOs,
) -> Result<Option<SerialEndpoint>, Seq<char>> {
    match restore {
        None => match requested {
            None => Ok(None),
            Some(Err(e)) => Err(e),
            Some(Ok(config)) => match console_refusal(config, host) {
                Some(text) => Err(text),
                None => Ok(Some(config)),
            },
        },
        Some(contract) => {
            let saved = find_attachment(contract.attachments@, MICROVM_CONSOLE_STABLE_ID@);
            if has_device(contract.devices@, MICROVM_CONSOLE_STABLE_ID@) != saved is Some {
                Err("snapshot microVM console device and attachment inventories disagree"@)
            } else {
                match saved {
                    None => if requested is Some {
                        Err(
                            "a restore-time virtio-console cannot be added to a snapshot without one"@,
                        )
                    } else {
                        Ok(None)
                    },
                    Some(attachment) => match restored_console(
                        attachment,
                        requested,
                        path,
                        v6,
                        host,
                    ) {
                        Ok(config) => Ok(Some(config)),
                        Err(e) => Err(e),
                    },
                }
            }
        },
    }
}

/// Decides the console attachment of a machine.
pub fn effective_microvm_console(
    requested: Option<&Result<SerialConfigCli, Refusal>>,
    restore: Option<&SnapshotMachineContract>,
    resolved: &ResolvedIdentity,
    host: HostOs,
) -> (r: Result<
    Option<(SerialConfigCli, VirtioConsoleAttachment, SnapshotAttachment)>,
    Refusal,
>)
    ensures
        ({
            let outcome = effective_console(
                requested_view(requested),
                match restore {
                    Some(contract) => Some(*contract),
                    None => None,
                },
                path_view(resolved.path),
                endpoint_view(resolved.v6),
                host,
            );
            match r {
                Ok(None) => outcome == Ok::<Option<SerialEndpoint>, Seq<char>>(None),
                Ok(Some((config, resource, snapshot))) => {
                    &&& outcome == Ok::<Option<SerialEndpoint>, Seq<char>>(Some(config@))
                    &&& resource@ == console_resource(config@, host)
                    &&& snapshot@ == console_snapshot(config@, host)
                },
                Err(e) => outcome == Err::<Option<SerialEndpoint>, Seq<char>>(e@),
            }
        }),
{
    match restore {
        None => match requested {
            None => Ok(None),
            Some(Err(e)) => Err(Refusal { message: e.message.clone() }),
            Some(Ok(config)) => match microvm_console_attachment_from_cli(config, host) {
                Ok(attachment) => Ok(Some(attachment)),
                Err(e) => Err(e),
            },
        },
        Some(contract) => {
            let has_console = contract.has_device(MICROVM_CONSOLE_STABLE_ID);
            let saved = contract.attachment(MICROVM_CONSOLE_STABLE_ID);
            if has_console != saved.is_some() {
                return Err(
                    refuse("snapshot microVM console device and attachment inventories disagree"),
                );
            }
            match saved {
                None => {
                    if requested.is_some() {
                        return Err(
                            refuse(
                                "a restore-time virtio-console cannot be added to a snapshot without one",
                            ),
                        );
                    }
                    Ok(None)
                },
                Some(attachment) => match microvm_console_attachment_from_snapshot(
                    attachment,
                    requested,
                    resolved,
                    host,
                ) {
                    Ok(restored) => Ok(Some(restored)),
                    Err(e) => Err(e),
                },
            }
        },
    }
}

/// A console that could be attached is found again by a restore that asks for
/// the same one; a socket or pipe as long as the host still resolves its path to
/// itself. Listeners and disconnected consoles are found again without being asked
/// for, clients and the terminal are not. A restore that asks for a console with
/// another attachment is refused.
pub proof fn law_console_survives_snapshot(
    config: SerialEndpoint,
    path: Result<Seq<char>, Seq<char>>,
    v6: Option<Endpoint>,
    host: HostOs,
)
    requires
        console_refusal(config, host) is None,
        config is Pipe || config is ConnectPipe ==> path == Ok::<Seq<char>, Seq<char>>(
            endpoint_identity(config),
        ),
        (config matches SerialEndpoint::Tcp(address) ==> is_endpoint(address)),
        (config matches SerialEndpoint::ConnectTcp(address) ==> is_endpoint(address)),
    ensures
        restored_console(
            console_snapshot(config, host),
            Some(Ok(config)),
            path,
            v6,
            host,
        ) == Ok::<SerialEndpoint, Seq<char>>(config),
        config is Pipe || config is Tcp || config is Disconnected ==> restored_console(
            console_snapshot(config, host),
            None,
            path,
            v6,
            host,
        ) == Ok::<SerialEndpoint, Seq<char>>(config),
        is_client(config) || config is Console ==> restored_console(
            console_snapshot(config, host),
            None,
            path,
            v6,
            host,
        ) is Err,
        forall|wanted: SerialEndpoint| #[trigger]
            console_snapshot(wanted, host) != console_snapshot(config, host) ==> restored_console(
                console_snapshot(config, host),
                Some(Ok(wanted)),
                path,
                v6,
                host,
            ) is Err,
{
    let snapshot = console_snapshot(config, host);
    law_text_reads_back(endpoint_identity(config));
    match config {
        SerialEndpoint::Tcp(address) | SerialEndpoint::ConnectTcp(address) => {
            if address is V4 {
                law_socket_text_reads_back(address->ip, address->V4_port);
            } else {
                let port = address->V6_port;
                let scope = choose|scope: nat|
                    scope <= u32::MAX && address->text == #[trigger] loopback_text(scope, port);
                law_loopback_text_reads_back(scope, port);
            }
        },
        _ => {},
    }
    reveal_strlit("recreate-listener");
    reveal_strlit("reconnect-client");
    reveal_strlit("require-inherited-attachment");
    reveal_strlit("discard-while-disconnected");
    reveal_strlit("unix-socket");
    reveal_strlit("named-pipe");
    reveal_strlit("tcp");
    reveal_strlit("provider");
    reveal_strlit("disconnected");
    assert("recreate-listener"@.len() == 17);
    assert("reconnect-client"@.len() == 16);
    assert("require-inherited-attachment"@.len() == 28);
    assert("discard-while-disconnected"@.len() == 26);
    assert("unix-socket"@.len() == 11);
    assert("named-pipe"@.len() == 10);
    assert("tcp"@.len() == 3);
    assert("provider"@.len() == 8);
    assert("disconnected"@.len() == 12);
}

/// A restore never attaches to anything but what the snapshot records: the
/// attachment of the endpoint it settles on is the recorded one.
pub proof fn law_restored_console_is_the_recorded_one(
    attachment: Attachment,
    requested: Option<Result<SerialEndpoint, Seq<char>>>,
    path: Result<Seq<char>, Seq<char>>,
    v6: Option<Endpoint>,
    host: HostOs,
)
    requires
        restored_console(attachment, requested, path, v6, host) is Ok,
    ensures
        console_snapshot(restored_console(attachment, requested, path, v6, host)->Ok_0, host)
            == attachment,
        requested matches Some(Ok(wanted)) ==> console_snapshot(wanted, host) == attachment,
{
}

} // verus!
