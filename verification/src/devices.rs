//! Devices as a management request describes them.
//!
//! Identifiers that the request spells in text are read by the caller; here an
//! identifier that could not be read is absent.

use vstd::prelude::*;

use crate::config::{Guid, HostOs};
use crate::net::MacAddress;
use crate::numeral::{decimal, parse_unsigned, push_decimal, read_unsigned};
use crate::refusal::{refusal_of, refuse, refuse_naming, refuse_quoting, string_view, Refusal};
use crate::text::{chars_of, contains_char, push_text};

verus! {

#[derive(Clone, Copy, Debug, PartialEq, Eq, Structural)]
pub enum HostPortProtocol {
    Tcp,
    Udp,
}

/// A forwarded port as it is requested.
#[derive(Clone, Copy, Debug)]
pub struct PortRequest {
    pub host_port: u32,
    pub guest_port: u32,
    /// The protocol, or the number that names none.
    pub protocol: Result<HostPortProtocol, i32>,
}

/// A forwarded port: always a fixed host port.
#[derive(Clone, Copy, Debug, PartialEq, Eq, Structural)]
pub struct HostPortConfig {
    pub protocol: HostPortProtocol,
    pub host_port: u16,
    pub guest_port: u16,
}

/// The text of a signed number.
pub open spec fn signed_decimal(n: i32) -> Seq<char> {
    if n < 0 {
        seq!['-'] + decimal((-(n as int)) as nat)
    } else {
        decimal(n as nat)
    }
}

/// Appends a signed number.
pub fn push_signed(out: &mut String, n: i32)
    ensures
        final(out)@ == old(out)@ + signed_decimal(n),
{
    if n < 0 {
        out.push('-');
        let magnitude: i64 = -(n as i64);
        push_decimal(out, magnitude as u128);
    } else {
        push_decimal(out, n as u128);
    }
    assert(out@ =~= old(out)@ + signed_decimal(n));
}

fn refuse_number(before: &str, n: i32) -> (r: Refusal)
    ensures
        r@ == before@ + signed_decimal(n),
{
    let mut message = before.to_owned();
    push_signed(&mut message, n);
    Refusal { message }
}

/// Why a forwarded port is refused, if it is.
pub open spec fn port_refusal(port: PortRequest) -> Option<Seq<char>> {
    match port.protocol {
        Err(n) => Some("invalid protocol "@ + signed_decimal(n)),
        Ok(_) => if port.host_port > 65535 {
            Some("host port out of range"@)
        } else if port.guest_port > 65535 {
            Some("guest port out of range"@)
        } else {
            None
        },
    }
}

/// The forwarded port that a request describes.
pub open spec fn port_config(port: PortRequest) -> HostPortConfig {
    HostPortConfig {
        protocol: port.protocol->Ok_0,
        host_port: port.host_port as u16,
        guest_port: port.guest_port as u16,
    }
}

/// Reads a forwarded port, validating its protocol and its port ranges.
pub fn parse_port_config(port: PortRequest) -> (r: Result<HostPortConfig, Refusal>)
    ensures
        refusal_of(r) == port_refusal(port),
        r is Ok ==> r->Ok_0 == port_config(port),
{
    let protocol = match port.protocol {
        Ok(protocol) => protocol,
        Err(n) => return Err(refuse_number("invalid protocol ", n)),
    };
    if port.host_port > 65535 {
        return Err(refuse("host port out of range"));
    }
    if port.guest_port > 65535 {
        return Err(refuse("guest port out of range"));
    }
    Ok(
        HostPortConfig {
            protocol,
            host_port: port.host_port as u16,
            guest_port: port.guest_port as u16,
        },
    )
}

/// The first refusal among some forwarded ports.
pub open spec fn ports_refusal(ports: Seq<PortRequest>) -> Option<Seq<char>>
    decreases ports.len(),
{
    if ports.len() == 0 {
        None
    } else if port_refusal(ports[0]) is Some {
        port_refusal(ports[0])
    } else {
        ports_refusal(ports.skip(1))
    }
}

/// Reads all forwarded ports of a network, or none.
pub fn parse_ports(ports: &Vec<PortRequest>) -> (r: Result<Vec<HostPortConfig>, Refusal>)
    ensures
        refusal_of(r) == ports_refusal(ports@),
        r is Ok ==> r->Ok_0@ == ports@.map_values(|p: PortRequest| port_config(p)),
{
    let mut out: Vec<HostPortConfig> = Vec::new();
    let mut i: usize = 0;
    assert(ports@.skip(0) =~= ports@);
    while i < ports.len()
        invariant
            i <= ports@.len(),
            out@.len() == i,
            ports_refusal(ports@) == ports_refusal(ports@.skip(i as int)),
            forall|k: int| 0 <= k < i ==> #[trigger] out@[k] == port_config(ports@[k]),
        decreases ports@.len() - i,
    {
        proof {
            assert(ports@.skip(i as int)[0] == ports@[i as int]);
            assert(ports@.skip(i as int).skip(1) =~= ports@.skip(i + 1));
        }
        match parse_port_config(ports[i]) {
            Ok(port) => {
                out.push(port);
            },
            Err(e) => return Err(e),
        }
        i += 1;
    }
    assert(out@ =~= ports@.map_values(|p: PortRequest| port_config(p)));
    Ok(out)
}

/// How a base address register of an assigned device is placed.
#[derive(Clone, Copy, Debug, PartialEq, Eq, Structural)]
pub enum BarAddressConfig {
    GuestAssigned,
    HostAssigned,
    Fixed(u64),
}

/// Where a requested register address comes from.
#[derive(Clone, Copy, Debug, PartialEq, Eq, Structural)]
pub enum BarSource {
    Host,
    Fixed(u64),
}

/// A register address as it is requested.
#[derive(Clone, Copy, Debug, PartialEq, Eq, Structural)]
pub struct VfioBarAddress {
    pub bar_index: u32,
    pub source: Option<BarSource>,
}

/// The placement that a request describes.
pub open spec fn bar_config(entry: VfioBarAddress) -> BarAddressConfig {
    match entry.source {
        Some(BarSource::Fixed(address)) => BarAddressConfig::Fixed(address),
        _ => BarAddressConfig::HostAssigned,
    }
}

/// Why the entry at a position is refused, if it is.
pub open spec fn bar_refusal(entries: Seq<VfioBarAddress>, k: int) -> Option<Seq<char>> {
    let entry = entries[k];
    let index = decimal(entry.bar_index as nat);
    if entry.bar_index >= 6 {
        Some("VFIO BAR index "@ + index + " is out of range"@)
    } else if exists|j: int| 0 <= j < k && (#[trigger] entries[j]).bar_index == entry.bar_index {
        Some("duplicate VFIO BAR index "@ + index)
    } else {
        match entry.source {
            None => Some("missing VFIO BAR address source"@),
            Some(BarSource::Fixed(0)) => Some("VFIO BAR fixed address must be nonzero"@),
            Some(_) => None,
        }
    }
}

/// The first refusal among the entries from a position on.
pub open spec fn bars_refusal(entries: Seq<VfioBarAddress>, from: int) -> Option<Seq<char>>
    decreases entries.len() - from,
{
    if from < 0 || from >= entries.len() {
        None
    } else if bar_refusal(entries, from) is Some {
        bar_refusal(entries, from)
    } else {
        bars_refusal(entries, from + 1)
    }
}

/// The registers are placed as the first entries say, and by the guest where
/// none of them says anything.
pub open spec fn bars_placed(
    bars: Seq<BarAddressConfig>,
    entries: Seq<VfioBarAddress>,
    n: int,
) -> bool {
    &&& bars.len() == 6
    &&& forall|k: int|
        0 <= k < n ==> (#[trigger] entries[k]).bar_index < 6 && bars[entries[k].bar_index as int]
            == bar_config(entries[k])
    &&& forall|i: int|
        0 <= i < 6 && (forall|k: int| 0 <= k < n ==> (#[trigger] entries[k]).bar_index != i)
            ==> #[trigger] bars[i] == BarAddressConfig::GuestAssigned
}

/// Reads where the base address registers of an assigned device are placed. No
/// register may be placed twice.
pub fn parse_vfio_bar_addresses(entries: &Vec<VfioBarAddress>) -> (r: Result<
    [BarAddressConfig; 6],
    Refusal,
>)
    ensures
        refusal_of(r) == bars_refusal(entries@, 0),
        r is Ok ==> bars_placed(r->Ok_0@, entries@, entries@.len() as int),
{
    let mut bars: [BarAddressConfig; 6] = [BarAddressConfig::GuestAssigned; 6];
    let mut i: usize = 0;
    while i < entries.len()
        invariant
            i <= entries@.len(),
            bars_refusal(entries@, 0) == bars_refusal(entries@, i as int),
            bars_placed(bars@, entries@, i as int),
            forall|k: int| 0 <= k < i ==> bar_refusal(entries@, k) is None,
        decreases entries@.len() - i,
    {
        let entry = entries[i];
        let mut index = String::new();
        push_decimal(&mut index, entry.bar_index as u128);
        assert(index@ =~= decimal(entry.bar_index as nat));
        if entry.bar_index >= 6 {
            return Err(
                refuse_quoting("VFIO BAR index ", index.as_str(), " is out of range"),
            );
        }
        let at: usize = entry.bar_index as usize;
        proof {
            if bars@[at as int] != BarAddressConfig::GuestAssigned {
                if forall|k: int| 0 <= k < i ==> (#[trigger] entries@[k]).bar_index != at {
                    assert(bars@[at as int] == BarAddressConfig::GuestAssigned);
                }
            } else {
                assert forall|k: int| 0 <= k < i implies (#[trigger] entries@[k]).bar_index
                    != entry.bar_index by {
                    assert(bars@[entries@[k].bar_index as int] == bar_config(entries@[k]));
                }
            }
        }
        if bars[at] != BarAddressConfig::GuestAssigned {
            return Err(refuse_naming("duplicate VFIO BAR index ", index.as_str()));
        }
        let placed = match entry.source {
            None => {
                return Err(refuse("missing VFIO BAR address source"));
            },
            Some(BarSource::Host) => BarAddressConfig::HostAssigned,
            Some(BarSource::Fixed(address)) => {
                if address == 0 {
                    return Err(refuse("VFIO BAR fixed address must be nonzero"));
                }
                BarAddressConfig::Fixed(address)
            },
        };
        let ghost before = bars@;
        bars[at] = placed;
        proof {
            assert forall|k: int| 0 <= k < i + 1 implies (#[trigger] entries@[k]).bar_index < 6
                && bars@[entries@[k].bar_index as int] == bar_config(entries@[k]) by {
                if k < i {
                    assert(before[entries@[k].bar_index as int] == bar_config(entries@[k]));
                }
            }
            assert forall|j: int|
                0 <= j < 6 && (forall|k: int|
                    0 <= k < i + 1 ==> (#[trigger] entries@[k]).bar_index != j) implies (
            #[trigger] bars@[j]) == BarAddressConfig::GuestAssigned by {
                assert(entries@[i as int].bar_index != j);
                assert(before[j] == BarAddressConfig::GuestAssigned);
            }
        }
        i += 1;
    }
    Ok(bars)
}

/// The text holds two dots in a row.
pub open spec fn has_double_dot(s: Seq<char>) -> bool {
    exists|i: int| 0 <= i && i + 1 < s.len() && #[trigger] s[i] == '.' && s[i + 1] == '.'
}

/// Whether a host PCI address stays a single name below a directory.
pub fn validate_pci_address(address: &str) -> (r: Result<(), Refusal>)
    ensures
        refusal_of(r) == (if address@.contains('/') || has_double_dot(address@) {
            Some("PCI address must not contain path separators"@)
        } else {
            None
        }),
{
    if contains_char(address, '/') {
        return Err(refuse("PCI address must not contain path separators"));
    }
    let chars = chars_of(address);
    let mut i: usize = 1;
    while i < chars.len()
        invariant
            1 <= i,
            chars@ == address@,
            i <= chars@.len() || chars@.len() == 0,
            !address@.contains('/'),
            forall|k: int|
                0 <= k && k + 1 < i && k + 1 < chars@.len() ==> !(#[trigger] chars@[k] == '.'
                    && chars@[k + 1] == '.'),
        decreases chars@.len() - i,
    {
        if chars[i - 1] == '.' && chars[i] == '.' {
            assert(address@[i - 1] == '.');
            return Err(refuse("PCI address must not contain path separators"));
        }
        i += 1;
    }
    Ok(())
}

/// The device file of an assigned device's group, given the name of the group.
pub fn vfio_group_path(group_name: Option<&str>) -> (r: Result<String, Refusal>)
    ensures
        match group_name {
            None => refusal_of(r) == Some("invalid iommu_group symlink"@),
            Some(name) => match parse_unsigned(name@, 10, u64::MAX as nat) {
                None => refusal_of(r) == Some("failed to parse IOMMU group ID"@),
                Some(id) => r is Ok && r->Ok_0@ == "/dev/vfio/"@ + decimal(id),
            },
        },
{
    let name = match group_name {
        Some(name) => name,
        None => return Err(refuse("invalid iommu_group symlink")),
    };
    match read_unsigned(name, 10, u64::MAX) {
        Some(id) => {
            let mut path = "/dev/vfio/".to_owned();
            push_decimal(&mut path, id as u128);
            Ok(path)
        },
        None => Err(refuse("failed to parse IOMMU group ID")),
    }
}

/// Where the descriptor of a TAP device comes from.
#[derive(Debug)]
pub enum TapSource {
    /// The device of this name is opened.
    Name(String),
    /// A descriptor was registered under this name.
    FdName(String),
}

/// A network backend as it is requested.
#[derive(Debug)]
pub enum NicBackend {
    /// A port of a host switch, by two identifiers.
    SwitchPort { switch: Option<Guid>, port: Option<Guid> },
    /// A host TAP device.
    Tap { source: Option<TapSource> },
    /// User-mode network address translation.
    Consomme { cidr: String, ports: Vec<PortRequest> },
    /// Any other backend.
    Other,
}

/// The endpoint that a network device is connected to.
#[derive(Debug)]
pub enum NicEndpoint {
    SwitchPort { switch: Guid, port: Guid },
    Tap { source: TapSource },
    Consomme { cidr: Option<String>, ports: Vec<HostPortConfig> },
}

/// Why a backend is refused on a host, if it is.
pub open spec fn backend_refusal(
    backend: Option<NicBackend>,
    host: HostOs,
    missing: Seq<char>,
    unsupported: Seq<char>,
) -> Option<Seq<char>> {
    match backend {
        None => Some(missing),
        Some(NicBackend::Other) => Some(unsupported),
        Some(NicBackend::SwitchPort { switch, port }) => if host != HostOs::Windows {
            Some(unsupported)
        } else if switch is None {
            Some("invalid switch ID"@)
        } else if port is None {
            Some("invalid port ID"@)
        } else {
            None
        },
        Some(NicBackend::Tap { source }) => if host != HostOs::Linux {
            Some(unsupported)
        } else if source is None {
            Some("missing tap source"@)
        } else {
            None
        },
        Some(NicBackend::Consomme { ports, .. }) => ports_refusal(ports@),
    }
}

/// The endpoint is the one that a backend describes.
pub open spec fn is_endpoint(endpoint: NicEndpoint, backend: NicBackend) -> bool {
    match (backend, endpoint) {
        (
            NicBackend::SwitchPort { switch, port },
            NicEndpoint::SwitchPort { switch: s, port: p },
        ) => switch == Some(s) && port == Some(p),
        (NicBackend::Tap { source }, NicEndpoint::Tap { source: s }) => source == Some(s),
        (
            NicBackend::Consomme { cidr, ports },
            NicEndpoint::Consomme { cidr: c, ports: p },
        ) => string_view(c) == (if cidr@.len() == 0 {
            None
        } else {
            Some(cidr@)
        }) && p@ == ports@.map_values(|p: PortRequest| port_config(p)),
        _ => false,
    }
}

fn build_endpoint(
    backend: Option<NicBackend>,
    host: HostOs,
    missing: &str,
    unsupported: &str,
) -> (r: Result<NicEndpoint, Refusal>)
    ensures
        refusal_of(r) == backend_refusal(backend, host, missing@, unsupported@),
        r is Ok ==> backend is Some && is_endpoint(r->Ok_0, backend->0),
{
    match backend {
        None => Err(refuse(missing)),
        Some(NicBackend::Other) => Err(refuse(unsupported)),
        Some(NicBackend::SwitchPort { switch, port }) => {
            if host != HostOs::Windows {
                return Err(refuse(unsupported));
            }
            let switch = match switch {
                Some(id) => id,
                None => return Err(refuse("invalid switch ID")),
            };
            let port = match port {
                Some(id) => id,
                None => return Err(refuse("invalid port ID")),
            };
            Ok(NicEndpoint::SwitchPort { switch, port })
        },
        Some(NicBackend::Tap { source }) => {
            if host != HostOs::Linux {
                return Err(refuse(unsupported));
            }
            match source {
                Some(source) => Ok(NicEndpoint::Tap { source }),
                None => Err(refuse("missing tap source")),
            }
        },
        Some(NicBackend::Consomme { cidr, ports }) => {
            let ports = match parse_ports(&ports) {
                Ok(ports) => ports,
                Err(e) => return Err(e),
            };
            let cidr: Option<String> = if cidr.as_str().is_empty() {
                None
            } else {
                Some(cidr)
            };
            Ok(NicEndpoint::Consomme { cidr, ports })
        },
    }
}

/// A VMBus network device as it is requested.
#[derive(Debug)]
pub struct NicRequest {
    pub backend: Option<NicBackend>,
    pub nic_id: Option<Guid>,
    pub mac_address: Option<MacAddress>,
}

/// A VMBus network device.
#[derive(Debug)]
pub struct NicPlan {
    pub instance_id: Guid,
    pub mac_address: MacAddress,
    pub endpoint: NicEndpoint,
}

/// Why a VMBus network device is refused, if it is.
pub open spec fn nic_refusal(nic: NicRequest, host: HostOs) -> Option<Seq<char>> {
    let backend = backend_refusal(
        nic.backend,
        host,
        "missing backend"@,
        "unsupported backend"@,
    );
    if backend is Some {
        backend
    } else if nic.nic_id is None {
        Some("invalid instance ID"@)
    } else if nic.mac_address is None {
        Some("invalid mac address"@)
    } else {
        None
    }
}

/// Reads a VMBus network device.
pub fn parse_nic_config(nic: NicRequest, host: HostOs) -> (r: Result<NicPlan, Refusal>)
    ensures
        refusal_of(r) == nic_refusal(nic, host),
        r is Ok ==> {
            &&& nic.nic_id == Some(r->Ok_0.instance_id)
            &&& nic.mac_address == Some(r->Ok_0.mac_address)
            &&& nic.backend is Some && is_endpoint(r->Ok_0.endpoint, nic.backend->0)
        },
{
    let endpoint = match build_endpoint(
        nic.backend,
        host,
        "missing backend",
        "unsupported backend",
    ) {
        Ok(endpoint) => endpoint,
        Err(e) => return Err(e),
    };
    let instance_id = match nic.nic_id {
        Some(id) => id,
        None => return Err(refuse("invalid instance ID")),
    };
    let mac_address = match nic.mac_address {
        Some(mac) => mac,
        None => return Err(refuse("invalid mac address")),
    };
    Ok(NicPlan { instance_id, mac_address, endpoint })
}

/// Builds the host endpoint of a virtio network device.
pub fn build_nic_backend(backend: Option<NicBackend>, host: HostOs) -> (r: Result<
    NicEndpoint,
    Refusal,
>)
    ensures
        refusal_of(r) == backend_refusal(
            backend,
            host,
            "missing network backend"@,
            "unsupported network backend"@,
        ),
        r is Ok ==> backend is Some && is_endpoint(r->Ok_0, backend->0),
{
    build_endpoint(backend, host, "missing network backend", "unsupported network backend")
}

/// A disk image and how it is opened.
#[derive(Debug)]
pub struct FileDisk {
    pub path: String,
    pub direct: bool,
}

/// A socket that a serial device is connected to, by binding or connecting.
#[derive(Debug)]
pub struct SerialRelay {
    pub socket_path: String,
    pub connect: bool,
}

/// A device served by another process.
#[derive(Debug)]
pub enum VhostUserDevice {
    Blk { num_queues: Option<u32>, queue_size: Option<u32> },
    Fs { tag: String, num_queues: Option<u32>, queue_size: Option<u32> },
    Other { device_id: u32, queue_sizes: Vec<u32> },
}

/// A virtio device function as it is requested. An inner `None` is a part that
/// the request left out.
#[derive(Debug)]
pub enum VirtioDeviceRequest {
    Blk { disk: Option<Option<FileDisk>>, read_only: bool },
    Net {
        max_queues: Option<u32>,
        backend: Option<Option<NicBackend>>,
        mac_address: Option<MacAddress>,
    },
    Rng,
    Vsock { socket_path: String },
    Console { relay: Option<Option<SerialRelay>> },
    VhostUser { socket_path: String, device: Option<Option<VhostUserDevice>> },
}

/// A virtio device function, ready to be opened.
#[derive(Debug)]
pub enum VirtioDevicePlan {
    Blk { disk: FileDisk, read_only: bool },
    Net { max_queues: Option<u16>, endpoint: NicEndpoint, mac_address: MacAddress },
    Rng,
    Vsock { guest_cid: u32, socket_path: String },
    Console { relay: SerialRelay },
    VhostUserBlk { socket_path: String, num_queues: Option<u16>, queue_size: Option<u16> },
    VhostUserFs {
        socket_path: String,
        tag: String,
        num_queues: Option<u16>,
        queue_size: Option<u16>,
    },
    VhostUserOther { socket_path: String, device_id: u16, queue_sizes: Vec<u16> },
}

/// The context identifier of a relayed socket device: any value that is not
/// reserved.
pub const VSOCK_GUEST_CID: u32 = 3;

pub open spec fn fits_u16(v: Option<u32>) -> bool {
    v is Some ==> v->0 <= 65535
}

pub open spec fn as_u16(v: Option<u32>) -> Option<u16> {
    match v {
        Some(v) => Some(v as u16),
        None => None,
    }
}

fn to_u16(v: Option<u32>) -> (r: Result<Option<u16>, Refusal>)
    ensures
        refusal_of(r) == (if fits_u16(v) {
            None
        } else {
            Some("queue value out of range"@)
        }),
        r is Ok ==> r->Ok_0 == as_u16(v),
{
    match v {
        None => Ok(None),
        Some(v) => {
            if v > 65535 {
                return Err(refuse("queue value out of range"));
            }
            Ok(Some(v as u16))
        },
    }
}

/// All queue sizes of a device fit their field.
pub open spec fn sizes_fit(sizes: Seq<u32>) -> bool {
    forall|i: int| 0 <= i < sizes.len() ==> #[trigger] sizes[i] <= 65535
}

fn to_u16_list(sizes: &Vec<u32>) -> (r: Result<Vec<u16>, Refusal>)
    ensures
        refusal_of(r) == (if sizes_fit(sizes@) {
            None
        } else {
            Some("queue value out of range"@)
        }),
        r is Ok ==> r->Ok_0@ == sizes@.map_values(|v: u32| v as u16),
{
    let mut out: Vec<u16> = Vec::new();
    let mut i: usize = 0;
    while i < sizes.len()
        invariant
            i <= sizes@.len(),
            out@.len() == i,
            forall|k: int| 0 <= k < i ==> #[trigger] sizes@[k] <= 65535,
            forall|k: int| 0 <= k < i ==> #[trigger] out@[k] == sizes@[k] as u16,
        decreases sizes@.len() - i,
    {
        if sizes[i] > 65535 {
            assert(!sizes_fit(sizes@));
            return Err(refuse("queue value out of range"));
        }
        out.push(sizes[i] as u16);
        i += 1;
    }
    assert(out@ =~= sizes@.map_values(|v: u32| v as u16));
    Ok(out)
}

/// Why a virtio device function is refused, if it is.
pub open spec fn virtio_refusal(device: Option<VirtioDeviceRequest>, host: HostOs) -> Option<
    Seq<char>,
> {
    let queues = Some("queue value out of range"@);
    match device {
        None => Some("missing virtio device kind"@),
        Some(VirtioDeviceRequest::Blk { disk, .. }) => match disk {
            None => Some("missing blk backend"@),
            Some(None) => Some("missing disk backend kind"@),
            Some(Some(_)) => None,
        },
        Some(VirtioDeviceRequest::Net { max_queues, backend, mac_address }) => match backend {
            None => Some("missing net backend"@),
            Some(inner) => {
                let refused = backend_refusal(
                    inner,
                    host,
                    "missing network backend"@,
                    "unsupported network backend"@,
                );
                if refused is Some {
                    refused
                } else if !fits_u16(max_queues) {
                    Some("max_queues out of range"@)
                } else if mac_address is None {
                    Some("invalid mac address"@)
                } else {
                    None
                }
            },
        },
        Some(VirtioDeviceRequest::Rng) => None,
        Some(VirtioDeviceRequest::Vsock { .. }) => None,
        Some(VirtioDeviceRequest::Console { relay }) => match relay {
            None => Some("missing console backend"@),
            Some(None) => Some("missing serial backend kind"@),
            Some(Some(_)) => None,
        },
        Some(VirtioDeviceRequest::VhostUser { .. }) if host == HostOs::Windows => Some(
            "vhost-user is only supported on unix hosts"@,
        ),
        Some(VirtioDeviceRequest::VhostUser { device, .. }) => match device {
            None => Some("missing vhost-user device"@),
            Some(None) => Some("missing vhost-user device kind"@),
            Some(Some(VhostUserDevice::Blk { num_queues, queue_size })) => if fits_u16(num_queues)
                && fits_u16(queue_size) {
                None
            } else {
                queues
            },
            Some(Some(VhostUserDevice::Fs { num_queues, queue_size, .. })) => if fits_u16(
                num_queues,
            ) && fits_u16(queue_size) {
                None
            } else {
                queues
            },
            Some(Some(VhostUserDevice::Other { device_id, queue_sizes })) => if device_id
                <= 65535 && sizes_fit(queue_sizes@) {
                None
            } else {
                queues
            },
        },
    }
}

/// The plan is the one that a request describes.
pub open spec fn is_virtio_plan(plan: VirtioDevicePlan, device: VirtioDeviceRequest) -> bool {
    match (device, plan) {
        (
            VirtioDeviceRequest::Blk { disk, read_only },
            VirtioDevicePlan::Blk { disk: d, read_only: r },
        ) => disk == Some(Some(d)) && read_only == r,
        (
            VirtioDeviceRequest::Net { max_queues, backend, mac_address },
            VirtioDevicePlan::Net { max_queues: q, endpoint, mac_address: m },
        ) => backend is Some && backend->0 is Some && is_endpoint(endpoint, backend->0->0) && q
            == as_u16(max_queues) && mac_address == Some(m),
        (VirtioDeviceRequest::Rng, VirtioDevicePlan::Rng) => true,
        (
            VirtioDeviceRequest::Vsock { socket_path },
            VirtioDevicePlan::Vsock { guest_cid, socket_path: p },
        ) => socket_path == p && guest_cid == VSOCK_GUEST_CID,
        (VirtioDeviceRequest::Console { relay }, VirtioDevicePlan::Console { relay: r }) => relay
            == Some(Some(r)),
        (VirtioDeviceRequest::VhostUser { socket_path, device }, plan) => match (
            device->0->0,
            plan,
        ) {
            (
                VhostUserDevice::Blk { num_queues, queue_size },
                VirtioDevicePlan::VhostUserBlk { socket_path: p, num_queues: n, queue_size: q },
            ) => p == socket_path && n == as_u16(num_queues) && q == as_u16(queue_size),
            (
                VhostUserDevice::Fs { tag, num_queues, queue_size },
                VirtioDevicePlan::VhostUserFs {
                    socket_path: p,
                    tag: t,
                    num_queues: n,
                    queue_size: q,
                },
            ) => p == socket_path && t == tag && n == as_u16(num_queues) && q == as_u16(
                queue_size,
            ),
            (
                VhostUserDevice::Other { device_id, queue_sizes },
                VirtioDevicePlan::VhostUserOther {
                    socket_path: p,
                    device_id: d,
                    queue_sizes: q,
                },
            ) => p == socket_path && d == device_id && q@ == queue_sizes@.map_values(
                |v: u32| v as u16,
            ),
            _ => false,
        },
        _ => false,
    }
}

fn plan_vhost_user(socket_path: String, device: VhostUserDevice) -> (r: Result<
    VirtioDevicePlan,
    Refusal,
>)
    ensures
        ({
            let request = VirtioDeviceRequest::VhostUser {
                socket_path,
                device: Some(Some(device)),
            };
            &&& refusal_of(r) == virtio_refusal(Some(request), HostOs::Linux)
            &&& r is Ok ==> is_virtio_plan(r->Ok_0, request)
        }),
{
    match device {
        VhostUserDevice::Blk { num_queues, queue_size } => {
            let num_queues: Option<u16> = match to_u16(num_queues) {
                Ok(v) => v,
                Err(e) => return Err(e),
            };
            let queue_size: Option<u16> = match to_u16(queue_size) {
                Ok(v) => v,
                Err(e) => return Err(e),
            };
            Ok(VirtioDevicePlan::VhostUserBlk { socket_path, num_queues, queue_size })
        },
        VhostUserDevice::Fs { tag, num_queues, queue_size } => {
            let num_queues: Option<u16> = match to_u16(num_queues) {
                Ok(v) => v,
                Err(e) => return Err(e),
            };
            let queue_size: Option<u16> = match to_u16(queue_size) {
                Ok(v) => v,
                Err(e) => return Err(e),
            };
            Ok(VirtioDevicePlan::VhostUserFs { socket_path, tag, num_queues, queue_size })
        },
        VhostUserDevice::Other { device_id, queue_sizes } => {
            if device_id > 65535 {
                return Err(refuse("queue value out of range"));
            }
            let queue_sizes: Vec<u16> = match to_u16_list(&queue_sizes) {
                Ok(v) => v,
                Err(e) => return Err(e),
            };
            Ok(
                VirtioDevicePlan::VhostUserOther {
                    socket_path,
                    device_id: device_id as u16,
                    queue_sizes,
                },
            )
        },
    }
}

/// Decides how a virtio device function is built.
pub fn build_virtio_device(device: Option<VirtioDeviceRequest>, host: HostOs) -> (r: Result<
    VirtioDevicePlan,
    Refusal,
>)
    ensures
        refusal_of(r) == virtio_refusal(device, host),
        r is Ok ==> device is Some && is_virtio_plan(r->Ok_0, device->0),
{
    let device = match device {
        Some(device) => device,
        None => return Err(refuse("missing virtio device kind")),
    };
    match device {
        VirtioDeviceRequest::Blk { disk, read_only } => match disk {
            None => Err(refuse("missing blk backend")),
            Some(None) => Err(refuse("missing disk backend kind")),
            Some(Some(disk)) => Ok(VirtioDevicePlan::Blk { disk, read_only }),
        },
        VirtioDeviceRequest::Net { max_queues, backend, mac_address } => {
            let inner = match backend {
                None => return Err(refuse("missing net backend")),
                Some(inner) => inner,
            };
            let endpoint = match build_nic_backend(inner, host) {
                Ok(endpoint) => endpoint,
                Err(e) => return Err(e),
            };
            let max_queues: Option<u16> = match max_queues {
                None => None,
                Some(q) => {
                    if q > 65535 {
                        return Err(refuse("max_queues out of range"));
                    }
                    Some(q as u16)
                },
            };
            let mac_address = match mac_address {
                Some(mac) => mac,
                None => return Err(refuse("invalid mac address")),
            };
            Ok(VirtioDevicePlan::Net { max_queues, endpoint, mac_address })
        },
        VirtioDeviceRequest::Rng => Ok(VirtioDevicePlan::Rng),
        VirtioDeviceRequest::Vsock { socket_path } => Ok(
            VirtioDevicePlan::Vsock { guest_cid: VSOCK_GUEST_CID, socket_path },
        ),
        VirtioDeviceRequest::Console { relay } => match relay {
            None => Err(refuse("missing console backend")),
            Some(None) => Err(refuse("missing serial backend kind")),
            Some(Some(relay)) => Ok(VirtioDevicePlan::Console { relay }),
        },
        VirtioDeviceRequest::VhostUser { .. } if host == HostOs::Windows => Err(
            refuse("vhost-user is only supported on unix hosts"),
        ),
        VirtioDeviceRequest::VhostUser { socket_path, device } => match device {
            None => Err(refuse("missing vhost-user device")),
            Some(None) => Err(refuse("missing vhost-user device kind")),
            Some(Some(device)) => plan_vhost_user(socket_path, device),
        },
    }
}

/// A namespace of an NVMe controller as it is requested.
#[derive(Debug)]
pub struct NvmeNamespaceRequest {
    pub nsid: u32,
    pub read_only: bool,
    pub disk: Option<Option<FileDisk>>,
}

/// A namespace of an NVMe controller.
#[derive(Debug)]
pub struct NvmeNamespacePlan {
    pub nsid: u32,
    pub read_only: bool,
    pub disk: FileDisk,
}

/// An NVMe controller.
#[derive(Debug)]
pub struct NvmePlan {
    pub msix_count: u16,
    pub max_io_queues: u16,
    pub namespaces: Vec<NvmeNamespacePlan>,
}

pub const NVME_MSIX_COUNT: u16 = 64;

pub const NVME_MAX_IO_QUEUES: u16 = 64;

/// The first refusal among some namespaces.
pub open spec fn nvme_refusal(namespaces: Seq<NvmeNamespaceRequest>) -> Option<Seq<char>>
    decreases namespaces.len(),
{
    if namespaces.len() == 0 {
        None
    } else {
        match namespaces[0].disk {
            None => Some("missing namespace backend"@),
            Some(None) => Some("missing disk backend kind"@),
            Some(Some(_)) => nvme_refusal(namespaces.skip(1)),
        }
    }
}

/// The namespace that a request describes.
pub open spec fn nvme_namespace(request: NvmeNamespaceRequest) -> NvmeNamespacePlan {
    NvmeNamespacePlan {
        nsid: request.nsid,
        read_only: request.read_only,
        disk: request.disk->0->0,
    }
}

/// The controller has the namespaces that are requested.
pub open spec fn is_nvme_plan(plan: NvmePlan, namespaces: Seq<NvmeNamespaceRequest>) -> bool {
    &&& plan.msix_count == NVME_MSIX_COUNT
    &&& plan.max_io_queues == NVME_MAX_IO_QUEUES
    &&& plan.namespaces@ == namespaces.map_values(|n: NvmeNamespaceRequest| nvme_namespace(n))
}

/// Decides how an NVMe controller is built.
pub fn build_nvme_controller(namespaces: Vec<NvmeNamespaceRequest>) -> (r: Result<
    NvmePlan,
    Refusal,
>)
    ensures
        refusal_of(r) == nvme_refusal(namespaces@),
        r is Ok ==> is_nvme_plan(r->Ok_0, namespaces@),
{
    let ghost all = namespaces@;
    let mut rest = namespaces;
    let mut reversed: Vec<NvmeNamespaceRequest> = Vec::new();
    while rest.len() > 0
        invariant
            rest@.len() + reversed@.len() == all.len(),
            forall|k: int| 0 <= k < rest@.len() ==> #[trigger] rest@[k] == all[k],
            forall|k: int|
                0 <= k < reversed@.len() ==> #[trigger] reversed@[k] == all[all.len() - 1 - k],
        decreases rest@.len(),
    {
        match rest.pop() {
            Some(namespace) => {
                reversed.push(namespace);
            },
            None => {},
        }
    }
    let mut out: Vec<NvmeNamespacePlan> = Vec::new();
    assert(all.skip(0) =~= all);
    while reversed.len() > 0
        invariant
            all == namespaces@,
            reversed@.len() + out@.len() == all.len(),
            forall|k: int|
                0 <= k < reversed@.len() ==> #[trigger] reversed@[k] == all[all.len() - 1 - k],
            forall|k: int| 0 <= k < out@.len() ==> #[trigger] out@[k] == nvme_namespace(all[k]),
            nvme_refusal(all) == nvme_refusal(all.skip(out@.len() as int)),
        decreases reversed@.len(),
    {
        let ghost at = out@.len() as int;
        proof {
            assert(reversed@[reversed@.len() - 1] == all[at]);
            assert(all.skip(at)[0] == all[at]);
            assert(all.skip(at).skip(1) =~= all.skip(at + 1));
        }
        match reversed.pop() {
            Some(namespace) => match namespace.disk {
                None => return Err(refuse("missing namespace backend")),
                Some(None) => return Err(refuse("missing disk backend kind")),
                Some(Some(disk)) => {
                    out.push(
                        NvmeNamespacePlan {
                            nsid: namespace.nsid,
                            read_only: namespace.read_only,
                            disk,
                        },
                    );
                },
            },
            None => {},
        }
    }
    assert(out@ =~= all.map_values(|n: NvmeNamespaceRequest| nvme_namespace(n)));
    Ok(
        NvmePlan {
            msix_count: NVME_MSIX_COUNT,
            max_io_queues: NVME_MAX_IO_QUEUES,
            namespaces: out,
        },
    )
}

/// A device assigned from the host.
#[derive(Debug)]
pub struct VfioPlan {
    /// The link that names the group of the device.
    pub group_link: String,
    pub bar_addresses: [BarAddressConfig; 6],
}

/// Why an assigned device is refused, if it is.
pub open spec fn vfio_refusal(
    address: Seq<char>,
    entries: Seq<VfioBarAddress>,
    host: HostOs,
) -> Option<Seq<char>> {
    if host != HostOs::Linux {
        Some("VFIO device assignment is only supported on Linux"@)
    } else if bars_refusal(entries, 0) is Some {
        bars_refusal(entries, 0)
    } else if address.contains('/') || has_double_dot(address) {
        Some("PCI address must not contain path separators"@)
    } else {
        None
    }
}

/// Decides how a device is assigned from the host. Its address stays a single
/// name below the directory of PCI devices.
pub fn build_vfio_device(address: &str, entries: &Vec<VfioBarAddress>, host: HostOs) -> (r: Result<
    VfioPlan,
    Refusal,
>)
    ensures
        refusal_of(r) == vfio_refusal(address@, entries@, host),
        r is Ok ==> {
            &&& r->Ok_0.group_link@ == "/sys/bus/pci/devices/"@ + address@ + "/iommu_group"@
            &&& bars_placed(r->Ok_0.bar_addresses@, entries@, entries@.len() as int)
        },
{
    if host != HostOs::Linux {
        return Err(refuse("VFIO device assignment is only supported on Linux"));
    }
    let bar_addresses: [BarAddressConfig; 6] = match parse_vfio_bar_addresses(entries) {
        Ok(bars) => bars,
        Err(e) => return Err(e),
    };
    match validate_pci_address(address) {
        Ok(()) => {},
        Err(e) => return Err(e),
    }
    let mut group_link = "/sys/bus/pci/devices/".to_owned();
    push_text(&mut group_link, address);
    push_text(&mut group_link, "/iommu_group");
    Ok(VfioPlan { group_link, bar_addresses })
}

/// A device function behind a PCIe port as it is requested.
#[derive(Debug)]
pub enum PcieDeviceRequest {
    /// A virtio function, unless its kind was left out.
    Virtio(Option<VirtioDeviceRequest>),
    /// An NVMe controller, by its namespaces.
    Nvme(Vec<NvmeNamespaceRequest>),
    /// A device of the host, by its address and where its registers go.
    Vfio { host_pci_address: String, bar_addresses: Vec<VfioBarAddress> },
}

/// A device function behind a PCIe port.
#[derive(Debug)]
pub enum PcieDevicePlan {
    Virtio(VirtioDevicePlan),
    Nvme(NvmePlan),
    Vfio(VfioPlan),
}

/// Why a device function is refused, if it is.
pub open spec fn pcie_device_refusal(
    device: Option<PcieDeviceRequest>,
    host: HostOs,
) -> Option<Seq<char>> {
    match device {
        None => Some("missing PCIe device kind"@),
        Some(PcieDeviceRequest::Virtio(virtio)) => virtio_refusal(virtio, host),
        Some(PcieDeviceRequest::Nvme(namespaces)) => nvme_refusal(namespaces@),
        Some(PcieDeviceRequest::Vfio { host_pci_address, bar_addresses }) => vfio_refusal(
            host_pci_address@,
            bar_addresses@,
            host,
        ),
    }
}

/// The device function is the one that is requested.
pub open spec fn is_pcie_device(plan: PcieDevicePlan, device: PcieDeviceRequest) -> bool {
    match device {
        PcieDeviceRequest::Virtio(virtio) => virtio is Some && (plan matches PcieDevicePlan::Virtio(
            p,
        ) && is_virtio_plan(p, virtio->0)),
        PcieDeviceRequest::Nvme(namespaces) => plan matches PcieDevicePlan::Nvme(p) && is_nvme_plan(
            p,
            namespaces@,
        ),
        PcieDeviceRequest::Vfio { host_pci_address, bar_addresses } => {
            plan matches PcieDevicePlan::Vfio(p) && p.group_link@ == "/sys/bus/pci/devices/"@
                + host_pci_address@ + "/iommu_group"@ && bars_placed(
                p.bar_addresses@,
                bar_addresses@,
                bar_addresses@.len() as int,
            )
        },
    }
}

/// Decides how a device function behind a PCIe port is built.
pub fn build_pcie_device(device: Option<PcieDeviceRequest>, host: HostOs) -> (r: Result<
    PcieDevicePlan,
    Refusal,
>)
    ensures
        refusal_of(r) == pcie_device_refusal(device, host),
        r is Ok ==> device is Some && is_pcie_device(r->Ok_0, device->0),
{
    match device {
        None => Err(refuse("missing PCIe device kind")),
        Some(PcieDeviceRequest::Virtio(virtio)) => match build_virtio_device(virtio, host) {
            Ok(plan) => Ok(PcieDevicePlan::Virtio(plan)),
            Err(e) => Err(e),
        },
        Some(PcieDeviceRequest::Nvme(namespaces)) => match build_nvme_controller(namespaces) {
            Ok(plan) => Ok(PcieDevicePlan::Nvme(plan)),
            Err(e) => Err(e),
        },
        Some(PcieDeviceRequest::Vfio { host_pci_address, bar_addresses }) => {
            match build_vfio_device(host_pci_address.as_str(), &bar_addresses, host) {
                Ok(plan) => Ok(PcieDevicePlan::Vfio(plan)),
                Err(e) => Err(e),
            }
        },
    }
}

/// The first refusal among some device functions.
pub open spec fn pcie_devices_refusal(
    pending: Seq<(String, Option<PcieDeviceRequest>)>,
    host: HostOs,
) -> Option<Seq<char>>
    decreases pending.len(),
{
    if pending.len() == 0 {
        None
    } else {
        match pcie_device_refusal(pending[0].1, host) {
            Some(text) => Some(text),
            None => pcie_devices_refusal(pending.skip(1), host),
        }
    }
}

/// A device function is the one that is requested behind its port.
pub open spec fn is_pcie_entry(
    built: (String, PcieDevicePlan),
    pending: (String, Option<PcieDeviceRequest>),
) -> bool {
    &&& built.0 == pending.0
    &&& pending.1 is Some
    &&& is_pcie_device(built.1, pending.1->0)
}

/// Each device function is the one that is requested behind its port.
pub open spec fn are_pcie_devices(
    built: Seq<(String, PcieDevicePlan)>,
    pending: Seq<(String, Option<PcieDeviceRequest>)>,
) -> bool {
    &&& built.len() == pending.len()
    &&& forall|i: int|
        0 <= i < pending.len() ==> is_pcie_entry(#[trigger] built[i], pending[i])
}

/// Decides how the device functions that a walk of the topology found are built,
/// each behind its port and in the order in which they were found.
pub fn build_pcie_devices(pending: Vec<(String, Option<PcieDeviceRequest>)>, host: HostOs) -> (r:
    Result<Vec<(String, PcieDevicePlan)>, Refusal>)
    ensures
        refusal_of(r) == pcie_devices_refusal(pending@, host),
        r is Ok ==> are_pcie_devices(r->Ok_0@, pending@),
{
    let ghost all = pending@;
    let mut rest = pending;
    let mut reversed: Vec<(String, Option<PcieDeviceRequest>)> = Vec::new();
    while rest.len() > 0
        invariant
            rest@.len() + reversed@.len() == all.len(),
            forall|k: int| 0 <= k < rest@.len() ==> #[trigger] rest@[k] == all[k],
            forall|k: int|
                0 <= k < reversed@.len() ==> #[trigger] reversed@[k] == all[all.len() - 1 - k],
        decreases rest@.len(),
    {
        match rest.pop() {
            Some(device) => {
                reversed.push(device);
            },
            None => {},
        }
    }
    let mut out: Vec<(String, PcieDevicePlan)> = Vec::new();
    assert(all.skip(0) =~= all);
    while reversed.len() > 0
        invariant
            all == pending@,
            reversed@.len() + out@.len() == all.len(),
            forall|k: int|
                0 <= k < reversed@.len() ==> #[trigger] reversed@[k] == all[all.len() - 1 - k],
            forall|k: int|
                0 <= k < out@.len() ==> is_pcie_entry(#[trigger] out@[k], all[k]),
            pcie_devices_refusal(all, host) == pcie_devices_refusal(
                all.skip(out@.len() as int),
                host,
            ),
        decreases reversed@.len(),
    {
        let ghost at = out@.len() as int;
        proof {
            assert(all.skip(at)[0] == all[at]);
            assert(all.skip(at).skip(1) =~= all.skip(at + 1));
            assert(reversed@[reversed@.len() - 1] == all[at]);
        }
        match reversed.pop() {
            Some((port, device)) => {
                match build_pcie_device(device, host) {
                    Ok(plan) => {
                        assert(is_pcie_entry((port, plan), all[at]));
                        out.push((port, plan));
                    },
                    Err(e) => return Err(e),
                }
            },
            None => {},
        }
    }
    assert(all.skip(out@.len() as int).len() == 0);
    assert(are_pcie_devices(out@, pending@));
    Ok(out)
}

/// The verb for opening a socket, for messages.
pub fn open_socket_verb(connect: bool) -> (s: &'static str)
    ensures
        s@ == (if connect {
            "connect to"@
        } else {
            "bind"@
        }),
{
    if connect {
        "connect to"
    } else {
        "bind"
    }
}

} // verus!
