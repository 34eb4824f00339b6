//! The network devices of a launched machine.

use vstd::prelude::*;

use crate::config::{DeviceVtl, Guid, HostOs, MicrovmNetworkConfig};
use crate::devices::HostPortProtocol;
use crate::entropy::random_bytes;
use crate::grouping::{group_by_text, grouped, Groups};
use crate::net::{Ipv4Address, MacAddress};
use crate::refusal::{refusal_of, refuse, Refusal};

verus! {

/// The identifier with this first part and the rest of another.
pub open spec fn is_numbered(guid: Guid, number: u32, base: Guid) -> bool {
    guid == (Guid { data1: number, ..base })
}

fn numbered(number: u32, base: Guid) -> (guid: Guid)
    ensures
        is_numbered(guid, number, base),
{
    Guid { data1: number, data2: base.data2, data3: base.data3, data4: base.data4 }
}

/// Identifiers that are numbered alike from one base are the same only where
/// their numbers are.
pub proof fn law_numbered_identifiers_differ(a: Guid, b: Guid, m: u32, n: u32, base: Guid)
    requires
        is_numbered(a, m, base),
        is_numbered(b, n, base),
        a == b,
    ensures
        m == n,
{
}

/// The identifier that network devices are numbered from:
/// `00000000-da43-11ed-936a-00155d6db52f`.
pub open spec fn is_nic_base(guid: Guid) -> bool {
    &&& guid.data1 == 0 && guid.data2 == 0xda43 && guid.data3 == 0x11ed
    &&& guid.data4@ == seq![0x93u8, 0x6a, 0x00, 0x15, 0x5d, 0x6d, 0xb5, 0x2f]
}

/// The identifier that remote PCIe devices are numbered from:
/// `28ed784d-c059-429f-9d9a-46bea02562c0`.
pub open spec fn is_pcie_remote_base(guid: Guid) -> bool {
    &&& guid.data1 == 0x28ed784d && guid.data2 == 0xc059 && guid.data3 == 0x429f
    &&& guid.data4@ == seq![0x9du8, 0x9a, 0x46, 0xbe, 0xa0, 0x25, 0x62, 0xc0]
}

/// The identifier that in-kernel network devices are numbered from:
/// `00000000-435d-11ee-9f59-00155d5016fc`.
pub open spec fn is_kernel_nic_base(guid: Guid) -> bool {
    &&& guid.data1 == 0 && guid.data2 == 0x435d && guid.data3 == 0x11ee
    &&& guid.data4@ == seq![0x9fu8, 0x59, 0x00, 0x15, 0x5d, 0x50, 0x16, 0xfc]
}

/// The identifier that socket ports are embedded in:
/// `00000000-facb-11e6-bd58-64006a7986d3`.
pub open spec fn is_hvsock_base(guid: Guid) -> bool {
    &&& guid.data1 == 0 && guid.data2 == 0xfacb && guid.data3 == 0x11e6
    &&& guid.data4@ == seq![0xbdu8, 0x58, 0x64, 0x00, 0x6a, 0x79, 0x86, 0xd3]
}

fn nic_base() -> (guid: Guid)
    ensures
        is_nic_base(guid),
{
    let guid = Guid {
        data1: 0,
        data2: 0xda43,
        data3: 0x11ed,
        data4: [0x93, 0x6a, 0x00, 0x15, 0x5d, 0x6d, 0xb5, 0x2f],
    };
    assert(guid.data4@ =~= seq![0x93u8, 0x6a, 0x00, 0x15, 0x5d, 0x6d, 0xb5, 0x2f]);
    guid
}

/// The identifier of the network device at an index.
pub fn nic_instance_id(index: usize) -> (guid: Guid)
    ensures
        guid.data1 == index as u32,
        is_nic_base(Guid { data1: 0, ..guid }),
{
    numbered(index as u32, nic_base())
}

/// The identifier of the remote PCIe device at an index.
pub fn pcie_remote_instance_id(index: usize) -> (guid: Guid)
    ensures
        guid.data1 == index as u32,
        is_pcie_remote_base(Guid { data1: 0x28ed784d, ..guid }),
{
    let base = Guid {
        data1: 0x28ed784d,
        data2: 0xc059,
        data3: 0x429f,
        data4: [0x9d, 0x9a, 0x46, 0xbe, 0xa0, 0x25, 0x62, 0xc0],
    };
    assert(base.data4@ =~= seq![0x9du8, 0x9a, 0x46, 0xbe, 0xa0, 0x25, 0x62, 0xc0]);
    numbered(index as u32, base)
}

/// The identifier of the in-kernel network device at an index.
pub fn kernel_nic_instance_id(index: usize) -> (guid: Guid)
    ensures
        guid.data1 == index as u32,
        is_kernel_nic_base(Guid { data1: 0, ..guid }),
{
    let base = Guid {
        data1: 0,
        data2: 0x435d,
        data3: 0x11ee,
        data4: [0x9f, 0x59, 0x00, 0x15, 0x5d, 0x50, 0x16, 0xfc],
    };
    assert(base.data4@ =~= seq![0x9fu8, 0x59, 0x00, 0x15, 0x5d, 0x50, 0x16, 0xfc]);
    numbered(index as u32, base)
}

/// The service identifier that a socket port is embedded in.
pub fn new_hvsock_service_id(port: u32) -> (guid: Guid)
    ensures
        guid.data1 == port,
        is_hvsock_base(Guid { data1: 0, ..guid }),
{
    let base = Guid {
        data1: 0,
        data2: 0xfacb,
        data3: 0x11e6,
        data4: [0xbd, 0x58, 0x64, 0x00, 0x6a, 0x79, 0x86, 0xd3],
    };
    assert(base.data4@ =~= seq![0xbdu8, 0x58, 0x64, 0x00, 0x6a, 0x79, 0x86, 0xd3]);
    numbered(port, base)
}

/// The address of a network device, from the bytes that tell it apart.
pub fn nic_mac_address(tail: [u8; 3]) -> (mac: MacAddress)
    ensures
        mac.octets@ == seq![0x00u8, 0x15, 0x5d, tail@[0], tail@[1], tail@[2]],
{
    let mac = MacAddress { octets: [0x00, 0x15, 0x5d, tail[0], tail[1], tail[2]] };
    assert(mac.octets@ =~= seq![0x00u8, 0x15, 0x5d, tail@[0], tail@[1], tail@[2]]);
    mac
}

/// A fresh address for a network device: what `mac_address_from_random` makes of
/// three random bytes. Those are its last three, so only the first three are
/// pinned.
pub fn random_mac_address() -> (r: Result<MacAddress, Refusal>)
    ensures
        r is Err ==> r->Err_0@ == "rng failure"@,
        r is Ok ==> r->Ok_0.octets@.take(3) == seq![0x00u8, 0x15, 0x5d],
{
    let r = mac_address_from_random(random_bytes(3));
    assert(r is Ok ==> r->Ok_0.octets@.take(3) =~= seq![0x00u8, 0x15, 0x5d]);
    r
}

/// The address that the random source's answer makes: its three bytes as they are,
/// behind the fixed ones.
pub fn mac_address_from_random(bytes: Option<Vec<u8>>) -> (r: Result<MacAddress, Refusal>)
    requires
        bytes is Some ==> bytes->0@.len() == 3,
    ensures
        match bytes {
            None => refusal_of(r) == Some("rng failure"@),
            Some(bytes) => r is Ok && r->Ok_0.octets@ == seq![0x00u8, 0x15, 0x5d] + bytes@,
        },
{
    match bytes {
        None => Err(refuse("rng failure")),
        Some(bytes) => {
            let mac = nic_mac_address([bytes[0], bytes[1], bytes[2]]);
            assert(mac.octets@ =~= seq![0x00u8, 0x15, 0x5d] + bytes@);
            Ok(mac)
        },
    }
}

/// An address of the host.
#[derive(Clone, Copy, Debug)]
pub enum HostIpAddress {
    V4(Ipv4Address),
    V6([u8; 16]),
}

/// A port that is forwarded from the host.
#[derive(Clone, Copy, Debug)]
pub struct HostForward {
    pub protocol: HostPortProtocol,
    pub host_address: Option<HostIpAddress>,
    pub host_port: u16,
    pub guest_port: u16,
}

/// What a network device is asked to be connected to.
#[derive(Debug)]
pub enum EndpointRequest {
    Consomme { cidr: Option<String>, host_fwd: Vec<HostForward> },
    /// Nothing.
    Null,
    /// A new port of a host switch, or of the default one.
    Dio { id: Option<String> },
    Tap { name: String },
    /// The network of a microVM.
    Microvm,
}

/// What a network device is connected to.
#[derive(Debug)]
pub enum EndpointPlan {
    /// User-mode network address translation. Where it is bindable, its ports can
    /// be changed while the machine runs.
    Consomme { cidr: Option<String>, ports: Vec<HostForward>, bindable: bool },
    Null,
    SwitchPort { id: Option<String> },
    Tap { name: String },
}

/// Why an endpoint is refused on a host, if it is.
pub open spec fn endpoint_refusal(endpoint: EndpointRequest, host: HostOs) -> Option<Seq<char>> {
    match endpoint {
        EndpointRequest::Consomme { .. } => None,
        EndpointRequest::Null => None,
        EndpointRequest::Dio { .. } => if host == HostOs::Windows {
            None
        } else {
            Some("cannot use dio on non-windows platforms"@)
        },
        EndpointRequest::Tap { .. } => if host == HostOs::Linux {
            None
        } else {
            Some("TAP backend is only supported on Linux"@)
        },
        EndpointRequest::Microvm => Some(
            "a bare IPv4/prefix --net is only supported by the microVM profile"@,
        ),
    }
}

/// The endpoint that a request describes. Only the first that translates
/// addresses in user mode is bindable.
pub open spec fn planned_endpoint(endpoint: EndpointRequest, bound: bool) -> EndpointPlan {
    match endpoint {
        EndpointRequest::Consomme { cidr, host_fwd } => EndpointPlan::Consomme {
            cidr,
            ports: host_fwd,
            bindable: !bound,
        },
        EndpointRequest::Dio { id } => EndpointPlan::SwitchPort { id },
        EndpointRequest::Tap { name } => EndpointPlan::Tap { name },
        _ => EndpointPlan::Null,
    }
}

fn plan_endpoint(endpoint: EndpointRequest, bound: bool, host: HostOs) -> (r: Result<
    EndpointPlan,
    Refusal,
>)
    ensures
        refusal_of(r) == endpoint_refusal(endpoint, host),
        r is Ok ==> r->Ok_0 == planned_endpoint(endpoint, bound),
{
    match endpoint {
        EndpointRequest::Consomme { cidr, host_fwd } => Ok(
            EndpointPlan::Consomme { cidr, ports: host_fwd, bindable: !bound },
        ),
        EndpointRequest::Null => Ok(EndpointPlan::Null),
        EndpointRequest::Dio { id } => {
            if host != HostOs::Windows {
                return Err(refuse("cannot use dio on non-windows platforms"));
            }
            Ok(EndpointPlan::SwitchPort { id })
        },
        EndpointRequest::Tap { name } => {
            if host != HostOs::Linux {
                return Err(refuse("TAP backend is only supported on Linux"));
            }
            Ok(EndpointPlan::Tap { name })
        },
        EndpointRequest::Microvm => Err(
            refuse("a bare IPv4/prefix --net is only supported by the microVM profile"),
        ),
    }
}

/// A network device as it is asked for.
#[derive(Debug)]
pub struct NicConfigCli {
    pub vtl: DeviceVtl,
    pub endpoint: EndpointRequest,
    pub max_queues: Option<u16>,
    pub pcie_port: Option<String>,
}

/// A network device.
#[derive(Debug)]
pub struct NicConfig {
    pub vtl: DeviceVtl,
    pub instance_id: Guid,
    pub mac_address: MacAddress,
    pub endpoint: EndpointPlan,
    pub max_queues: Option<u16>,
    pub pcie_port: Option<String>,
}

/// How far the network devices of a machine have been numbered, and whether one
/// of them is bindable.
#[derive(Clone, Copy, Debug, PartialEq, Eq, Structural)]
pub struct NicCounter {
    pub next: usize,
    pub bound: bool,
}

/// The network device is the one that is asked for, at an index.
pub open spec fn is_nic(
    nic: NicConfig,
    cli: NicConfigCli,
    counter: NicCounter,
    mac: MacAddress,
) -> bool {
    &&& nic.vtl == cli.vtl
    &&& nic.instance_id.data1 == counter.next as u32
    &&& is_nic_base(Guid { data1: 0, ..nic.instance_id })
    &&& nic.mac_address == mac
    &&& nic.endpoint == planned_endpoint(cli.endpoint, counter.bound)
    &&& nic.max_queues == cli.max_queues
    &&& nic.pcie_port == cli.pcie_port
}

/// Decides a network device that has a given address, and counts it.
pub fn numbered_nic(cli: NicConfigCli, counter: &mut NicCounter, mac: MacAddress, host: HostOs) -> (
    r: Result<NicConfig, Refusal>)
    requires
        old(counter).next < usize::MAX,
    ensures
        refusal_of(r) == endpoint_refusal(cli.endpoint, host),
        r is Ok ==> {
            &&& is_nic(r->Ok_0, cli, *old(counter), mac)
            &&& final(counter).next == old(counter).next + 1
            &&& final(counter).bound == (old(counter).bound || cli.endpoint is Consomme)
        },
        r is Err ==> *final(counter) == *old(counter),
{
    let consomme = match &cli.endpoint {
        EndpointRequest::Consomme { .. } => true,
        _ => false,
    };
    let endpoint = match plan_endpoint(cli.endpoint, counter.bound, host) {
        Ok(endpoint) => endpoint,
        Err(e) => return Err(e),
    };
    let instance_id = nic_instance_id(counter.next);
    counter.next = counter.next + 1;
    if consomme {
        counter.bound = true;
    }
    Ok(
        NicConfig {
            vtl: cli.vtl,
            instance_id,
            mac_address: mac,
            endpoint,
            max_queues: cli.max_queues,
            pcie_port: cli.pcie_port,
        },
    )
}

/// Decides a network device and counts it. Its address is fresh, so only the
/// first half of the address is pinned.
pub fn parse_endpoint(cli: NicConfigCli, counter: &mut NicCounter, host: HostOs) -> (r: Result<
    NicConfig,
    Refusal,
>)
    requires
        old(counter).next < usize::MAX,
    ensures
        match r {
            Ok(nic) => {
                &&& endpoint_refusal(cli.endpoint, host) is None
                &&& is_nic(nic, cli, *old(counter), nic.mac_address)
                &&& nic.mac_address.octets@.take(3) == seq![0x00u8, 0x15, 0x5d]
                &&& final(counter).next == old(counter).next + 1
                &&& final(counter).bound == (old(counter).bound || cli.endpoint is Consomme)
            },
            Err(e) => {
                &&& *final(counter) == *old(counter)
                &&& if endpoint_refusal(cli.endpoint, host) is Some {
                    endpoint_refusal(cli.endpoint, host) == Some(e@)
                } else {
                    e@ == "rng failure"@
                }
            },
        },
{
    match random_mac_address() {
        Ok(mac) => numbered_nic(cli, counter, mac, host),
        Err(e) => {
            match plan_endpoint(cli.endpoint, counter.bound, host) {
                Ok(_) => Err(e),
                Err(refused) => Err(refused),
            }
        },
    }
}

/// The static address of a microVM's network.
#[derive(Clone, Copy, Debug)]
pub struct StaticIpv4 {
    pub guest_ipv4: Ipv4Address,
    pub prefix_length: u8,
    pub gateway_ipv4: Ipv4Address,
    pub gateway_mac: MacAddress,
}

/// The endpoint of a microVM's network: user-mode address translation with a
/// static address, without a range of its own and without forwarded ports.
pub fn microvm_network_endpoint(network: &MicrovmNetworkConfig) -> (r: StaticIpv4)
    ensures
        r.guest_ipv4 == network.guest_ipv4,
        r.prefix_length == network.prefix_length,
        r.gateway_ipv4 == network.derived_gateway_ipv4,
        r.gateway_mac == network.gateway_mac,
{
    StaticIpv4 {
        guest_ipv4: network.guest_ipv4,
        prefix_length: network.prefix_length,
        gateway_ipv4: network.derived_gateway_ipv4,
        gateway_mac: network.gateway_mac,
    }
}

/// Checks a network device that is attached by VMBus.
pub fn check_vmbus_nic(pcie_port: bool) -> (r: Result<(), Refusal>)
    ensures
        refusal_of(r) == (if pcie_port {
            Some("`--net` does not support PCIe"@)
        } else {
            None
        }),
{
    if pcie_port {
        return Err(refuse("`--net` does not support PCIe"));
    }
    Ok(())
}

/// Checks a network device that is offered to the paravisor.
pub fn check_paravisor_nic(underhill: bool, no_alias_map: bool) -> (r: Result<(), Refusal>)
    ensures
        refusal_of(r) == (if underhill && !no_alias_map {
            Some("must specify --no-alias-map to offer NICs to VTL2"@)
        } else {
            None
        }),
{
    if underhill && !no_alias_map {
        return Err(refuse("must specify --no-alias-map to offer NICs to VTL2"));
    }
    Ok(())
}

/// Checks a virtio network device.
pub fn check_virtio_nic(underhill: bool) -> (r: Result<(), Refusal>)
    ensures
        refusal_of(r) == (if underhill {
            Some("use --net uh:[...] to add underhill NICs"@)
        } else {
            None
        }),
{
    if underhill {
        return Err(refuse("use --net uh:[...] to add underhill NICs"));
    }
    Ok(())
}

/// Where a virtual port of an emulated adapter goes: to the adapter of its trust
/// level, or to the adapter behind its PCIe port.
#[derive(Debug)]
pub struct VportPlacement {
    pub vtl: DeviceVtl,
    pub pcie_port: Option<String>,
}

/// The virtual ports among the first that go to the adapter of a trust level.
pub open spec fn level_members(list: Seq<VportPlacement>, vtl: DeviceVtl, n: int) -> Seq<usize>
    decreases n,
{
    if n <= 0 {
        Seq::empty()
    } else if list[n - 1].pcie_port is None && list[n - 1].vtl == vtl {
        level_members(list, vtl, n - 1).push((n - 1) as usize)
    } else {
        level_members(list, vtl, n - 1)
    }
}

/// The virtual ports of each emulated adapter.
#[derive(Debug)]
pub struct VportGroups {
    pub vtl0: Vec<usize>,
    pub vtl1: Vec<usize>,
    pub vtl2: Vec<usize>,
    /// The adapters behind PCIe ports, in the order of the names of the ports.
    pub pcie: Groups,
}

fn level_group(list: &Vec<VportPlacement>, vtl: DeviceVtl) -> (r: Vec<usize>)
    ensures
        r@ == level_members(list@, vtl, list@.len() as int),
{
    let mut out: Vec<usize> = Vec::new();
    let mut i: usize = 0;
    while i < list.len()
        invariant
            i <= list@.len(),
            out@ == level_members(list@, vtl, i as int),
        decreases list@.len() - i,
    {
        if list[i].pcie_port.is_none() && list[i].vtl == vtl {
            out.push(i);
        }
        i += 1;
    }
    out
}

/// Gathers the virtual ports of each emulated adapter.
pub fn group_vports(list: &Vec<VportPlacement>) -> (r: Result<VportGroups, Refusal>)
    ensures
        refusal_of(r) == (if exists|i: int|
            0 <= i < list@.len() && (#[trigger] list@[i]).pcie_port is Some && list@[i].vtl
                != DeviceVtl::Vtl0 {
            Some("PCIe NICs only supported to VTL0"@)
        } else {
            None
        }),
        r is Ok ==> {
            let g = r->Ok_0;
            &&& g.vtl0@ == level_members(list@, DeviceVtl::Vtl0, list@.len() as int)
            &&& g.vtl1@ == level_members(list@, DeviceVtl::Vtl1, list@.len() as int)
            &&& g.vtl2@ == level_members(list@, DeviceVtl::Vtl2, list@.len() as int)
            &&& exists|keys: Seq<Option<String>>|
                keys.len() == list@.len() && #[trigger] grouped(
                    g.pcie,
                    keys,
                    list@.len() as int,
                ) && same_keys(keys, list@)
        },
{
    let mut keys: Vec<Option<String>> = Vec::new();
    let mut i: usize = 0;
    while i < list.len()
        invariant
            i <= list@.len(),
            keys@.len() == i,
            forall|k: int|
                0 <= k < i ==> !((#[trigger] list@[k]).pcie_port is Some && list@[k].vtl
                    != DeviceVtl::Vtl0),
            forall|k: int| 0 <= k < i ==> same_key(#[trigger] keys@[k], list@[k].pcie_port),
        decreases list@.len() - i,
    {
        match &list[i].pcie_port {
            Some(port) => {
                if list[i].vtl != DeviceVtl::Vtl0 {
                    assert(list@[i as int].pcie_port is Some);
                    return Err(refuse("PCIe NICs only supported to VTL0"));
                }
                keys.push(Some(port.as_str().to_owned()));
            },
            None => {
                keys.push(None);
            },
        }
        i += 1;
    }
    let pcie = group_by_text(&keys);
    let groups = VportGroups {
        vtl0: level_group(list, DeviceVtl::Vtl0),
        vtl1: level_group(list, DeviceVtl::Vtl1),
        vtl2: level_group(list, DeviceVtl::Vtl2),
        pcie,
    };
    assert(grouped(groups.pcie, keys@, list@.len() as int) && same_keys(keys@, list@));
    Ok(groups)
}

/// Two optional texts are the same.
pub open spec fn same_key(a: Option<String>, b: Option<String>) -> bool {
    match (a, b) {
        (Some(x), Some(y)) => x@ == y@,
        (None, None) => true,
        _ => false,
    }
}

/// The keys are the PCIe ports of some virtual ports.
pub open spec fn same_keys(keys: Seq<Option<String>>, list: Seq<VportPlacement>) -> bool {
    forall|k: int|
        0 <= k < list.len() ==> same_key(#[trigger] keys[k], list[k].pcie_port)
}

} // verus!
