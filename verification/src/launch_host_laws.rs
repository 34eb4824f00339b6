//! What holds of the networks, terminals, disks and root complexes of launched
//! machines.

use vstd::prelude::*;

use crate::config::{
    DeviceVtl, GuestArch, Guid, HostOs, MicrovmNetworkConfig, PcieIommuConfig,
    PcieMmioRangeConfig, PciePortConfig, PcieRootComplexConfig,
};
use crate::console::SerialConfigCli;
use crate::launch_front::{plan_front, FrontOptions, LaunchFront};
use crate::launch_net::{
    check_paravisor_nic, check_virtio_nic, check_vmbus_nic, endpoint_refusal, group_vports, is_nic,
    kernel_nic_instance_id, level_members, mac_address_from_random, microvm_network_endpoint,
    new_hvsock_service_id, nic_instance_id, nic_mac_address, pcie_remote_instance_id,
    planned_endpoint, EndpointPlan, EndpointRequest, NicConfig, NicConfigCli, NicCounter,
    StaticIpv4, VportGroups, VportPlacement,
};
use crate::launch_pcie::{
    are_root_ports, build_root_complexes, check_iommu_contexts, check_vfio_context,
    complexes_refusal, is_complex_name, is_root_port, lists, repeated_name, smmu_for, smmu_names,
    unknown_name, IommuCli, RootComplexCli, RootPortCli, SmmuCli,
};
use crate::launch_serial::{
    assign_terminal, check_microvm_serial, claims, microvm_port_backend, terminal, SerialOptions,
};
use crate::launch_storage::{
    check_processor_count, check_sandbox_block, check_scsi_sub_channels, check_virtio_blk,
    disk_location, disk_open, nvme_location, DiskKind, DiskLocation, DiskPlacement, DiskPlan,
    LayerPlan, SandboxBlockOptions,
};
use crate::net::MacAddress;
use crate::refusal::Refusal;
use crate::snapshot::SnapshotMachineContract;
use crate::text::string_views;

verus! {

/// The identifiers of the devices at an index are told apart by the index, in their
/// first part, and by what they number, in the rest: network devices, remote PCIe
/// devices, in-kernel network devices and socket services never share one.
pub proof fn law_identifiers_tell_devices_apart(
    index: usize,
    port: u32,
    nic: Guid,
    remote: Guid,
    kernel: Guid,
    service: Guid,
)
    requires
        index <= u32::MAX,
        call_ensures(nic_instance_id, (index,), nic),
        call_ensures(pcie_remote_instance_id, (index,), remote),
        call_ensures(kernel_nic_instance_id, (index,), kernel),
        call_ensures(new_hvsock_service_id, (port,), service),
    ensures
        nic.data1 == index && remote.data1 == index && kernel.data1 == index,
        service.data1 == port,
        nic.data2 == 0xda43 && nic.data3 == 0x11ed,
        nic.data4@ == seq![0x93u8, 0x6a, 0x00, 0x15, 0x5d, 0x6d, 0xb5, 0x2f],
        remote.data2 == 0xc059 && remote.data3 == 0x429f,
        remote.data4@ == seq![0x9du8, 0x9a, 0x46, 0xbe, 0xa0, 0x25, 0x62, 0xc0],
        kernel.data2 == 0x435d && kernel.data3 == 0x11ee,
        kernel.data4@ == seq![0x9fu8, 0x59, 0x00, 0x15, 0x5d, 0x50, 0x16, 0xfc],
        service.data2 == 0xfacb && service.data3 == 0x11e6,
        service.data4@ == seq![0xbdu8, 0x58, 0x64, 0x00, 0x6a, 0x79, 0x86, 0xd3],
        nic != remote && nic != kernel && nic != service && remote != kernel && remote != service
            && kernel != service,
{
}

/// The address of a network device is the vendor's prefix and then the bytes that tell
/// it apart, so two devices share one only where they share those bytes.
pub proof fn law_addresses_carry_the_vendor(
    tail: [u8; 3],
    mac: MacAddress,
    bytes: Option<Vec<u8>>,
    fresh: Result<MacAddress, Refusal>,
)
    requires
        call_ensures(nic_mac_address, (tail,), mac),
        call_ensures(mac_address_from_random, (bytes,), fresh),
        bytes is Some ==> bytes->0@.len() == 3,
    ensures
        mac.octets@[0] == 0x00 && mac.octets@[1] == 0x15 && mac.octets@[2] == 0x5d,
        mac.octets@[3] == tail@[0] && mac.octets@[4] == tail@[1] && mac.octets@[5] == tail@[2],
        fresh is Ok <==> bytes is Some,
        fresh is Ok ==> {
            let octets = fresh->Ok_0.octets@;
            &&& octets[0] == 0x00 && octets[1] == 0x15 && octets[2] == 0x5d
            &&& octets[3] == bytes->0@[0] && octets[4] == bytes->0@[1] && octets[5]
                == bytes->0@[2]
        },
{
}

/// A switch port needs Windows and a TAP device needs Linux; a microVM's network is for
/// microVMs only; anything else is connected on every host, and as it is asked for.
pub proof fn law_endpoints_are_connected_as_asked(
    endpoint: EndpointRequest,
    bound: bool,
    host: HostOs,
)
    ensures
        endpoint_refusal(endpoint, host) is None <==> match endpoint {
            EndpointRequest::Dio { .. } => host is Windows,
            EndpointRequest::Tap { .. } => host is Linux,
            EndpointRequest::Microvm => false,
            _ => true,
        },
        endpoint matches EndpointRequest::Consomme { cidr, host_fwd } ==> (planned_endpoint(
            endpoint,
            bound,
        ) matches EndpointPlan::Consomme { cidr: c, ports, bindable } && c == cidr && ports
            == host_fwd && (bindable <==> !bound)),
        endpoint matches EndpointRequest::Dio { id } ==> (planned_endpoint(endpoint, bound) matches
            EndpointPlan::SwitchPort { id: i } && i == id),
        endpoint matches EndpointRequest::Tap { name } ==> (planned_endpoint(endpoint, bound)
            matches EndpointPlan::Tap { name: n } && n == name),
        endpoint is Null ==> planned_endpoint(endpoint, bound) is Null,
{
}

/// A network device is the one that is asked for, under the number that is next.
pub proof fn law_nic_is_the_asked_one(
    nic: NicConfig,
    cli: NicConfigCli,
    counter: NicCounter,
    mac: MacAddress,
)
    requires
        is_nic(nic, cli, counter, mac),
        counter.next <= u32::MAX,
    ensures
        nic.vtl == cli.vtl && nic.max_queues == cli.max_queues && nic.pcie_port == cli.pcie_port,
        nic.mac_address == mac,
        nic.instance_id.data1 == counter.next && nic.instance_id.data2 == 0xda43,
        cli.endpoint is Tap <==> nic.endpoint is Tap,
        cli.endpoint is Consomme <==> nic.endpoint is Consomme,
        cli.endpoint is Dio <==> nic.endpoint is SwitchPort,
{
}

/// A microVM's guest keeps its own address and prefix, and its gateway has the derived
/// address and the gateway's hardware address.
pub proof fn law_microvm_endpoint_is_its_network(network: MicrovmNetworkConfig, r: StaticIpv4)
    requires
        call_ensures(microvm_network_endpoint, (&network,), r),
    ensures
        r.guest_ipv4 == network.guest_ipv4 && r.prefix_length == network.prefix_length,
        r.gateway_ipv4 == network.derived_gateway_ipv4 && r.gateway_mac == network.gateway_mac,
{
}

/// A VMBus network device has no PCIe port; one for the paravisor needs the alias map
/// turned off, and is never a virtio device.
pub proof fn law_nic_checks(
    port: bool,
    underhill: bool,
    no_alias_map: bool,
    vmbus: Result<(), Refusal>,
    paravisor: Result<(), Refusal>,
    virtio: Result<(), Refusal>,
)
    requires
        call_ensures(check_vmbus_nic, (port,), vmbus),
        call_ensures(check_paravisor_nic, (underhill, no_alias_map), paravisor),
        call_ensures(check_virtio_nic, (underhill,), virtio),
    ensures
        vmbus is Ok <==> !port,
        paravisor is Err <==> underhill && !no_alias_map,
        virtio is Ok <==> !underhill,
{
}

proof fn lemma_level_members(list: Seq<VportPlacement>, vtl: DeviceVtl, n: int, k: int)
    requires
        0 <= n <= list.len() <= usize::MAX,
        0 <= k < list.len(),
    ensures
        level_members(list, vtl, n).contains(k as usize) <==> k < n && list[k].pcie_port is None
            && list[k].vtl == vtl,
        forall|i: int| 0 <= i < level_members(list, vtl, n).len() ==> #[trigger] level_members(
            list,
            vtl,
            n,
        )[i] < n,
        forall|i: int, j: int|
            0 <= i < j < level_members(list, vtl, n).len() ==> #[trigger] level_members(
                list,
                vtl,
                n,
            )[i] < #[trigger] level_members(list, vtl, n)[j],
    decreases n,
{
    if n > 0 {
        lemma_level_members(list, vtl, n - 1, k);
        let before = level_members(list, vtl, n - 1);
        if list[n - 1].pcie_port is None && list[n - 1].vtl == vtl {
            let all = before.push((n - 1) as usize);
            assert(level_members(list, vtl, n) == all);
            if all.contains(k as usize) {
                let i = choose|i: int| 0 <= i < all.len() && all[i] == k as usize;
                if i < before.len() {
                    assert(before[i] == k as usize);
                }
            }
            if before.contains(k as usize) {
                let i = choose|i: int| 0 <= i < before.len() && before[i] == k as usize;
                assert(all[i] == k as usize);
            }
            if k == n - 1 {
                assert(all[before.len() as int] == k as usize);
            }
        }
    }
}

/// A virtual port that names no PCIe port goes to the adapter of its own trust level and
/// to no other, in the order of the options; one that names a port goes to none of
/// them, and must be the guest's.
pub proof fn law_virtual_ports_go_to_their_level(
    list: Vec<VportPlacement>,
    r: Result<VportGroups, Refusal>,
    k: int,
)
    requires
        call_ensures(group_vports, (&list,), r),
        0 <= k < list@.len() <= usize::MAX,
    ensures
        list@[k].pcie_port is Some && !(list@[k].vtl is Vtl0) ==> r is Err,
        r is Ok ==> {
            let g = r->Ok_0;
            let plain = list@[k].pcie_port is None;
            &&& g.vtl0@.contains(k as usize) <==> plain && list@[k].vtl is Vtl0
            &&& g.vtl1@.contains(k as usize) <==> plain && list@[k].vtl is Vtl1
            &&& g.vtl2@.contains(k as usize) <==> plain && list@[k].vtl is Vtl2
        },
{
    let n = list@.len() as int;
    lemma_level_members(list@, DeviceVtl::Vtl0, n, k);
    lemma_level_members(list@, DeviceVtl::Vtl1, n, k);
    lemma_level_members(list@, DeviceVtl::Vtl2, n, k);
}

/// A microVM has none of the serial devices of a standard machine.
pub proof fn law_microvm_has_no_serial_devices(options: SerialOptions, r: Result<(), Refusal>)
    requires
        call_ensures(check_microvm_serial, (&options,), r),
    ensures
        r is Ok <==> options.com1 is None && options.com2 is None && options.com3 is None
            && options.com4 is None && options.vmbus_com1 is None && options.vmbus_com2 is None
            && options.debugcon is None,
{
}

proof fn lemma_terminal(list: Seq<(Seq<char>, bool)>)
    ensures
        match terminal(list) {
            Ok(None) => forall|i: int| 0 <= i < list.len() ==> !(#[trigger] list[i]).1,
            Ok(Some(name)) => exists|i: int|
                {
                    &&& 0 <= i < list.len() && (#[trigger] list[i]) == (name, true)
                    &&& forall|j: int| 0 <= j < list.len() && j != i ==> !(#[trigger] list[j]).1
                },
            Err(_) => exists|i: int, j: int|
                0 <= i < j < list.len() && (#[trigger] list[i]).1 && (#[trigger] list[j]).1,
        },
    decreases list.len(),
{
    if list.len() > 0 {
        let front = list.drop_last();
        lemma_terminal(front);
        let last = list.len() - 1;
        assert(list[last] == list.last());
        assert(forall|i: int| 0 <= i < front.len() ==> front[i] == list[i]);
        match terminal(front) {
            Ok(None) => {
                assert(forall|i: int| 0 <= i < front.len() ==> !(#[trigger] front[i]).1);
                assert forall|i: int| 0 <= i < last implies !(#[trigger] list[i]).1 by {
                    assert(!front[i].1);
                }
                if list.last().1 {
                    assert(list[last] == (list.last().0, true));
                }
            },
            Ok(Some(name)) => {
                let i = choose|i: int|
                    {
                        &&& 0 <= i < front.len() && (#[trigger] front[i]) == (name, true)
                        &&& forall|j: int|
                            0 <= j < front.len() && j != i ==> !(#[trigger] front[j]).1
                    };
                assert(list[i] == (name, true));
                if list.last().1 {
                    assert(list[i].1 && list[last].1);
                } else {
                    assert forall|j: int| 0 <= j < list.len() && j != i implies !(
                    #[trigger] list[j]).1 by {
                        if j < last {
                            assert(!front[j].1);
                        }
                    }
                }
            },
            Err(_) => {
                let (i, j) = choose|i: int, j: int|
                    0 <= i < j < front.len() && (#[trigger] front[i]).1 && (#[trigger] front[j]).1;
                assert(list[i].1 && list[j].1);
            },
        }
    }
}

/// A serial device asks for the terminal.
pub open spec fn asks(options: SerialOptions, at: int) -> bool {
    if at == 0 {
        options.com1 is None || options.com1->0@ is Console
    } else if at == 1 {
        options.com2 is Some && options.com2->0@ is Console
    } else if at == 2 {
        options.com3 is Some && options.com3->0@ is Console
    } else if at == 3 {
        options.com4 is Some && options.com4->0@ is Console
    } else if at == 4 {
        options.vmbus_com1 is Some && options.vmbus_com1->0@ is Console
    } else if at == 5 {
        options.vmbus_com2 is Some && options.vmbus_com2->0@ is Console
    } else if at == 6 {
        options.debugcon is Some && options.debugcon->0@ is Console
    } else {
        options.virtio_console is Some && options.virtio_console->0@ is Console
    }
}

/// The name under which a serial device is known.
pub open spec fn known_as(arch: GuestArch, at: int) -> Seq<char> {
    let arm = arch is Aarch64;
    if at == 0 {
        if arm { "ttyAMA0"@ } else { "ttyS0"@ }
    } else if at == 1 {
        if arm { "ttyAMA1"@ } else { "ttyS1"@ }
    } else if at == 2 {
        if arm { "ttyAMA2"@ } else { "ttyS2"@ }
    } else if at == 3 {
        if arm { "ttyAMA3"@ } else { "ttyS3"@ }
    } else if at == 4 {
        "vmbus_com1"@
    } else if at == 5 {
        "vmbus_com2"@
    } else if at == 6 {
        "debugcon"@
    } else {
        "hvc0"@
    }
}

/// The terminal of a standard machine goes to the one device that asks for it, where the
/// first serial port asks unless it is told otherwise; it goes to nobody where nobody
/// asks, and where several ask the launch is refused.
pub proof fn law_terminal_goes_to_who_asks(
    options: SerialOptions,
    arch: GuestArch,
    r: Result<Option<&'static str>, Refusal>,
    at: int,
    other: int,
)
    requires
        call_ensures(assign_terminal, (&options, false, arch), r),
        0 <= at < 8,
        0 <= other < 8,
    ensures
        at != other && asks(options, at) && asks(options, other) ==> r is Err,
        r is Ok && asks(options, at) ==> r->Ok_0 is Some && r->Ok_0->0@ == known_as(arch, at),
        r is Ok && r->Ok_0 is None ==> !asks(options, at),
        (forall|i: int| 0 <= i < 8 ==> !#[trigger] asks(options, i)) ==> r is Ok && r->Ok_0 is None,
        (forall|i: int| 0 <= i < 8 && i != at ==> !#[trigger] asks(options, i)) ==> r is Ok,
{
    let list = claims(options, false, arch);
    lemma_terminal(list);
    assert(list.len() == 8);
    assert forall|i: int| 0 <= i < 8 implies #[trigger] list[i] == (
        known_as(arch, i),
        asks(options, i),
    ) by {}
    assert(list[at] == (known_as(arch, at), asks(options, at)));
    assert(list[other] == (known_as(arch, other), asks(options, other)));
}

/// A microVM's port and its console never share the terminal: the port writes to the
/// diagnostic stream exactly where the console has the terminal, and has the terminal
/// otherwise.
pub proof fn law_port_gives_way_to_the_console(
    console: Option<&SerialConfigCli>,
    r: SerialConfigCli,
)
    requires
        call_ensures(microvm_port_backend, (console,), r),
    ensures
        r@ is Stderr <==> console is Some && console->0@ is Console,
        r@ is Console <==> !(r@ is Stderr),
{
}

/// A machine has between one and 1024 processors, and a SCSI controller no more
/// additional channels than the other processors.
pub proof fn law_machine_limits(
    processors: u32,
    channels: u16,
    count: Result<(), Refusal>,
    sub_channels: Result<(), Refusal>,
)
    requires
        call_ensures(check_processor_count, (processors,), count),
        call_ensures(check_scsi_sub_channels, (channels,), sub_channels),
    ensures
        count is Ok <==> 0 < processors < 1025,
        sub_channels is Ok <==> channels < 1024,
{
}

/// A disk goes to the controller that it names, with the unit that it names; without a
/// name it goes to the default controller, which needs VMBus. A PCIe port is never
/// named for it.
pub proof fn law_disks_go_to_their_controller(
    disk: DiskPlacement,
    no_vmbus: bool,
    r: Result<DiskLocation, Refusal>,
)
    requires
        call_ensures(disk_location, (disk, no_vmbus), r),
    ensures
        r is Ok <==> !disk.pcie_port && (disk.controller is Some || !no_vmbus),
        r is Ok && disk.controller is None ==> r->Ok_0 is DefaultScsi,
        r is Ok && disk.controller is Some ==> (r->Ok_0 matches DiskLocation::Named {
            controller,
            nsid,
            lun,
        } && controller@ == disk.controller->0@ && nsid == disk.nsid && lun == disk.lun),
{
}

/// A legacy NVMe disk is behind the port that it names, or else on the default NVMe
/// controller.
pub proof fn law_nvme_disks_go_to_their_port(port: Option<String>, r: DiskLocation)
    requires
        call_ensures(nvme_location, (port,), r),
    ensures
        port is None ==> r is DefaultNvme,
        port is Some ==> (r matches DiskLocation::Named { controller, nsid, lun } && controller@
            == port->0@ && nsid is None && lun is None),
{
}

/// A sandbox's disk is plain: any wish beyond a disk of the guest's is refused. The
/// paravisor offers no virtio disk.
pub proof fn law_sandbox_disks_are_plain(
    block: SandboxBlockOptions,
    r: Result<(), Refusal>,
    underhill: bool,
    blk: Result<(), Refusal>,
)
    requires
        call_ensures(check_sandbox_block, (&block,), r),
        call_ensures(check_virtio_blk, (underhill,), blk),
    ensures
        r is Err <==> !(block.vtl is Vtl0) || block.is_dvd || block.underhill || block.pcie_port
            || block.controller || block.nsid || block.lun || block.relay,
        blk is Ok <==> !underhill,
{
}

/// A file that is opened rather than made.
pub open spec fn is_plain_file(kind: DiskKind) -> bool {
    kind is File && kind->File_create_with_len is None
}

/// The plan opens a file, for reading only or not.
pub open spec fn opens_file(plan: DiskPlan, file: DiskKind, read_only: bool) -> bool {
    match plan {
        DiskPlan::OpenFile { path, read_only: r, direct } => path == file->File_path && direct
            == file->direct && r == read_only,
        _ => false,
    }
}

/// The layer opens a file, for reading only or not.
pub open spec fn layer_opens(layer: LayerPlan, file: DiskKind, read_only: bool) -> bool {
    match layer {
        LayerPlan::Disk(plan) => opens_file(plan, file, read_only),
        _ => false,
    }
}

/// The layers of a plan.
pub open spec fn layers_of(plan: DiskPlan) -> Seq<LayerPlan> {
    match plan {
        DiskPlan::Layered(layers) => layers@,
        _ => Seq::empty(),
    }
}

/// A file is opened as it is asked: made anew with its length where one is given, and
/// otherwise for reading only exactly where the disk is read-only.
pub proof fn law_files_are_opened_as_asked(
    kind: DiskKind,
    read_only: bool,
    r: Result<DiskPlan, Refusal>,
)
    requires
        call_ensures(disk_open, (kind, read_only), r),
    ensures
        kind is File || kind is Blob || kind is Memory ==> r is Ok,
        is_plain_file(kind) ==> opens_file(r->Ok_0, kind, read_only),
        kind is File && !is_plain_file(kind) ==> r->Ok_0 is CreateFile
            && r->Ok_0->CreateFile_path == kind->File_path && Some(r->Ok_0->len)
            == kind->File_create_with_len && r->Ok_0->CreateFile_direct == kind->direct,
        kind is Blob ==> r->Ok_0 is Blob && r->Ok_0->Blob_url == kind->Blob_url
            && r->Ok_0->Blob_format == kind->Blob_format,
        kind is Memory ==> layers_of(r->Ok_0).len() == 1 && layers_of(r->Ok_0)[0] is Ram
            && layers_of(r->Ok_0)[0]->Ram_len == Some(kind->Memory_0),
{
    if r is Ok {
        lemma_one_layer(r->Ok_0, kind, read_only);
    }
}

/// What wraps a disk keeps its own delay or key, and opens what it wraps as it is asked
/// to be opened itself.
pub proof fn law_wrapped_files_are_opened_as_asked(
    kind: DiskKind,
    read_only: bool,
    r: Result<DiskPlan, Refusal>,
)
    requires
        call_ensures(disk_open, (kind, read_only), r),
        r is Ok,
    ensures
        kind is Delay ==> r->Ok_0 is Delayed && r->Ok_0->delay_ms == kind->Delay_delay_ms,
        kind is Delay && is_plain_file(*kind->Delay_inner) ==> opens_file(
            *r->Ok_0->Delayed_disk,
            *kind->Delay_inner,
            read_only,
        ),
        kind is Crypt ==> r->Ok_0 is Crypt && r->Ok_0->Crypt_key_file == kind->Crypt_key_file,
        kind is Crypt && is_plain_file(*kind->Crypt_inner) ==> opens_file(
            *r->Ok_0->Crypt_disk,
            *kind->Crypt_inner,
            read_only,
        ),
        kind is PersistentReservations ==> r->Ok_0 is WithReservations,
        kind is PersistentReservations && is_plain_file(*kind->PersistentReservations_0)
            ==> opens_file(
            *r->Ok_0->WithReservations_0,
            *kind->PersistentReservations_0,
            read_only,
        ),
{
    lemma_one_layer(r->Ok_0, kind, read_only);
    match kind {
        DiskKind::Delay { inner, .. } => match r->Ok_0 {
            DiskPlan::Delayed { disk, .. } => {
                lemma_one_layer(*disk, *inner, read_only);
            },
            _ => {},
        },
        DiskKind::Crypt { inner, .. } => match r->Ok_0 {
            DiskPlan::Crypt { disk, .. } => {
                lemma_one_layer(*disk, *inner, read_only);
            },
            _ => {},
        },
        DiskKind::PersistentReservations(inner) => match r->Ok_0 {
            DiskPlan::WithReservations(disk) => {
                lemma_one_layer(*disk, *inner, read_only);
            },
            _ => {},
        },
        _ => {},
    }
}

proof fn lemma_one_layer(plan: DiskPlan, kind: DiskKind, read_only: bool)
    requires
        crate::launch_storage::is_disk(plan, kind, read_only),
    ensures
        plan is Layered ==> crate::launch_storage::are_layers(layers_of(plan), kind, read_only)
            && !(layers_of(plan).len() == 1 && layers_of(plan)[0] is Disk),
        !(plan is Layered) ==> crate::launch_storage::are_layers(
            seq![LayerPlan::Disk(plan)],
            kind,
            read_only,
        ),
        is_plain_file(kind) ==> opens_file(plan, kind, read_only),
        kind is Delay ==> plan is Delayed,
        kind is Crypt ==> plan is Crypt,
        kind is PersistentReservations ==> plan is WithReservations,
        kind is File && !is_plain_file(kind) ==> plan is CreateFile,
        kind is Blob ==> plan is Blob,
        kind is Memory || kind is MemoryDiff || kind is Sqlite || kind is SqliteDiff || kind
            is AutoCacheSqlite ==> plan is Layered,
{
    if !(plan is Layered) {
        let one = seq![LayerPlan::Disk(plan)];
        assert(one.len() == 1 && one[0] == LayerPlan::Disk(plan));
        assert(crate::launch_storage::are_layers(one, kind, read_only));
        assert(one[0]->Disk_0 == plan);
    } else {
        let layers = layers_of(plan);
        assert(crate::launch_storage::are_layers(layers, kind, read_only));
        if kind is File || kind is Blob {
            assert(layers[0] is Disk);
        }
    }
}

/// What lies below a layer that takes the writes is only read, even where the disk as a
/// whole is writable; below a cache it is written where the disk is.
pub proof fn law_writes_stay_above(kind: DiskKind, read_only: bool, r: Result<DiskPlan, Refusal>)
    requires
        call_ensures(disk_open, (kind, read_only), r),
        r is Ok,
    ensures
        kind is MemoryDiff ==> layers_of(r->Ok_0).len() > 0 && layers_of(r->Ok_0)[0] is Ram
            && layers_of(r->Ok_0)[0]->Ram_len is None,
        kind is MemoryDiff && is_plain_file(*kind->MemoryDiff_0) ==> layers_of(r->Ok_0).len() == 2
            && layer_opens(layers_of(r->Ok_0)[1], *kind->MemoryDiff_0, true),
        kind is SqliteDiff ==> layers_of(r->Ok_0).len() > 0 && layers_of(r->Ok_0)[0] is Sqlite
            && layers_of(r->Ok_0)[0]->Sqlite_path == kind->SqliteDiff_path && (layers_of(
            r->Ok_0,
        )[0]->Sqlite_format is Some <==> kind->SqliteDiff_create),
        kind is SqliteDiff && is_plain_file(*kind->SqliteDiff_inner) ==> layers_of(r->Ok_0).len()
            == 2 && layer_opens(layers_of(r->Ok_0)[1], *kind->SqliteDiff_inner, true),
        kind is AutoCacheSqlite ==> layers_of(r->Ok_0).len() > 0 && layers_of(r->Ok_0)[0]
            is ReadCache && layers_of(r->Ok_0)[0]->ReadCache_cache_path
            == kind->AutoCacheSqlite_cache_path && layers_of(r->Ok_0)[0]->ReadCache_key
            == kind->AutoCacheSqlite_key,
        kind is AutoCacheSqlite && is_plain_file(*kind->AutoCacheSqlite_inner) ==> layers_of(
            r->Ok_0,
        ).len() == 2 && layer_opens(layers_of(r->Ok_0)[1], *kind->AutoCacheSqlite_inner, read_only),
{
    lemma_one_layer(r->Ok_0, kind, read_only);
    let layers = layers_of(r->Ok_0);
    let rest = layers.skip(1);
    match kind {
        DiskKind::MemoryDiff(inner) => {
            lemma_below(layers, *inner, true);
        },
        DiskKind::SqliteDiff { inner, .. } => {
            lemma_below(layers, *inner, true);
        },
        DiskKind::AutoCacheSqlite { inner, .. } => {
            lemma_below(layers, *inner, read_only);
        },
        _ => {},
    }
}

proof fn lemma_below(layers: Seq<LayerPlan>, inner: DiskKind, read_only: bool)
    requires
        layers.len() > 0,
        crate::launch_storage::are_layers(layers.skip(1), inner, read_only),
    ensures
        is_plain_file(inner) ==> layers.len() == 2 && layer_opens(layers[1], inner, read_only),
{
    let rest = layers.skip(1);
    if is_plain_file(inner) {
        assert(rest.len() == 1);
        assert(rest[0] == layers[1]);
    }
}

/// A database is made only where none is, and opened only where one is; it is formatted
/// exactly when it is made, and then with the size that is asked for.
pub proof fn law_databases_are_made_or_opened(
    kind: DiskKind,
    read_only: bool,
    r: Result<DiskPlan, Refusal>,
)
    requires
        call_ensures(disk_open, (kind, read_only), r),
        kind is Sqlite,
    ensures
        r is Ok <==> (kind->Sqlite_create_with_len is Some <==> !(kind->Sqlite_exists)),
        r is Ok ==> layers_of(r->Ok_0).len() == 1 && layers_of(r->Ok_0)[0] is Sqlite
            && layers_of(r->Ok_0)[0]->Sqlite_path == kind->Sqlite_path && (layers_of(
            r->Ok_0,
        )[0]->Sqlite_format is None <==> kind->Sqlite_exists),
        r is Ok && !(kind->Sqlite_exists) ==> layers_of(r->Ok_0)[0]->Sqlite_format == Some(
            kind->Sqlite_create_with_len,
        ),
{
    if r is Ok {
        lemma_one_layer(r->Ok_0, kind, read_only);
    }
}

/// A launch goes on only where every single option passed its check and the machine is
/// within its limits. A standard machine has none of a microVM's devices; a microVM has
/// its port, an exported directory exactly where something is mounted, and no serial
/// device of a standard machine.
pub proof fn law_front_is_checked(
    opt: FrontOptions,
    contract: Option<&SnapshotMachineContract>,
    r: Result<LaunchFront, Refusal>,
)
    requires
        call_ensures(plan_front, (opt, contract), r),
        r is Ok,
    ensures
        opt.checks.isolation is Ok && opt.checks.igvm is Ok && opt.checks.microvm is Ok
            && opt.checks.memory is Ok,
        contract is Some ==> opt.checks.contract is Ok,
        0 < opt.processors <= 1024 && opt.scsi_sub_channels <= 1023,
        r->Ok_0.with_get <==> opt.get || opt.vtl2 && !opt.no_get,
        r->Ok_0.paravisor_vtl is Vtl2 <==> opt.vtl2,
        opt.machine is Standard ==> {
            &&& r->Ok_0.network is None && r->Ok_0.filesystem is None && !r->Ok_0.filesystem_slot
            &&& r->Ok_0.console is None && r->Ok_0.port is None
        },
        opt.machine is Microvm ==> {
            &&& r->Ok_0.filesystem is Some <==> opt.mount is Some
            &&& contract is None ==> r->Ok_0.filesystem_slot
            &&& r->Ok_0.port is Some
            &&& r->Ok_0.port->0@ is Stderr <==> r->Ok_0.console is Some && (
            r->Ok_0.console->0).0@ is Console
            &&& r->Ok_0.console is None && contract is None ==> opt.console is None
            &&& opt.serial.com1 is None && opt.serial.com2 is None && opt.serial.com3 is None
                && opt.serial.com4 is None && opt.serial.vmbus_com1 is None
                && opt.serial.vmbus_com2 is None && opt.serial.debugcon is None
        },
{
}

proof fn lemma_unknown_name(names: Seq<Seq<char>>, list: Seq<RootComplexCli>, from: int)
    requires
        0 <= from <= names.len(),
    ensures
        unknown_name(names, list, from) is None <==> forall|i: int|
            from <= i < names.len() ==> is_complex_name(list, #[trigger] names[i]),
    decreases names.len() - from,
{
    if from < names.len() {
        lemma_unknown_name(names, list, from + 1);
        let first = names[from];
    }
}

proof fn lemma_repeated_name(names: Seq<Seq<char>>, from: int)
    requires
        0 <= from <= names.len(),
    ensures
        repeated_name(names, from) is None <==> forall|i: int, j: int|
            0 <= j < i && from <= i < names.len() ==> #[trigger] names[i] != #[trigger] names[j],
    decreases names.len() - from,
{
    if from < names.len() {
        lemma_repeated_name(names, from + 1);
        let here = names[from];
        if exists|k: int| 0 <= k < from && #[trigger] names[k] == names[from] {
            let k = choose|k: int| 0 <= k < from && #[trigger] names[k] == names[from];
            assert(names[k] == names[from]);
        } else {
            if repeated_name(names, from) is None {
                assert forall|i: int, j: int| 0 <= j < i && from <= i < names.len() implies
                    #[trigger] names[i] != #[trigger] names[j] by {
                    if i == from {
                        assert(names[j] != names[from]);
                    }
                }
            }
        }
    }
}

proof fn lemma_complexes_refusal(list: Seq<RootComplexCli>, from: int)
    requires
        0 <= from <= list.len(),
    ensures
        complexes_refusal(list, from) is None <==> forall|i: int|
            from <= i < list.len() ==> crate::launch_pcie::complex_refusal(#[trigger] list[i])
                is None,
    decreases list.len() - from,
{
    if from < list.len() {
        lemma_complexes_refusal(list, from + 1);
        let first = list[from];
    }
}

/// One of the first ports that are asked for, of a root complex.
spec fn is_asked_port(
    port: PciePortConfig,
    list: Seq<RootPortCli>,
    name: Seq<char>,
    n: int,
) -> bool {
    exists|j: int|
        0 <= j < n && (#[trigger] list[j]).root_complex_name@ == name && is_root_port(
            port,
            list[j],
        )
}

proof fn lemma_root_ports(
    ports: Seq<PciePortConfig>,
    list: Seq<RootPortCli>,
    name: Seq<char>,
    n: int,
)
    requires
        are_root_ports(ports, list, name, n),
        0 <= n <= list.len(),
    ensures
        forall|k: int| 0 <= k < ports.len() ==> is_asked_port(#[trigger] ports[k], list, name, n),
        forall|j: int|
            0 <= j < n && (#[trigger] list[j]).root_complex_name@ == name ==> exists|k: int|
                0 <= k < ports.len() && is_root_port(#[trigger] ports[k], list[j]),
        ports.len() <= n,
    decreases n,
{
    if n > 0 {
        let last = list[n - 1];
        if last.root_complex_name@ == name {
            let front = ports.drop_last();
            lemma_root_ports(front, list, name, n - 1);
            assert(ports[ports.len() - 1] == ports.last());
            assert(forall|k: int| 0 <= k < front.len() ==> front[k] == ports[k]);
            assert forall|k: int| 0 <= k < ports.len() implies is_asked_port(
                #[trigger] ports[k],
                list,
                name,
                n,
            ) by {
                if k < front.len() {
                    assert(is_asked_port(front[k], list, name, n - 1));
                    let j = choose|j: int|
                        0 <= j < n - 1 && (#[trigger] list[j]).root_complex_name@ == name
                            && is_root_port(front[k], list[j]);
                    assert(list[j].root_complex_name@ == name);
                } else {
                    assert(is_root_port(ports[k], list[n - 1]));
                }
            }
            assert forall|j: int|
                0 <= j < n && (#[trigger] list[j]).root_complex_name@ == name implies exists|k: int|
                0 <= k < ports.len() && is_root_port(#[trigger] ports[k], list[j]) by {
                if j < n - 1 {
                    let k = choose|k: int|
                        0 <= k < front.len() && is_root_port(#[trigger] front[k], list[j]);
                    assert(is_root_port(ports[k], list[j]));
                } else {
                    assert(is_root_port(ports[ports.len() - 1], list[j]));
                }
            }
        } else {
            lemma_root_ports(ports, list, name, n - 1);
            assert forall|k: int| 0 <= k < ports.len() implies is_asked_port(
                #[trigger] ports[k],
                list,
                name,
                n,
            ) by {
                assert(is_asked_port(ports[k], list, name, n - 1));
                let j = choose|j: int|
                    0 <= j < n - 1 && (#[trigger] list[j]).root_complex_name@ == name
                        && is_root_port(ports[k], list[j]);
                assert(list[j].root_complex_name@ == name);
            }
        }
    }
}

/// A root complex is built as it is asked for, in its place: under its name, on its
/// segment and buses, with its node, and with exactly the ports that name it, each as
/// it is asked for. It has CXL memory exactly where a port of its has CXL.
pub proof fn law_root_complexes_are_built_as_asked(
    list: Vec<RootComplexCli>,
    ports: Vec<RootPortCli>,
    iommu: IommuCli,
    r: Result<Vec<PcieRootComplexConfig>, Refusal>,
    i: int,
    j: int,
)
    requires
        call_ensures(build_root_complexes, (&list, &ports, &iommu), r),
        r is Ok,
        0 <= i < list@.len() <= u32::MAX,
    ensures
        r->Ok_0@.len() == list@.len(),
        ({
            let (built, rc) = (r->Ok_0@[i], list@[i]);
            &&& built.index == i && built.name@ == rc.name@ && built.segment == rc.segment
            &&& built.start_bus == rc.start_bus && built.end_bus == rc.end_bus
            &&& built.vnode == rc.vnode && built.preserve_bars == rc.preserve_bars
            &&& 0 <= j < ports@.len() && ports@[j].root_complex_name@ == rc.name@
                ==> exists|k: int|
                0 <= k < built.ports@.len() && (#[trigger] built.ports@[k]).name@ == ports@[j].name@
                    && built.ports@[k].hotplug == ports@[j].hotplug && built.ports@[k].devfn
                    == ports@[j].devfn && built.ports@[k].cxl == ports@[j].cxl
                    && built.ports@[k].pasid == ports@[j].pasid
                    && built.ports@[k].acs_capabilities_supported
                    == ports@[j].acs_capabilities_supported
            &&& 0 <= j < built.ports@.len() ==> exists|k: int|
                0 <= k < ports@.len() && (#[trigger] ports@[k]).root_complex_name@ == rc.name@
                    && ports@[k].name@ == built.ports@[j].name@
            &&& 0 <= j < ports@.len() && ports@[j].root_complex_name@ == rc.name@ && ports@[j].cxl
                ==> built.cxl is Some
            &&& built.cxl is Some ==> built.cxl->0.hdm_size == rc.hdm
                && built.cxl->0.hdm_window_restrictions == rc.hdm_window_restrictions
        }),
{
    let (built, rc) = (r->Ok_0@[i], list@[i]);
    assert(crate::launch_pcie::is_root_complex(built, list@, i, ports@, iommu));
    lemma_root_ports(built.ports@, ports@, rc.name@, ports@.len() as int);
    if 0 <= j < ports@.len() && ports@[j].root_complex_name@ == rc.name@ {
        let k = choose|k: int|
            0 <= k < built.ports@.len() && is_root_port(#[trigger] built.ports@[k], ports@[j]);
        assert(built.ports@[k].name@ == ports@[j].name@);
    }
    if 0 <= j < built.ports@.len() {
        let port = built.ports@[j];
        assert(is_asked_port(port, ports@, rc.name@, ports@.len() as int));
        let k = choose|k: int|
            0 <= k < ports@.len() && (#[trigger] ports@[k]).root_complex_name@ == rc.name@
                && is_root_port(built.ports@[j], ports@[k]);
        assert(ports@[k].name@ == port.name@);
    }
}

/// The windows of a root complex are where they are pinned, or else wherever there is
/// room; each holds what is asked for, and less than a megabyte more.
pub proof fn law_windows_hold_what_is_asked(
    list: Vec<RootComplexCli>,
    ports: Vec<RootPortCli>,
    iommu: IommuCli,
    r: Result<Vec<PcieRootComplexConfig>, Refusal>,
    i: int,
)
    requires
        call_ensures(build_root_complexes, (&list, &ports, &iommu), r),
        r is Ok,
        0 <= i < list@.len(),
    ensures
        holds_window(r->Ok_0@[i].low_mmio, list@[i].low_mmio_base, list@[i].low_mmio as int),
        holds_window(r->Ok_0@[i].high_mmio, list@[i].high_mmio_base, list@[i].high_mmio as int),
{
    let built = r->Ok_0@[i];
    lemma_complexes_refusal(list@, 0);
    assert(crate::launch_pcie::complex_refusal(list@[i]) is None);
    lemma_rounded(list@[i].low_mmio as int);
    lemma_rounded(list@[i].high_mmio as int);
}

/// The window is where it is pinned, if it is, and holds a size.
pub open spec fn holds_window(window: PcieMmioRangeConfig, base: Option<u64>, size: int) -> bool {
    match window {
        PcieMmioRangeConfig::Fixed(range) => base == Some(range.start) && size <= range.end
            - range.start < size + 0x100000,
        PcieMmioRangeConfig::Dynamic { size: held } => base is None && size <= held < size
            + 0x100000,
    }
}

proof fn lemma_rounded(n: int)
    requires
        0 <= n,
    ensures
        n <= crate::launch_pcie::rounded(n) < n + 0x100000,
        n <= u32::MAX ==> crate::launch_pcie::rounded(n) <= u64::MAX,
{
    let q = (n + 0xfffff) / 0x100000;
    assert(q * 0x100000 <= n + 0xfffff < q * 0x100000 + 0x100000);
    assert(crate::launch_pcie::rounded(n) == q * 0x100000);
}

/// IOMMUs are asked for of root complexes that are there, by one vendor, and on Arm once
/// for each. The first root complex of a name has the one that is asked for, and one
/// that nobody asks for has none.
pub proof fn law_iommus_have_their_root_complex(
    list: Vec<RootComplexCli>,
    ports: Vec<RootPortCli>,
    iommu: IommuCli,
    r: Result<Vec<PcieRootComplexConfig>, Refusal>,
    i: int,
    k: int,
)
    requires
        call_ensures(build_root_complexes, (&list, &ports, &iommu), r),
        r is Ok,
        0 <= i < list@.len(),
    ensures
        iommu matches IommuCli::X86 { amd_iommu, intel_vtd } ==> {
            &&& amd_iommu@.len() == 0 || intel_vtd@.len() == 0
            &&& 0 <= k < amd_iommu@.len() ==> is_complex_name(list@, amd_iommu@[k]@)
            &&& 0 <= k < intel_vtd@.len() ==> is_complex_name(list@, intel_vtd@[k]@)
            &&& r->Ok_0@[i].iommu is Some && r->Ok_0@[i].iommu->0 is AmdVi ==> lists(
                amd_iommu@,
                list@[i].name@,
            )
            &&& r->Ok_0@[i].iommu is Some && r->Ok_0@[i].iommu->0 is IntelVtd ==> lists(
                intel_vtd@,
                list@[i].name@,
            )
            &&& !(r->Ok_0@[i].iommu is Some && r->Ok_0@[i].iommu->0 is Smmu)
            &&& i == 0 && lists(amd_iommu@, list@[0].name@) ==> r->Ok_0@[0].iommu is Some
                && r->Ok_0@[0].iommu->0 is AmdVi
            &&& i == 0 && lists(intel_vtd@, list@[0].name@) ==> r->Ok_0@[0].iommu is Some
                && r->Ok_0@[0].iommu->0 is IntelVtd
        },
        iommu matches IommuCli::Aarch64 { smmu } ==> {
            &&& 0 <= k < smmu@.len() ==> is_complex_name(list@, smmu@[k].rc_name@)
            &&& 0 <= k < smmu@.len() && 0 <= i < smmu@.len() && i != k ==> smmu@[k].rc_name@
                != smmu@[i].rc_name@
            &&& 0 <= k < smmu@.len() && smmu@[k].rc_name@ == list@[0].name@
                ==> r->Ok_0@[0].iommu == Some(
                PcieIommuConfig::Smmu { accel: smmu@[k].accel, oas: smmu@[k].oas },
            )
        },
{
    let built = r->Ok_0@[i];
    let first = r->Ok_0@[0];
    match iommu {
        IommuCli::X86 { amd_iommu, intel_vtd } => {
            lemma_unknown_name(string_views(amd_iommu@), list@, 0);
            lemma_unknown_name(string_views(intel_vtd@), list@, 0);
            if 0 <= k < amd_iommu@.len() {
                assert(is_complex_name(list@, string_views(amd_iommu@)[k]));
            }
            if 0 <= k < intel_vtd@.len() {
                assert(is_complex_name(list@, string_views(intel_vtd@)[k]));
            }
        },
        IommuCli::Aarch64 { smmu } => {
            let names = smmu_names(smmu@);
            lemma_unknown_name(names, list@, 0);
            lemma_repeated_name(names, 0);
            if 0 <= k < smmu@.len() {
                assert(is_complex_name(list@, names[k]));
                if 0 <= i < smmu@.len() && i != k {
                    assert(names[i] != names[k]);
                }
                if smmu@[k].rc_name@ == list@[0].name@ {
                    lemma_smmu_for(smmu@, list@[0].name@, smmu@.len() as int, k);
                }
            }
        },
    }
}

proof fn lemma_smmu_for(smmu: Seq<SmmuCli>, name: Seq<char>, n: int, k: int)
    requires
        0 <= k < n <= smmu.len(),
        smmu[k].rc_name@ == name,
        forall|i: int, j: int|
            0 <= j < i < smmu.len() ==> #[trigger] smmu_names(smmu)[i] != #[trigger] smmu_names(
                smmu,
            )[j],
    ensures
        smmu_for(smmu, name, n) == Some(
            PcieIommuConfig::Smmu { accel: smmu[k].accel, oas: smmu[k].oas },
        ),
    decreases n,
{
    if k < n - 1 {
        lemma_smmu_for(smmu, name, n - 1, k);
    } else {
        lemma_no_smmu_before(smmu, name, n - 1, k);
    }
}

proof fn lemma_no_smmu_before(smmu: Seq<SmmuCli>, name: Seq<char>, n: int, k: int)
    requires
        0 <= n <= k < smmu.len(),
        smmu[k].rc_name@ == name,
        forall|i: int, j: int|
            0 <= j < i < smmu.len() ==> #[trigger] smmu_names(smmu)[i] != #[trigger] smmu_names(
                smmu,
            )[j],
    ensures
        smmu_for(smmu, name, n) is None,
    decreases n,
{
    if n > 0 {
        lemma_no_smmu_before(smmu, name, n - 1, k);
        assert(smmu_names(smmu)[k] != smmu_names(smmu)[n - 1]);
    }
}

/// A context for assigned devices is declared once, and is declared wherever a device
/// refers to it.
pub proof fn law_contexts_are_declared_once(
    ids: Vec<String>,
    contexts: Result<(), Refusal>,
    pci_id: &str,
    wanted: &str,
    device: Result<(), Refusal>,
    i: int,
    j: int,
)
    requires
        call_ensures(check_iommu_contexts, (&ids,), contexts),
        call_ensures(check_vfio_context, (pci_id, wanted, &ids), device),
        0 <= i < ids@.len(),
        0 <= j < ids@.len(),
    ensures
        contexts is Ok && i != j ==> ids@[i]@ != ids@[j]@,
        ids@[i]@ == wanted@ ==> device is Ok,
        device is Ok ==> exists|k: int| 0 <= k < ids@.len() && (#[trigger] ids@[k])@ == wanted@,
{
    let names = string_views(ids@);
    lemma_repeated_name(names, 0);
    if contexts is Ok && i != j {
        assert(names[i] != names[j]);
    }
}

} // verus!
