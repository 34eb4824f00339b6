//! What holds of requested devices, of the machine contract and of what a worker is
//! launched with.

use vstd::prelude::*;

use crate::config::{ArchTopologyConfig, Config, HostOs, MicrovmNetworkConfig};
use crate::devices::{
    bar_refusal, bars_refusal, build_nic_backend, build_nvme_controller, build_pcie_device,
    build_pcie_devices, build_vfio_device, build_virtio_device, nvme_refusal, parse_nic_config,
    parse_port_config, parse_ports, parse_vfio_bar_addresses, port_refusal, ports_refusal,
    validate_pci_address, BarAddressConfig, BarSource, HostPortConfig, NicBackend, NicEndpoint,
    NicPlan, NicRequest, NvmeNamespaceRequest, NvmePlan, PcieDevicePlan, PcieDeviceRequest,
    PortRequest, VfioBarAddress, VfioPlan, VhostUserDevice, VirtioDevicePlan, VirtioDeviceRequest,
};
use crate::machine::validate_machine_config;
use crate::microvm_network::subnet_size;
use crate::net::Ipv4Address;
use crate::refusal::{string_view, Refusal};
use crate::worker::{worker_parameters, LaunchMemory, VmWorkerParameters};

verus! {

/// A forwarded port is the requested one: its protocol, its port on the host and its port in
/// the guest, each under its own name; a number that is no port is turned down.
pub proof fn law_forwarded_ports_are_the_requested_ones(
    port: PortRequest,
    r: Result<HostPortConfig, Refusal>,
)
    requires
        call_ensures(parse_port_config, (port,), r),
    ensures
        r is Ok <==> port.protocol is Ok && port.host_port < 65536 && port.guest_port < 65536,
        r is Ok ==> r->Ok_0.protocol == port.protocol->Ok_0 && r->Ok_0.host_port == port.host_port
            && r->Ok_0.guest_port == port.guest_port,
{
}

proof fn lemma_ports(ports: Seq<PortRequest>)
    ensures
        ports_refusal(ports) is None <==> forall|i: int|
            0 <= i < ports.len() ==> port_refusal(#[trigger] ports[i]) is None,
    decreases ports.len(),
{
    if ports.len() > 0 {
        let rest = ports.skip(1);
        lemma_ports(rest);
        assert(forall|i: int| 0 <= i < rest.len() ==> rest[i] == ports[i + 1]);
        if ports_refusal(ports) is None {
            assert forall|i: int| 0 <= i < ports.len() implies port_refusal(#[trigger] ports[i])
                is None by {
                if i > 0 {
                    assert(port_refusal(rest[i - 1]) is None);
                }
            }
        } else if port_refusal(ports[0]) is None {
            let k = choose|k: int| 0 <= k < rest.len() && port_refusal(#[trigger] rest[k]) is Some;
            assert(port_refusal(ports[k + 1]) is Some);
        }
    }
}

/// The ports of a network are forwarded in their order, all of them or none.
pub proof fn law_ports_are_forwarded_together(
    ports: Vec<PortRequest>,
    r: Result<Vec<HostPortConfig>, Refusal>,
    i: int,
)
    requires
        call_ensures(parse_ports, (&ports,), r),
        0 <= i < ports@.len(),
    ensures
        r is Ok ==> r->Ok_0@.len() == ports@.len() && ports@[i].protocol is Ok
            && r->Ok_0@[i].protocol == ports@[i].protocol->Ok_0 && r->Ok_0@[i].host_port
            == ports@[i].host_port && r->Ok_0@[i].guest_port == ports@[i].guest_port,
        ports@[i].protocol is Err || ports@[i].host_port > 65535 || ports@[i].guest_port > 65535
            ==> r is Err,
{
    lemma_ports(ports@);
    if r is Ok {
        assert(port_refusal(ports@[i]) is None);
    } else {
        assert(port_refusal(ports@[i]) is None || port_refusal(ports@[i]) is Some);
    }
}

proof fn lemma_bars(entries: Seq<VfioBarAddress>, from: int)
    requires
        0 <= from <= entries.len(),
    ensures
        bars_refusal(entries, from) is None ==> forall|k: int|
            from <= k < entries.len() ==> #[trigger] bar_refusal(entries, k) is None,
    decreases entries.len() - from,
{
    if from < entries.len() {
        lemma_bars(entries, from + 1);
        if bars_refusal(entries, from) is None {
            assert forall|k: int| from <= k < entries.len() implies #[trigger] bar_refusal(
                entries,
                k,
            ) is None by {
                if k == from {
                    assert(bar_refusal(entries, from) is None);
                }
            }
        }
    }
}

/// A register of an assigned device is placed as it is asked for: where the host has it, or
/// at the address that is given, which is never zero; a register of which nothing is
/// said is left to the guest. There are six, and none is placed twice.
pub proof fn law_registers_are_placed_once(
    entries: Vec<VfioBarAddress>,
    r: Result<[BarAddressConfig; 6], Refusal>,
    k: int,
    j: int,
    bar: int,
)
    requires
        call_ensures(parse_vfio_bar_addresses, (&entries,), r),
        r is Ok,
        0 <= bar < 6,
    ensures
        0 <= k < entries@.len() ==> {
            let entry = entries@[k];
            &&& entry.bar_index < 6 && entry.source is Some
            &&& entry.source->0 matches BarSource::Fixed(address) ==> address > 0
                && r->Ok_0@[entry.bar_index as int] == BarAddressConfig::Fixed(address)
            &&& entry.source->0 is Host ==> r->Ok_0@[entry.bar_index as int] is HostAssigned
            &&& 0 <= j < k ==> entries@[j].bar_index != entry.bar_index
        },
        (forall|i: int| 0 <= i < entries@.len() ==> (#[trigger] entries@[i]).bar_index != bar)
            ==> r->Ok_0@[bar] is GuestAssigned,
{
    lemma_bars(entries@, 0);
    let placed = r->Ok_0@[bar];
    if 0 <= k < entries@.len() {
        assert(bar_refusal(entries@, k) is None);
        let entry = entries@[k];
        if 0 <= j < k {
            let other = entries@[j];
        }
    }
}

/// An assigned device is named by an address that stays a single name, and only on Linux; its
/// group is found below that name.
pub proof fn law_assigned_devices_stay_in_their_directory(
    address: &str,
    entries: Vec<VfioBarAddress>,
    host: HostOs,
    r: Result<VfioPlan, Refusal>,
    plain: Result<(), Refusal>,
)
    requires
        call_ensures(build_vfio_device, (address, &entries, host), r),
        call_ensures(validate_pci_address, (address,), plain),
    ensures
        plain is Ok ==> !address@.contains('/'),
        r is Ok ==> host is Linux && plain is Ok,
        r is Ok ==> r->Ok_0.group_link@ == "/sys/bus/pci/devices/"@ + address@ + "/iommu_group"@,
        host is Linux && plain is Ok && entries@.len() == 0 ==> r is Ok,
{
}

/// The endpoint of a network device is the requested one, on the host that has it: a switch
/// port on Windows with both of its identifiers, a TAP device on Linux, and address
/// translation everywhere, with a range of its own only where one is given.
pub proof fn law_endpoint_is_the_requested_one(
    backend: Option<NicBackend>,
    host: HostOs,
    r: Result<NicEndpoint, Refusal>,
)
    requires
        call_ensures(build_nic_backend, (backend, host), r),
    ensures
        backend is None || backend->0 is Other ==> r is Err,
        backend matches Some(NicBackend::SwitchPort { switch, port }) ==> {
            &&& r is Ok <==> host is Windows && switch is Some && port is Some
            &&& r is Ok ==> r->Ok_0 is SwitchPort && Some(r->Ok_0->switch) == switch && Some(
                r->Ok_0->port,
            ) == port
        },
        backend matches Some(NicBackend::Tap { source }) ==> {
            &&& r is Ok <==> host is Linux && source is Some
            &&& r is Ok ==> r->Ok_0 is Tap && Some(r->Ok_0->source) == source
        },
        backend matches Some(NicBackend::Consomme { cidr, ports }) ==> (r is Ok ==> {
            &&& r->Ok_0 is Consomme && r->Ok_0->Consomme_ports@.len() == ports@.len()
            &&& r->Ok_0->cidr is Some <==> cidr@.len() > 0
            &&& r->Ok_0->cidr is Some ==> r->Ok_0->cidr->0@ == cidr@
        }),
        backend matches Some(NicBackend::Consomme { ports, .. }) ==> (ports@.len() == 0 ==> r
            is Ok),
{
    if backend is Some && backend->0 is Consomme && r is Ok {
        let c = r->Ok_0->cidr;
        assert(string_view(c) is Some <==> c is Some);
    }
}

/// A VMBus network device keeps its identity and its hardware address, and needs both.
pub proof fn law_nic_keeps_its_identity(
    nic: NicRequest,
    host: HostOs,
    r: Result<NicPlan, Refusal>,
)
    requires
        call_ensures(parse_nic_config, (nic, host), r),
    ensures
        nic.nic_id is None || nic.mac_address is None || nic.backend is None ==> r is Err,
        r is Ok ==> r->Ok_0.instance_id == nic.nic_id->0 && r->Ok_0.mac_address
            == nic.mac_address->0,
        r is Ok ==> (nic.backend->0 is Consomme <==> r->Ok_0.endpoint is Consomme),
{
}

/// A virtio device is the requested one, with everything that it was asked to have; what is
/// left out of a request is never made up.
pub proof fn law_virtio_device_is_the_requested_one(
    device: Option<VirtioDeviceRequest>,
    host: HostOs,
    r: Result<VirtioDevicePlan, Refusal>,
)
    requires
        call_ensures(build_virtio_device, (device, host), r),
    ensures
        device is None ==> r is Err,
        device matches Some(VirtioDeviceRequest::Blk { disk, read_only }) ==> {
            &&& r is Ok <==> disk is Some && disk->0 is Some
            &&& r is Ok ==> r->Ok_0 is Blk && r->Ok_0->Blk_disk == disk->0->0
                && r->Ok_0->Blk_read_only == read_only
        },
        device matches Some(VirtioDeviceRequest::Net { max_queues, backend, mac_address }) ==> {
            &&& r is Ok ==> r->Ok_0 is Net && Some(r->Ok_0->Net_mac_address) == mac_address
            &&& r is Ok ==> (max_queues is Some <==> r->Ok_0->Net_max_queues is Some)
            &&& r is Ok && max_queues is Some ==> r->Ok_0->Net_max_queues->0 == max_queues->0
            &&& backend is None || mac_address is None ==> r is Err
        },
        device matches Some(VirtioDeviceRequest::Rng) ==> r is Ok && r->Ok_0 is Rng,
        device matches Some(VirtioDeviceRequest::Vsock { socket_path }) ==> r is Ok && r->Ok_0
            is Vsock && r->Ok_0->Vsock_socket_path == socket_path && r->Ok_0->guest_cid == 3,
        device matches Some(VirtioDeviceRequest::Console { relay }) ==> {
            &&& r is Ok <==> relay is Some && relay->0 is Some
            &&& r is Ok ==> r->Ok_0 is Console && r->Ok_0->relay == relay->0->0
        },
{
}

/// A device of another process is reached through its socket, on hosts that have such sockets,
/// with the queues that it was asked to have; a queue value that does not fit is turned
/// down.
pub proof fn law_vhost_user_device_is_the_requested_one(
    socket_path: String,
    device: VhostUserDevice,
    host: HostOs,
    r: Result<VirtioDevicePlan, Refusal>,
)
    requires
        call_ensures(
            build_virtio_device,
            (
                Some(
                    (VirtioDeviceRequest::VhostUser { socket_path, device: Some(Some(device)) }),
                ),
                host,
            ),
            r,
        ),
    ensures
        host is Windows ==> r is Err,
        r is Ok ==> (device is Blk <==> r->Ok_0 is VhostUserBlk) && (device is Fs <==> r->Ok_0
            is VhostUserFs) && (device is Other <==> r->Ok_0 is VhostUserOther),
        r is Ok && device is Blk ==> r->Ok_0->VhostUserBlk_socket_path == socket_path && (
        device->Blk_num_queues is Some ==> r->Ok_0->VhostUserBlk_num_queues == Some(
            device->Blk_num_queues->0 as u16,
        ) && device->Blk_num_queues->0 < 65536) && (device->Blk_queue_size is Some
            ==> r->Ok_0->VhostUserBlk_queue_size == Some(device->Blk_queue_size->0 as u16)
            && device->Blk_queue_size->0 < 65536),
        r is Ok && device is Fs ==> r->Ok_0->VhostUserFs_socket_path == socket_path
            && r->Ok_0->VhostUserFs_tag == device->tag,
        r is Ok && device is Other ==> r->Ok_0->VhostUserOther_socket_path == socket_path
            && r->Ok_0->device_id == device->Other_device_id && r->Ok_0->queue_sizes@.len()
            == device->Other_queue_sizes@.len(),
{
}

proof fn lemma_nvme(namespaces: Seq<NvmeNamespaceRequest>)
    ensures
        nvme_refusal(namespaces) is None <==> forall|i: int|
            0 <= i < namespaces.len() ==> (#[trigger] namespaces[i]).disk is Some
                && namespaces[i].disk->0 is Some,
    decreases namespaces.len(),
{
    if namespaces.len() > 0 {
        let rest = namespaces.skip(1);
        lemma_nvme(rest);
        assert(forall|i: int| 0 <= i < rest.len() ==> rest[i] == namespaces[i + 1]);
        let first = namespaces[0];
        if nvme_refusal(namespaces) is None {
            assert forall|i: int| 0 <= i < namespaces.len() implies (
            #[trigger] namespaces[i]).disk is Some && namespaces[i].disk->0 is Some by {
                if i > 0 {
                    assert(rest[i - 1].disk is Some);
                }
            }
        } else if first.disk is Some && first.disk->0 is Some {
            let k = choose|k: int|
                0 <= k < rest.len() && !((#[trigger] rest[k]).disk is Some && rest[k].disk->0
                    is Some);
            assert(namespaces[k + 1] == rest[k]);
        }
    }
}

/// An NVMe controller has the requested namespaces in their order, each with its number, its
/// disk and its access, and needs a disk for each.
pub proof fn law_namespaces_are_the_requested_ones(
    namespaces: Vec<NvmeNamespaceRequest>,
    r: Result<NvmePlan, Refusal>,
    i: int,
)
    requires
        call_ensures(build_nvme_controller, (namespaces,), r),
        0 <= i < namespaces@.len(),
    ensures
        r is Ok ==> {
            let (built, asked) = (r->Ok_0.namespaces@[i], namespaces@[i]);
            &&& r->Ok_0.namespaces@.len() == namespaces@.len()
            &&& built.nsid == asked.nsid && built.read_only == asked.read_only
            &&& asked.disk is Some && asked.disk->0 is Some && built.disk == asked.disk->0->0
            &&& r->Ok_0.msix_count == 64 && r->Ok_0.max_io_queues == 64
        },
        namespaces@[i].disk is None ==> r is Err,
{
    lemma_nvme(namespaces@);
    let asked = namespaces@[i];
}

/// A device behind a PCIe port is of the requested kind.
pub proof fn law_pcie_device_is_the_requested_one(
    device: Option<PcieDeviceRequest>,
    host: HostOs,
    r: Result<PcieDevicePlan, Refusal>,
)
    requires
        call_ensures(build_pcie_device, (device, host), r),
    ensures
        device is None ==> r is Err,
        r is Ok ==> (device->0 is Virtio <==> r->Ok_0 is Virtio) && (device->0 is Nvme <==> r->Ok_0
            is Nvme) && (device->0 is Vfio <==> r->Ok_0 is Vfio),
        r is Ok && device->0 is Nvme ==> r->Ok_0->Nvme_0.namespaces@.len()
            == device->0->Nvme_0@.len(),
        device is Some && device->0 is Vfio && !(host is Linux) ==> r is Err,
{
}

/// The devices behind PCIe ports stay behind the ports that they were found at, in the order
/// in which they were found.
pub proof fn law_pcie_devices_stay_in_place(
    pending: Vec<(String, Option<PcieDeviceRequest>)>,
    host: HostOs,
    r: Result<Vec<(String, PcieDevicePlan)>, Refusal>,
    i: int,
)
    requires
        call_ensures(build_pcie_devices, (pending, host), r),
        r is Ok,
        0 <= i < pending@.len(),
    ensures
        r->Ok_0@.len() == pending@.len(),
        r->Ok_0@[i].0 == pending@[i].0,
        pending@[i].1 is Some,
        pending@[i].1->0 is Nvme <==> r->Ok_0@[i].1 is Nvme,
        pending@[i].1->0 is Virtio <==> r->Ok_0@[i].1 is Virtio,
{
    let built = r->Ok_0@[i];
}

/// A standard machine is held to nothing but not booting as a microVM does. An accepted
/// microVM is bare: one processor in one node, no enlightenments, no VMBus, no PCI, no
/// screen, no firmware state and no clock of its own, a boot by PVH, and at most three
/// virtio devices, all in memory.
pub proof fn law_accepted_microvm_is_bare(
    config: Config,
    hypervisor: Option<&str>,
    host: HostOs,
    r: Result<(), Refusal>,
    i: int,
)
    requires
        call_ensures(validate_machine_config, (&config, hypervisor, host), r),
    ensures
        config.machine_profile is Standard ==> (r is Ok <==> !(config.load_mode is Pvh)),
        config.machine_profile is Microvm && r is Ok ==> {
            &&& config.load_mode is Pvh
            &&& hypervisor is Some ==> hypervisor->0@ == "kvm"@ || hypervisor->0@ == "whp"@
            &&& config.processor_topology.proc_count == 1
            &&& config.processor_topology.vps_per_socket is None
                && config.processor_topology.enable_smt is None
            &&& config.processor_topology.arch matches Some(ArchTopologyConfig::X86(topology))
                && topology.apic_id_offset == 0 && topology.x2apic is Auto
            &&& config.chipset.with_generic_cmos_rtc && !config.chipset.with_other_devices
            &&& config.numa.nodes@.len() == 1 && config.numa.distances@.len() == 0
            &&& !config.hypervisor.with_hv && config.hypervisor.with_vtl2 is None
                && config.hypervisor.with_isolation is None && !config.hypervisor.nested_virt
            &&& config.vmbus is None && config.vtl2_vmbus is None && config.vmbus_devices@.len()
                == 0
            &&& config.pcie_root_complexes@.len() == 0 && config.pcie_devices@.len() == 0
                && config.pcie_switches@.len() == 0 && config.vpci_devices@.len() == 0
                && config.pcie_generic_initiators@.len() == 0
                && config.pci_chipset_devices@.len() == 0 && config.isa_dma_controller is None
            &&& config.floppy_disks@.len() == 0 && config.ide_disks@.len() == 0
            &&& !config.framebuffer && !config.vga_firmware && !config.vtl2_gfx
            &&& config.vmgs is None && !config.debugger_rpc && !config.firmware_event_send
            &&& config.rtc_delta_milliseconds == 0
            &&& config.kernel_vmnics@.len() == 0 && config.vpci_resources@.len() == 0
            &&& config.virtio_devices@.len() <= 3
            &&& 0 <= i < config.virtio_devices@.len() ==> config.virtio_devices@[i].0 is Mmio
            &&& config.chipset_devices@.len() == 6
            &&& config.chipset_capabilities.with_pic && config.chipset_capabilities.with_pit
                && config.chipset_capabilities.with_ioapic
            &&& !config.chipset_capabilities.with_generic_isa_dma
                && !config.chipset_capabilities.with_psp
                && !config.chipset_capabilities.with_guest_watchdog
                && !config.chipset_capabilities.with_i440bx_host_pci_bridge
            &&& config.layout.chipset_low_mmio_size == 0x4000_0000
                && config.layout.chipset_high_mmio_size == 0
                && config.layout.vtl2_chipset_mmio_size == 0
        },
{
    if 0 <= i < config.virtio_devices@.len() {
        let device = config.virtio_devices@[i];
    }
}

/// A worker is launched with the machine that it is given. A restored machine writes to
/// its own copy of the recorded memory, starts from the recorded state, and is told how
/// long it was away and how fast its clocks ran; any other machine is told none of this.
pub proof fn law_worker_is_told_what_it_runs(
    cfg: Config,
    memory: LaunchMemory,
    gate: bool,
    timeout_ms: u64,
    p: VmWorkerParameters,
)
    requires
        call_ensures(worker_parameters, (cfg, memory, gate, timeout_ms), p),
    ensures
        p.cfg == cfg,
        p.restore_gate_timeout_ms is Some <==> gate,
        gate ==> p.restore_gate_timeout_ms->0 == timeout_ms,
        memory is Anonymous <==> p.shared_memory is None,
        memory is Snapshot <==> p.shared_memory_copy_on_write,
        memory is Snapshot <==> p.saved_state is Some,
        memory matches LaunchMemory::Shared(file) ==> p.shared_memory == Some(file),
        memory matches LaunchMemory::Snapshot { file, saved_state, time } ==> {
            &&& p.shared_memory == Some(file) && p.saved_state == Some(saved_state)
            &&& p.restore_downtime_ns is Some <==> time is Some
            &&& time matches Some(time) ==> {
                &&& p.restore_downtime_ns == Some(time.downtime_ns)
                &&& p.restore_tsc_frequency_hz == Some(time.tsc_frequency_hz)
                &&& p.restore_apic_frequency_hz == time.apic_frequency_hz
                &&& p.restore_cpu_contract == Some(time.cpu_contract)
            }
        },
        !(memory is Snapshot) ==> p.restore_downtime_ns is None && p.restore_tsc_frequency_hz
            is None && p.restore_apic_frequency_hz is None && p.restore_cpu_contract is None,
{
}

/// Every network identity is whole: its guest is a host of its subnet, its gateway is the
/// first, and both hardware addresses carry the prefix for virtual machines and the
/// last three numbers of the address that they belong to.
pub proof fn law_network_identity_is_whole(config: MicrovmNetworkConfig)
    requires
        config.wf(),
    ensures
        ({
            let size = subnet_size(config.prefix_length as nat);
            let guest = config.guest_ipv4.bits as nat;
            &&& 1 <= config.prefix_length <= 30
            &&& 1 < guest % size < size - 1
            &&& config.derived_gateway_ipv4.bits == guest - guest % size + 1
            &&& config.guest_mac.octets@[0] == 0x52 && config.guest_mac.octets@[1] == 0x54
                && config.guest_mac.octets@[2] == 0
            &&& config.gateway_mac.octets@[0] == 0x52 && config.gateway_mac.octets@[1] == 0x54
                && config.gateway_mac.octets@[2] == 0
        }),
{
    let size = subnet_size(config.prefix_length as nat);
    let guest = config.guest_ipv4.bits as nat;
    vstd::arithmetic::power2::lemma_pow2_pos((32 - config.prefix_length) as nat);
    vstd::arithmetic::div_mod::lemma_mod_bound(guest as int, size as int);
    vstd::arithmetic::div_mod::lemma_mod_decreases(guest, size);
}

/// The mask of a network covers exactly its addresses.
pub proof fn law_mask_covers_the_subnet(config: MicrovmNetworkConfig, mask: Ipv4Address)
    requires
        call_ensures(MicrovmNetworkConfig::netmask, (&config,), mask),
    ensures
        mask.bits + subnet_size(config.prefix_length as nat) == 0x1_0000_0000,
{
}

} // verus!
