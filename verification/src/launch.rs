//! A launched machine as a whole.

use vstd::prelude::*;

use crate::chipset::IsolationRequest;
use crate::config::{
    Aarch64TopologyConfig, ArchTopologyConfig, Config, GicMsiConfig, HostOs, HypervisorConfig,
    IsolationType, LateMapVtl0MemoryPolicy, LoadMode, MachineProfile, MemoryConfig, NumaDistance,
    NumaNode, NumaTopology, PmuGsivConfig, ProcessorTopologyConfig, VirtioBus, VmbusConfig,
    VpAssignment, Vtl2Config, X2ApicConfig, X86TopologyConfig,
};
use crate::console::{VirtioConsoleAttachment, VirtioConsoleReconnectPolicy};
use crate::create::ConsoleDisconnectPolicy;
use crate::machine::{machine_refusal, validate_machine_config};
use crate::microvm::{
    append_microvm_device_discovery, device_ids, discovered, discovery_tokens,
    microvm_virtio_net_irq, net_irq, pvh_command_line, same_pvh_with, slot_refusal,
    MICROVM_COMMAND_LINE_MAX_SIZE,
};
use crate::refusal::{refusal_of, refuse, text_view, Refusal};
use crate::snapshot::SnapshotMachineContract;
use crate::text::{
    byte_len, has_prefix, push_text, same_text, split_at_first, split_once, split_words,
    starts_with, string_views, words,
};

verus! {

/// Why an isolation is refused, if it is.
pub open spec fn isolation_refusal(
    isolation: Option<IsolationRequest>,
    vtl2: bool,
    no_alias_map: bool,
) -> Option<Seq<char>> {
    if isolation == Some(IsolationRequest::Vbs) && !vtl2 {
        Some("VBS isolation is only currently supported with vtl2"@)
    } else if isolation == Some(IsolationRequest::Vbs) && !no_alias_map {
        Some("alias map not supported with isolation"@)
    } else {
        None
    }
}

/// Selects the isolation of a machine.
pub fn select_isolation(isolation: Option<IsolationRequest>, vtl2: bool, no_alias_map: bool) -> (r:
    Result<Option<IsolationType>, Refusal>)
    ensures
        refusal_of(r) == isolation_refusal(isolation, vtl2, no_alias_map),
        r is Ok ==> r->Ok_0 == (match isolation {
            None => None,
            Some(IsolationRequest::Vbs) => Some(IsolationType::Vbs),
            Some(IsolationRequest::Snp) => Some(IsolationType::Snp),
        }),
{
    match isolation {
        None => Ok(None),
        Some(IsolationRequest::Vbs) => {
            if !vtl2 {
                return Err(refuse("VBS isolation is only currently supported with vtl2"));
            }
            if !no_alias_map {
                return Err(refuse("alias map not supported with isolation"));
            }
            Ok(Some(IsolationType::Vbs))
        },
        Some(IsolationRequest::Snp) => Ok(Some(IsolationType::Snp)),
    }
}

/// How processors share cores.
#[derive(Clone, Copy, Debug, PartialEq, Eq, Structural)]
pub enum SmtOption {
    Auto,
    Force,
    Off,
}

/// How interrupts of PCI devices are delivered on Arm.
#[derive(Clone, Copy, Debug, PartialEq, Eq, Structural)]
pub enum GicMsiOption {
    Auto,
    Its,
    V2m,
}

/// What the processors of a machine are asked to be.
#[derive(Clone, Copy, Debug, PartialEq, Eq, Structural)]
pub enum ArchOption {
    X86 { apic_id_offset: u32, x2apic: X2ApicConfig },
    Aarch64 { gic_msi: GicMsiOption },
}

/// The processors of a machine. Those of a microVM are fixed: one socket, without
/// sharing, with plain interrupt controllers.
pub open spec fn topology_of(
    processors: u32,
    vps_per_socket: Option<u32>,
    smt: SmtOption,
    arch: ArchOption,
    microvm: bool,
) -> ProcessorTopologyConfig {
    ProcessorTopologyConfig {
        proc_count: processors,
        vps_per_socket: if microvm {
            Some(processors)
        } else {
            vps_per_socket
        },
        enable_smt: if microvm {
            Some(false)
        } else {
            match smt {
                SmtOption::Auto => None,
                SmtOption::Force => Some(true),
                SmtOption::Off => Some(false),
            }
        },
        arch: Some(
            match arch {
                ArchOption::X86 { apic_id_offset, x2apic } => ArchTopologyConfig::X86(
                    if microvm {
                        X86TopologyConfig { apic_id_offset: 0, x2apic: X2ApicConfig::Unsupported }
                    } else {
                        X86TopologyConfig { apic_id_offset, x2apic }
                    },
                ),
                ArchOption::Aarch64 { gic_msi } => ArchTopologyConfig::Aarch64(
                    Aarch64TopologyConfig {
                        gic_config: None,
                        pmu_gsiv: PmuGsivConfig::Platform,
                        gic_msi: match gic_msi {
                            GicMsiOption::Auto => GicMsiConfig::Auto,
                            GicMsiOption::Its => GicMsiConfig::Its,
                            GicMsiOption::V2m => GicMsiConfig::V2m { spi_count: None },
                        },
                    },
                ),
            },
        ),
    }
}

/// Selects the processors of a machine.
pub fn processor_topology(
    processors: u32,
    vps_per_socket: Option<u32>,
    smt: SmtOption,
    arch: ArchOption,
    microvm: bool,
) -> (r: ProcessorTopologyConfig)
    ensures
        r == topology_of(processors, vps_per_socket, smt, arch, microvm),
{
    let vps_per_socket: Option<u32> = if microvm {
        Some(processors)
    } else {
        vps_per_socket
    };
    let enable_smt: Option<bool> = if microvm {
        Some(false)
    } else {
        match smt {
            SmtOption::Auto => None,
            SmtOption::Force => Some(true),
            SmtOption::Off => Some(false),
        }
    };
    let arch = match arch {
        ArchOption::X86 { apic_id_offset, x2apic } => ArchTopologyConfig::X86(
            if microvm {
                X86TopologyConfig { apic_id_offset: 0, x2apic: X2ApicConfig::Unsupported }
            } else {
                X86TopologyConfig { apic_id_offset, x2apic }
            },
        ),
        ArchOption::Aarch64 { gic_msi } => ArchTopologyConfig::Aarch64(
            Aarch64TopologyConfig {
                gic_config: None,
                pmu_gsiv: PmuGsivConfig::Platform,
                gic_msi: match gic_msi {
                    GicMsiOption::Auto => GicMsiConfig::Auto,
                    GicMsiOption::Its => GicMsiConfig::Its,
                    GicMsiOption::V2m => GicMsiConfig::V2m { spi_count: None },
                },
            },
        ),
    };
    ProcessorTopologyConfig {
        proc_count: processors,
        vps_per_socket,
        enable_smt,
        arch: Some(arch),
    }
}

/// What happens where guest memory is touched before it is mapped.
#[derive(Clone, Copy, Debug, PartialEq, Eq, Structural)]
pub enum LateMapOption {
    Off,
    Log,
    Halt,
    Exception,
}

/// Selects the hypervisor features of a machine.
pub fn hypervisor_config(
    with_hv: bool,
    vtl2: bool,
    no_alias_map: bool,
    late_map: LateMapOption,
    with_isolation: Option<IsolationType>,
    nested_virt: bool,
) -> (r: HypervisorConfig)
    ensures
        r == (HypervisorConfig {
            with_hv,
            with_vtl2: if vtl2 {
                Some(
                    Vtl2Config {
                        vtl0_alias_map: !no_alias_map,
                        late_map_vtl0_memory: match late_map {
                            LateMapOption::Off => None,
                            LateMapOption::Log => Some(LateMapVtl0MemoryPolicy::Log),
                            LateMapOption::Halt => Some(LateMapVtl0MemoryPolicy::Halt),
                            LateMapOption::Exception => Some(
                                LateMapVtl0MemoryPolicy::InjectException,
                            ),
                        },
                    },
                )
            } else {
                None
            },
            with_isolation,
            nested_virt,
        }),
{
    let late_map_vtl0_memory: Option<LateMapVtl0MemoryPolicy> = match late_map {
        LateMapOption::Off => None,
        LateMapOption::Log => Some(LateMapVtl0MemoryPolicy::Log),
        LateMapOption::Halt => Some(LateMapVtl0MemoryPolicy::Halt),
        LateMapOption::Exception => Some(LateMapVtl0MemoryPolicy::InjectException),
    };
    let with_vtl2: Option<Vtl2Config> = if vtl2 {
        Some(Vtl2Config { vtl0_alias_map: !no_alias_map, late_map_vtl0_memory })
    } else {
        None
    };
    HypervisorConfig { with_hv, with_vtl2, with_isolation, nested_virt }
}

/// What VMBus is asked to offer.
#[derive(Debug)]
pub struct VmbusOptions {
    pub vsock_path: Option<String>,
    pub vtl2_vsock_path: Option<String>,
    pub vmbus_redirect: bool,
    pub vmbus_max_version: Option<u32>,
    pub no_vmbus: bool,
}

/// Selects the VMBus instances of a machine: that of the guest and that of its
/// paravisor.
pub fn vmbus_configs(options: VmbusOptions, with_hv: bool, vtl2: bool) -> (r: (
    Option<VmbusConfig>,
    Option<VmbusConfig>,
))
    ensures
        r.0 is Some <==> with_hv && !options.no_vmbus,
        r.0 is Some ==> {
            let vmbus = r.0->0;
            &&& vmbus.vsock_listener == (options.vsock_path is Some)
            &&& vmbus.vsock_path == options.vsock_path
            &&& vmbus.vtl2_redirect == options.vmbus_redirect
            &&& vmbus.vmbus_max_version == options.vmbus_max_version
        },
        r.1 is Some <==> with_hv && vtl2,
        r.1 is Some ==> {
            let vmbus = r.1->0;
            &&& vmbus.vsock_listener == (options.vtl2_vsock_path is Some)
            &&& vmbus.vsock_path == options.vtl2_vsock_path
            &&& !vmbus.vtl2_redirect && vmbus.vmbus_max_version is None
        },
{
    let vmbus: Option<VmbusConfig> = if with_hv && !options.no_vmbus {
        Some(
            VmbusConfig {
                vsock_listener: options.vsock_path.is_some(),
                vsock_path: options.vsock_path,
                vmbus_max_version: options.vmbus_max_version,
                vtl2_redirect: options.vmbus_redirect,
            },
        )
    } else {
        None
    };
    let vtl2_vmbus: Option<VmbusConfig> = if with_hv && vtl2 {
        Some(
            VmbusConfig {
                vsock_listener: options.vtl2_vsock_path.is_some(),
                vsock_path: options.vtl2_vsock_path,
                vmbus_max_version: None,
                vtl2_redirect: false,
            },
        )
    } else {
        None
    };
    (vmbus, vtl2_vmbus)
}

/// The bus that a virtio device is asked to be on.
#[derive(Clone, Copy, Debug, PartialEq, Eq, Structural)]
pub enum VirtioBusOption {
    Auto,
    Mmio,
    Pci,
    Vpci,
}

/// Where a virtio device is placed.
#[derive(Debug)]
pub enum VirtioPlace {
    /// Behind a PCIe port.
    Port(String),
    Bus(VirtioBus),
    /// On a virtual PCI bus of its own.
    Vpci,
}

/// The bus of a virtio device, or none where it has a virtual PCI bus of its own.
/// Some hypervisors cannot give it one.
pub open spec fn virtio_bus_of(bus: VirtioBusOption, with_hv: bool, host: HostOs) -> Option<
    VirtioBus,
> {
    match bus {
        VirtioBusOption::Auto => if with_hv && (host == HostOs::Windows || host
            == HostOs::Macos) {
            None
        } else {
            Some(VirtioBus::Pci)
        },
        VirtioBusOption::Mmio => Some(VirtioBus::Mmio),
        VirtioBusOption::Pci => Some(VirtioBus::Pci),
        VirtioBusOption::Vpci => None,
    }
}

/// Places a virtio device: behind the PCIe port it names, or on a bus.
pub fn place_virtio(
    pcie_port: Option<String>,
    bus: VirtioBusOption,
    with_hv: bool,
    host: HostOs,
) -> (r: VirtioPlace)
    ensures
        match pcie_port {
            Some(port) => r == VirtioPlace::Port(port),
            None => match virtio_bus_of(bus, with_hv, host) {
                Some(bus) => r == VirtioPlace::Bus(bus),
                None => r is Vpci,
            },
        },
{
    match pcie_port {
        Some(port) => VirtioPlace::Port(port),
        None => match bus {
            VirtioBusOption::Auto => {
                if with_hv && (host == HostOs::Windows || host == HostOs::Macos) {
                    VirtioPlace::Vpci
                } else {
                    VirtioPlace::Bus(VirtioBus::Pci)
                }
            },
            VirtioBusOption::Mmio => VirtioPlace::Bus(VirtioBus::Mmio),
            VirtioBusOption::Pci => VirtioPlace::Bus(VirtioBus::Pci),
            VirtioBusOption::Vpci => VirtioPlace::Vpci,
        },
    }
}

/// What the virtio console does with output while nobody is attached. The console
/// of a microVM keeps it, unless its attachment says to discard it.
pub fn console_disconnect_policy(
    microvm: bool,
    attachment: Option<&VirtioConsoleAttachment>,
) -> (r: ConsoleDisconnectPolicy)
    ensures
        r == (if microvm && !(attachment is Some && attachment->0.reconnect_policy
            == VirtioConsoleReconnectPolicy::DiscardWhileDisconnected) {
            ConsoleDisconnectPolicy::Retain
        } else {
            ConsoleDisconnectPolicy::Discard
        }),
{
    let discards = match attachment {
        Some(attachment) => attachment.reconnect_policy
            == VirtioConsoleReconnectPolicy::DiscardWhileDisconnected,
        None => false,
    };
    if microvm && !discards {
        ConsoleDisconnectPolicy::Retain
    } else {
        ConsoleDisconnectPolicy::Discard
    }
}

/// The memory of a node as options describe it.
#[derive(Clone, Copy, Debug, PartialEq, Eq, Structural)]
pub struct MemoryOptions {
    pub size: u64,
    pub prefetch: bool,
    pub shared: Option<bool>,
    pub transparent_hugepages: Option<bool>,
    pub hugepages: bool,
    pub hugepage_size: Option<u64>,
    pub host_numa_node: Option<u32>,
}

/// The memory that options describe. Large pages are made transparently unless
/// they are asked for outright.
pub open spec fn memory_of(m: MemoryOptions) -> MemoryConfig {
    MemoryConfig {
        mem_size: m.size,
        prefetch_memory: m.prefetch,
        private_memory: m.shared == Some(false),
        transparent_hugepages: match m.transparent_hugepages {
            Some(b) => b,
            None => !m.hugepages,
        },
        hugepages: m.hugepages,
        hugepage_size: m.hugepage_size,
        host_numa_node: m.host_numa_node,
    }
}

fn node_memory(m: &MemoryOptions) -> (r: MemoryConfig)
    ensures
        r == memory_of(*m),
{
    let private_memory = match m.shared {
        Some(shared) => !shared,
        None => false,
    };
    let transparent_hugepages = match m.transparent_hugepages {
        Some(b) => b,
        None => !m.hugepages,
    };
    MemoryConfig {
        mem_size: m.size,
        prefetch_memory: m.prefetch,
        private_memory,
        transparent_hugepages,
        hugepages: m.hugepages,
        hugepage_size: m.hugepage_size,
        host_numa_node: m.host_numa_node,
    }
}

/// A node as options describe it. The processors are given as the host expanded
/// them, or as the reason they could not be; none means they follow the topology.
#[derive(Debug)]
pub struct NumaOptions {
    pub memory: MemoryOptions,
    pub vps: Option<Result<Vec<u32>, Refusal>>,
}

/// Why a node is refused, if it is.
pub open spec fn node_refusal(n: NumaOptions) -> Option<Seq<char>> {
    match n.vps {
        Some(Err(e)) => Some(e@),
        _ => None,
    }
}

/// The first refusal among the nodes from a position on.
pub open spec fn numa_refusal(nodes: Seq<NumaOptions>, from: int) -> Option<Seq<char>>
    decreases nodes.len() - from,
{
    if from < 0 || from >= nodes.len() {
        None
    } else if node_refusal(nodes[from]) is Some {
        node_refusal(nodes[from])
    } else {
        numa_refusal(nodes, from + 1)
    }
}

/// The node is the one that options describe.
pub open spec fn is_launch_node(node: NumaNode, n: NumaOptions) -> bool {
    &&& node.mem == Some(memory_of(n.memory))
    &&& match n.vps {
        None => node.vps is FromTopology,
        Some(Ok(list)) => if list@.len() == 0 {
            node.vps is Empty
        } else {
            node.vps matches VpAssignment::Explicit(indices) && indices@ == list@
        },
        Some(Err(_)) => false,
    }
}

fn copy_list(list: &Vec<u32>) -> (r: Vec<u32>)
    ensures
        r@ == list@,
{
    let mut out: Vec<u32> = Vec::new();
    let mut i: usize = 0;
    while i < list.len()
        invariant
            i <= list@.len(),
            out@ == list@.take(i as int),
        decreases list@.len() - i,
    {
        out.push(list[i]);
        assert(list@.take(i + 1) =~= list@.take(i as int).push(list@[i as int]));
        i += 1;
    }
    assert(list@.take(i as int) =~= list@);
    out
}

fn launch_node(n: &NumaOptions) -> (r: Result<NumaNode, Refusal>)
    ensures
        refusal_of(r) == node_refusal(*n),
        r is Ok ==> is_launch_node(r->Ok_0, *n),
{
    let vps = match &n.vps {
        None => VpAssignment::FromTopology,
        Some(Ok(list)) => {
            if list.len() == 0 {
                VpAssignment::Empty
            } else {
                VpAssignment::Explicit(copy_list(list))
            }
        },
        Some(Err(e)) => return Err(refuse(e.message.as_str())),
    };
    Ok(NumaNode { mem: Some(node_memory(&n.memory)), vps })
}

/// Selects the NUMA topology of a machine: the nodes that are described, or one
/// node with all its memory.
pub fn launch_numa(
    nodes: Option<&Vec<NumaOptions>>,
    distances: &Vec<NumaDistance>,
    memory: &MemoryOptions,
) -> (r: Result<NumaTopology, Refusal>)
    ensures
        refusal_of(r) == (match nodes {
            Some(nodes) => numa_refusal(nodes@, 0),
            None => None,
        }),
        r is Ok ==> match nodes {
            Some(nodes) => {
                &&& r->Ok_0.nodes@.len() == nodes@.len()
                &&& forall|i: int|
                    0 <= i < nodes@.len() ==> is_launch_node(
                        #[trigger] r->Ok_0.nodes@[i],
                        nodes@[i],
                    )
                &&& r->Ok_0.distances@ == distances@
            },
            None => {
                &&& r->Ok_0.nodes@.len() == 1
                &&& r->Ok_0.nodes@[0].mem == Some(memory_of(*memory))
                &&& r->Ok_0.nodes@[0].vps is FromTopology
                &&& r->Ok_0.distances@.len() == 0
            },
        },
{
    let list = match nodes {
        Some(nodes) => nodes,
        None => {
            let mut single: Vec<NumaNode> = Vec::new();
            single.push(
                NumaNode { mem: Some(node_memory(memory)), vps: VpAssignment::FromTopology },
            );
            return Ok(NumaTopology { nodes: single, distances: Vec::new() });
        },
    };
    let mut out: Vec<NumaNode> = Vec::new();
    let mut i: usize = 0;
    while i < list.len()
        invariant
            i <= list@.len(),
            nodes == Some(list),
            out@.len() == i,
            numa_refusal(list@, 0) == numa_refusal(list@, i as int),
            forall|k: int| 0 <= k < i ==> is_launch_node(#[trigger] out@[k], list@[k]),
        decreases list@.len() - i,
    {
        match launch_node(&list[i]) {
            Ok(node) => {
                out.push(node);
            },
            Err(e) => return Err(e),
        }
        i += 1;
    }
    let mut copied: Vec<NumaDistance> = Vec::new();
    let mut j: usize = 0;
    while j < distances.len()
        invariant
            j <= distances@.len(),
            copied@ == distances@.take(j as int),
        decreases distances@.len() - j,
    {
        copied.push(distances[j]);
        assert(distances@.take(j + 1) =~= distances@.take(j as int).push(distances@[j as int]));
        j += 1;
    }
    assert(distances@.take(j as int) =~= distances@);
    Ok(NumaTopology { nodes: out, distances: copied })
}

/// How far the memory of a microVM can grow: what its snapshot records, where it
/// records anything, or what is asked for.
pub fn microvm_memory_capacity(
    contract: Option<&SnapshotMachineContract>,
    requested: Option<u64>,
) -> (r: Option<u64>)
    ensures
        r == (if contract is Some && contract->0.memory_expansion_version != 0 {
            Some(contract->0.memory_capacity_bytes)
        } else {
            requested
        }),
{
    match contract {
        Some(contract) => if contract.memory_expansion_version != 0 {
            Some(contract.memory_capacity_bytes)
        } else {
            requested
        },
        None => requested,
    }
}

/// Whether a machine has a framebuffer.
pub fn needs_framebuffer(gfx: bool, vtl2_gfx: bool, vnc: bool, pcat: bool) -> (b: bool)
    ensures
        b == (gfx || vtl2_gfx || vnc || pcat),
{
    gfx || vtl2_gfx || vnc || pcat
}

/// Whether a machine has a guest emulation channel.
pub fn with_get(get: bool, vtl2: bool, no_get: bool) -> (b: bool)
    ensures
        b == (get || vtl2 && !no_get),
{
    get || vtl2 && !no_get
}

/// The name of the hypervisor that is asked for, without its parameters.
pub open spec fn hypervisor_name(spec_text: Seq<char>) -> Seq<char> {
    match split_at_first(spec_text, ':') {
        Some((name, _)) => name,
        None => spec_text,
    }
}

/// The name of the hypervisor that is asked for, without its parameters.
pub fn requested_hypervisor(hypervisor: Option<&str>) -> (r: Option<String>)
    ensures
        match hypervisor {
            None => r is None,
            Some(text) => r is Some && r->0@ == hypervisor_name(text@),
        },
{
    match hypervisor {
        None => None,
        Some(text) => match split_once(text, ':') {
            Some((name, _)) => Some(name),
            None => Some(text.to_owned()),
        },
    }
}

/// The prefix of the token that tells a guest how it is captured.
pub const SNAPSHOT_TIER_PREFIX: &'static str = "nvx_snapshot_tier=";

/// Some word of the command line tells how the guest is captured.
pub open spec fn names_tier(cmdline: Seq<char>) -> bool {
    exists|i: int|
        0 <= i < words(cmdline).len() && has_prefix(
            #[trigger] words(cmdline)[i],
            SNAPSHOT_TIER_PREFIX@,
        )
}

/// The command line with the word that tells how the guest is captured.
pub open spec fn with_tier(cmdline: Seq<char>, tier: Seq<char>) -> Seq<char> {
    (if cmdline.len() == 0 {
        cmdline
    } else {
        cmdline.push(' ')
    }) + SNAPSHOT_TIER_PREFIX@ + tier
}

fn mentions_tier(cmdline: &str) -> (b: bool)
    ensures
        b == names_tier(cmdline@),
{
    let list = split_words(cmdline);
    let mut i: usize = 0;
    while i < list.len()
        invariant
            i <= list@.len(),
            string_views(list@) == words(cmdline@),
            forall|k: int|
                0 <= k < i ==> !has_prefix(
                    #[trigger] words(cmdline@)[k],
                    SNAPSHOT_TIER_PREFIX@,
                ),
        decreases list@.len() - i,
    {
        assert(words(cmdline@)[i as int] == list@[i as int]@);
        if starts_with(list[i].as_str(), SNAPSHOT_TIER_PREFIX) {
            return true;
        }
        i += 1;
    }
    false
}

/// Tells a guest how it is captured. The word is reserved for the host.
pub fn append_snapshot_tier(cmdline: &mut String, tier: &str) -> (r: Result<(), Refusal>)
    ensures
        refusal_of(r) == (if names_tier(old(cmdline)@) {
            Some("nvx_snapshot_tier is reserved for the host snapshot policy"@)
        } else {
            None
        }),
        final(cmdline)@ == (if r is Ok {
            with_tier(old(cmdline)@, tier@)
        } else {
            old(cmdline)@
        }),
{
    if mentions_tier(cmdline.as_str()) {
        return Err(refuse("nvx_snapshot_tier is reserved for the host snapshot policy"));
    }
    if !cmdline.as_str().is_empty() {
        cmdline.push(' ');
    }
    push_text(cmdline, SNAPSHOT_TIER_PREFIX);
    push_text(cmdline, tier);
    assert(cmdline@ =~= with_tier(old(cmdline)@, tier@));
    Ok(())
}

/// The chipset devices that an isolated machine may have.
pub open spec fn snp_chipset_device(id: Seq<char>) -> bool {
    id == "serial_16550"@ || id == "pic"@ || id == "pit"@ || id == "generic-ioapic"@ || id
        == "hyperv_power_management"@ || id == "missing-dev"@
}

/// Every chipset device may be part of an isolated machine.
pub open spec fn snp_chipset(config: Config) -> bool {
    forall|i: int|
        0 <= i < config.chipset_devices@.len() ==> snp_chipset_device(
            (#[trigger] config.chipset_devices@[i]).resource.id@,
        )
}

/// Every PCIe device is a virtio device.
pub open spec fn snp_pcie(config: Config) -> bool {
    forall|i: int|
        0 <= i < config.pcie_devices@.len() ==> (#[trigger] config.pcie_devices@[i]).resource.id@
            == "virtio"@
}

/// Why an isolated machine is refused, if it is.
pub open spec fn snp_refusal(config: Config) -> Option<Seq<char>> {
    if config.hypervisor.with_isolation != Some(IsolationType::Snp) {
        None
    } else if !(config.load_mode is Linux || config.load_mode is Igvm) {
        Some("SNP isolation currently only supports Linux direct or IGVM boot"@)
    } else if config.hypervisor.with_hv {
        Some("SNP isolation currently does not support Hyper-V enlightenments"@)
    } else if config.hypervisor.with_vtl2 is Some {
        Some("SNP isolation currently does not support VTL2"@)
    } else if config.vmbus is Some || config.vtl2_vmbus is Some || config.vmbus_devices@.len()
        != 0 {
        Some("SNP isolation currently does not support VMBus devices"@)
    } else if config.floppy_disks@.len() != 0 || config.ide_disks@.len() != 0
        || config.virtio_devices@.len() != 0 || !snp_pcie(config) || config.vpci_devices@.len()
        != 0 || !snp_chipset(config) || config.pci_chipset_devices@.len() != 0 {
        Some("SNP isolation currently only supports virtio devices"@)
    } else if config.framebuffer || config.vga_firmware || config.debugger_rpc {
        Some("SNP isolation currently does not support this VM configuration"@)
    } else {
        None
    }
}

fn only_snp_chipset(config: &Config) -> (b: bool)
    ensures
        b == snp_chipset(*config),
{
    let mut i: usize = 0;
    while i < config.chipset_devices.len()
        invariant
            i <= config.chipset_devices@.len(),
            forall|k: int|
                0 <= k < i ==> snp_chipset_device(
                    (#[trigger] config.chipset_devices@[k]).resource.id@,
                ),
        decreases config.chipset_devices@.len() - i,
    {
        let id = config.chipset_devices[i].resource.id.as_str();
        if !(same_text(id, "serial_16550") || same_text(id, "pic") || same_text(id, "pit")
            || same_text(id, "generic-ioapic") || same_text(id, "hyperv_power_management")
            || same_text(id, "missing-dev")) {
            assert(!snp_chipset_device(config.chipset_devices@[i as int].resource.id@));
            return false;
        }
        i += 1;
    }
    true
}

fn only_virtio_pcie(config: &Config) -> (b: bool)
    ensures
        b == snp_pcie(*config),
{
    let mut i: usize = 0;
    while i < config.pcie_devices.len()
        invariant
            i <= config.pcie_devices@.len(),
            forall|k: int|
                0 <= k < i ==> (#[trigger] config.pcie_devices@[k]).resource.id@ == "virtio"@,
        decreases config.pcie_devices@.len() - i,
    {
        if !same_text(config.pcie_devices[i].resource.id.as_str(), "virtio") {
            assert(config.pcie_devices@[i as int].resource.id@ != "virtio"@);
            return false;
        }
        i += 1;
    }
    true
}

/// Holds an isolated machine to what its isolation supports.
pub fn validate_snp_config(config: &Config) -> (r: Result<(), Refusal>)
    ensures
        refusal_of(r) == snp_refusal(*config),
{
    let snp = match config.hypervisor.with_isolation {
        Some(IsolationType::Snp) => true,
        _ => false,
    };
    if !snp {
        return Ok(());
    }
    let direct = match &config.load_mode {
        LoadMode::Linux { .. } | LoadMode::Igvm { .. } => true,
        _ => false,
    };
    if !direct {
        return Err(refuse("SNP isolation currently only supports Linux direct or IGVM boot"));
    }
    if config.hypervisor.with_hv {
        return Err(refuse("SNP isolation currently does not support Hyper-V enlightenments"));
    }
    if config.hypervisor.with_vtl2.is_some() {
        return Err(refuse("SNP isolation currently does not support VTL2"));
    }
    if config.vmbus.is_some() || config.vtl2_vmbus.is_some() || config.vmbus_devices.len() != 0 {
        return Err(refuse("SNP isolation currently does not support VMBus devices"));
    }
    if config.floppy_disks.len() != 0 || config.ide_disks.len() != 0
        || config.virtio_devices.len() != 0 || !only_virtio_pcie(config)
        || config.vpci_devices.len() != 0 || !only_snp_chipset(config)
        || config.pci_chipset_devices.len() != 0 {
        return Err(refuse("SNP isolation currently only supports virtio devices"));
    }
    if config.framebuffer || config.vga_firmware || config.debugger_rpc {
        return Err(
            refuse("SNP isolation currently does not support this VM configuration"),
        );
    }
    Ok(())
}

/// What a machine is finished with.
#[derive(Debug)]
pub struct FinishOptions {
    /// Whether the machine is restored from a snapshot, whose command line is
    /// already complete.
    pub restored: bool,
    pub snapshot_tier: Option<String>,
    pub hypervisor: Option<String>,
}

/// The machine is a microVM whose command line is still to be completed.
pub open spec fn completes_command_line(config: Config, options: FinishOptions) -> bool {
    config.machine_profile == MachineProfile::Microvm && !options.restored
}

/// The view of a requested hypervisor.
pub open spec fn hypervisor_view(options: FinishOptions) -> Option<Seq<char>> {
    match options.hypervisor {
        Some(name) => Some(name@),
        None => None,
    }
}

/// The command line with the word that tells how the guest is captured, where one
/// is asked for.
pub open spec fn tiered(cmdline: Seq<char>, tier: Option<String>) -> Seq<char> {
    match tier {
        Some(tier) => with_tier(cmdline, tier@),
        None => cmdline,
    }
}

/// Why the command line of a fresh microVM cannot be completed, if it cannot.
pub open spec fn completion_refusal(config: Config, options: FinishOptions, host: HostOs) -> Option<
    Seq<char>,
> {
    let ids = device_ids(config.virtio_devices@);
    let hv = hypervisor_view(options);
    match pvh_command_line(config.load_mode) {
        None => Some("microVM discovery requires PVH load mode"@),
        Some(line) => {
            let complete = discovered(
                tiered(line, options.snapshot_tier),
                discovery_tokens(ids, hv, host),
            );
            if config.microvm_network is Some && net_irq(hv, host) is Err {
                Some(net_irq(hv, host)->Err_0)
            } else if options.snapshot_tier is Some && names_tier(line) {
                Some("nvx_snapshot_tier is reserved for the host snapshot policy"@)
            } else if slot_refusal(ids, hv, host) is Some {
                slot_refusal(ids, hv, host)
            } else if byte_len(complete) >= MICROVM_COMMAND_LINE_MAX_SIZE {
                Some("microVM command line exceeds the 64-KiB limit"@)
            } else {
                None
            }
        },
    }
}

/// The configuration is the one that was put together, with its command line
/// completed where it was not yet.
pub open spec fn is_finished(
    finished: Config,
    config: Config,
    options: FinishOptions,
    host: HostOs,
) -> bool {
    &&& finished == (Config { load_mode: finished.load_mode, ..config })
    &&& if completes_command_line(config, options) {
        same_pvh_with(
            config.load_mode,
            finished.load_mode,
            discovered(
                tiered(pvh_command_line(config.load_mode)->0, options.snapshot_tier),
                discovery_tokens(
                    device_ids(config.virtio_devices@),
                    hypervisor_view(options),
                    host,
                ),
            ),
        )
    } else {
        finished.load_mode == config.load_mode
    }
}

fn complete_command_line(config: &mut Config, options: &FinishOptions, host: HostOs) -> (r: Result<
    (),
    Refusal,
>)
    ensures
        refusal_of(r) == completion_refusal(*old(config), *options, host),
        *final(config) == (Config { load_mode: final(config).load_mode, ..*old(config) }),
        r is Ok ==> same_pvh_with(
            old(config).load_mode,
            final(config).load_mode,
            discovered(
                tiered(pvh_command_line(old(config).load_mode)->0, options.snapshot_tier),
                discovery_tokens(
                    device_ids(old(config).virtio_devices@),
                    hypervisor_view(*options),
                    host,
                ),
            ),
        ),
{
    let hypervisor: Option<&str> = match &options.hypervisor {
        Some(name) => Some(name.as_str()),
        None => None,
    };
    assert(text_view(hypervisor) == hypervisor_view(*options));
    let direct = match &config.load_mode {
        LoadMode::Pvh { .. } => true,
        _ => false,
    };
    if !direct {
        return Err(refuse("microVM discovery requires PVH load mode"));
    }
    if config.microvm_network.is_some() {
        match microvm_virtio_net_irq(hypervisor, host) {
            Ok(_irq) => {},
            Err(e) => return Err(e),
        }
    }
    if let Some(tier) = &options.snapshot_tier {
        match &mut config.load_mode {
            LoadMode::Pvh { cmdline, .. } => {
                let mut line = cmdline.as_str().to_owned();
                match append_snapshot_tier(&mut line, tier.as_str()) {
                    Ok(()) => {},
                    Err(e) => return Err(e),
                }
                *cmdline = line;
            },
            _ => {},
        }
    }
    append_microvm_device_discovery(config, hypervisor, host)
}

/// Finishes a machine that was put together: completes the command line of a fresh
/// microVM and holds the whole to its machine contract and its isolation.
pub fn finish_config(config: Config, options: &FinishOptions, host: HostOs) -> (r: Result<
    Config,
    Refusal,
>)
    ensures
        match r {
            Ok(finished) => {
                &&& completes_command_line(config, *options) ==> completion_refusal(
                    config,
                    *options,
                    host,
                ) is None
                &&& is_finished(finished, config, *options, host)
                &&& machine_refusal(finished, hypervisor_view(*options), host) is None
                &&& snp_refusal(finished) is None
            },
            Err(e) => if completes_command_line(config, *options) && completion_refusal(
                config,
                *options,
                host,
            ) is Some {
                completion_refusal(config, *options, host) == Some(e@)
            } else {
                exists|finished: Config|
                    #![trigger machine_refusal(finished, hypervisor_view(*options), host)]
                    is_finished(finished, config, *options, host) && (if machine_refusal(
                        finished,
                        hypervisor_view(*options),
                        host,
                    ) is Some {
                        machine_refusal(finished, hypervisor_view(*options), host) == Some(e@)
                    } else {
                        snp_refusal(finished) == Some(e@)
                    })
            },
        },
{
    let mut finished = config;
    if finished.machine_profile == MachineProfile::Microvm && !options.restored {
        match complete_command_line(&mut finished, options, host) {
            Ok(()) => {},
            Err(e) => return Err(e),
        }
    }
    let hypervisor: Option<&str> = match &options.hypervisor {
        Some(name) => Some(name.as_str()),
        None => None,
    };
    assert(text_view(hypervisor) == hypervisor_view(*options));
    assert(is_finished(finished, config, *options, host));
    match validate_machine_config(&finished, hypervisor, host) {
        Ok(()) => {},
        Err(e) => {
            assert(machine_refusal(finished, hypervisor_view(*options), host) == Some(e@));
            return Err(e);
        },
    }
    match validate_snp_config(&finished) {
        Ok(()) => Ok(finished),
        Err(e) => {
            assert(machine_refusal(finished, hypervisor_view(*options), host) is None);
            Err(e)
        },
    }
}

} // verus!
