//! What holds of the machines that are created on request.

use vstd::prelude::*;

use crate::chipset::BaseChipsetType;
use crate::config::{
    Config, GuestArch, Guid, HostFile, HostOs, LoadMode, MachineProfile, NumaTopology,
    UefiConsoleMode, VpAssignment,
};
use crate::console::{
    ResolvedIdentity, SerialConfigCli, SerialEndpoint, MICROVM_CONSOLE_STABLE_ID,
};
use crate::controller::{GuestPowerAction, GuestPowerActions};
use crate::create::{
    assign_serial_ports, check_snapshot_destination, check_standard_virtiofs, create_config,
    disk_unit, first_consomme, is_consomme, last_request, load_mode, nics_refusal, plan_boot,
    plan_memory, plan_microvm_console, plan_nics, plan_power_actions, plan_processors,
    plan_virtio_blk, requested_console, restored_microvm_console, uses_vpci, BootPlan,
    ConsoleDisconnectPolicy, ConsolePlan, DestinationFacts, MachineParts, NicPlans,
    SerialPresence,
};
use crate::create_request::{
    authoritative_contract, check_snapshot_options, check_source_hypervisor,
    restored_microvm_filesystem, select_profile, take_restore_request, BootRequest, RemountRequest,
    RequestedPowerAction, RequestedPowerActions, RequestedProfile, RestoreRequest, ScsiDiskRequest,
    SerialPortRequest, SnapshotOptions, VirtioBlkRequest, VirtioConsoleRequest, VirtioFsRequest,
    VmConfigRequest,
};
use crate::devices::{nic_refusal, FileDisk, NicRequest};
use crate::filesystem::EffectiveMicrovmFilesystem;
use crate::numa::{build_numa_topology, total_bytes, NumaNodeRequest, NumaRequest};
use crate::refusal::{refusal_of, Refusal};
use crate::snapshot::SnapshotMachineContract;

verus! {

/// The processors of a machine: a snapshot decides where there is one, then the
/// request; a machine of which nothing is said has one.
pub proof fn law_processors_are_recorded_or_requested(
    restored: Option<u32>,
    requested: Option<u32>,
    count: u32,
)
    requires
        call_ensures(plan_processors, (restored, requested), count),
    ensures
        restored is Some ==> count == restored->0,
        restored is None && requested is Some ==> count == requested->0,
        restored is None && requested is None ==> count == 1,
{
}

/// The optional file of a boot is there exactly when the request names one, and
/// is then the very file that it names.
pub open spec fn names_the_same_file(asked: String, planned: Option<String>) -> bool {
    &&& planned is Some <==> asked@ != Seq::<char>::empty()
    &&& planned is Some ==> planned->0@ == asked@
}

/// A machine boots what it is asked to boot: a directly booted Linux and a PVH
/// kernel are the named kernel, with the named initial file system where one is
/// named; a directly booted Linux gets the requested command line unchanged.
pub proof fn law_boot_loads_what_is_named(
    boot: Option<BootRequest>,
    microvm: bool,
    serial: SerialPresence,
    console: bool,
    arch: GuestArch,
    r: Result<BootPlan, Refusal>,
)
    requires
        call_ensures(plan_boot, (boot, microvm, serial, console, arch), r),
        r is Ok,
    ensures
        boot is Some,
        boot matches Some(BootRequest::DirectBoot { kernel_path, initrd_path, kernel_cmdline })
            ==> match r->Ok_0 {
            BootPlan::Linux { kernel_path: kernel, initrd_path: initrd, cmdline } => kernel
                == kernel_path && names_the_same_file(initrd_path, initrd) && cmdline
                == kernel_cmdline,
            _ => false,
        },
        boot matches Some(BootRequest::PvhBoot { kernel_path, initrd_path, kernel_cmdline })
            ==> match r->Ok_0 {
            BootPlan::Pvh { kernel_path: kernel, initrd_path: initrd, cmdline } => kernel
                == kernel_path && names_the_same_file(initrd_path, initrd),
            _ => false,
        },
        boot matches Some(
            BootRequest::Uefi { firmware_path, secure_boot_enabled, secure_boot_template },
        ) ==> match r->Ok_0 {
            BootPlan::Uefi {
                firmware_path: firmware,
                enable_serial,
                uefi_console_mode,
                template,
                secure_boot_enabled: secure,
            } => {
                &&& firmware == firmware_path
                &&& secure == secure_boot_enabled
                &&& enable_serial == serial.any
                &&& uefi_console_mode == Some(UefiConsoleMode::Com1) <==> serial.com1
                &&& uefi_console_mode is None <==> !serial.com1
                &&& template is Some <==> !(secure_boot_template is Bare)
                &&& template matches Some((a, t)) ==> a == arch && t
                    == secure_boot_template
            },
            _ => false,
        },
{
    match boot {
        Some(BootRequest::DirectBoot { initrd_path, .. }) => {
            if initrd_path@.len() == 0 {
                assert(initrd_path@ =~= Seq::<char>::empty());
            }
        },
        Some(BootRequest::PvhBoot { initrd_path, .. }) => {
            if initrd_path@.len() == 0 {
                assert(initrd_path@ =~= Seq::<char>::empty());
            }
        },
        _ => {},
    }
}

/// A microVM boots a PVH kernel and nothing else, and no other machine does; a
/// machine of which no boot is requested is refused.
pub proof fn law_profiles_keep_to_their_boot(
    boot: Option<BootRequest>,
    microvm: bool,
    serial: SerialPresence,
    console: bool,
    arch: GuestArch,
    r: Result<BootPlan, Refusal>,
)
    requires
        call_ensures(plan_boot, (boot, microvm, serial, console, arch), r),
    ensures
        r is Ok ==> (r->Ok_0 is Pvh <==> microvm) && !(r->Ok_0 is Restored),
        boot is None ==> r is Err,
        boot is Some && !(boot->0 is PvhBoot) ==> (r is Ok <==> !microvm),
        boot is Some && boot->0 is PvhBoot && !microvm ==> r is Err,
{
}

/// The chipset goes with what is loaded: a PVH kernel, fresh or restored, gets the
/// microVM's, a directly booted Linux that of its own, and a firmware that of its
/// own.
pub proof fn law_chipset_goes_with_the_boot(plan: BootPlan, chipset: BaseChipsetType)
    requires
        call_ensures(BootPlan::chipset_type, (&plan,), chipset),
    ensures
        chipset == BaseChipsetType::Microvm <==> plan is Pvh || plan is Restored,
        chipset == BaseChipsetType::HyperVGen2LinuxDirect <==> plan is Linux,
        chipset == BaseChipsetType::HypervGen2Uefi <==> plan is Uefi,
{
}

/// Loading hands over the opened files and the planned command line as they are;
/// a restored machine has no initial file system, whatever was opened.
pub proof fn law_opened_files_are_loaded(
    plan: BootPlan,
    image: HostFile,
    initrd: Option<HostFile>,
    bios_guid: Guid,
    mode: LoadMode,
)
    requires
        call_ensures(load_mode, (plan, image, initrd, bios_guid), mode),
    ensures
        plan is Pvh || plan is Restored <==> mode is Pvh,
        plan is Linux <==> mode is Linux,
        plan is Uefi <==> mode is Uefi,
        mode matches LoadMode::Pvh { kernel, initrd: i, cmdline } ==> {
            &&& kernel == image
            &&& plan is Pvh ==> i == initrd && cmdline == plan->Pvh_cmdline
            &&& plan is Restored ==> i is None && cmdline == plan->Restored_cmdline
        },
        mode matches LoadMode::Linux { kernel, initrd: i, cmdline, enable_serial, .. } ==> {
            kernel == image && i == initrd && cmdline == plan->Linux_cmdline && enable_serial
        },
        mode matches LoadMode::Uefi {
            firmware,
            enable_serial,
            uefi_console_mode,
            enable_vmbus,
            enable_hv,
            enable_debugging,
            enable_memory_protections,
            disable_frontpage,
            enable_tpm,
            enable_vpci_boot,
            default_boot_always_attempt,
            force_dma_bounce,
            hibernation_enabled,
            smbios,
            ..
        } ==> {
            &&& firmware == image
            &&& enable_serial == plan->enable_serial
            &&& uefi_console_mode == plan->uefi_console_mode
            &&& enable_vmbus && enable_hv
            &&& !(enable_debugging || enable_memory_protections || disable_frontpage || enable_tpm
                || enable_vpci_boot || default_boot_always_attempt || force_dma_bounce
                || hibernation_enabled)
            &&& smbios.system.uuid == bios_guid
        },
{
}

pub proof fn lemma_last_request(ports: Seq<SerialPortRequest>, port: int, n: int)
    requires
        0 <= n <= ports.len(),
    ensures
        match last_request(ports, port, n) {
            Some(k) => {
                &&& 0 <= k < n && ports[k].port == port
                &&& forall|j: int| k < j < n ==> (#[trigger] ports[j]).port != port
            },
            None => forall|j: int| 0 <= j < n ==> (#[trigger] ports[j]).port != port,
        },
    decreases n,
{
    if n > 0 && ports[n - 1].port != port {
        lemma_last_request(ports, port, n - 1);
    }
}

/// A serial port follows the last request that names it, and stays unused exactly
/// when none does. Requests are refused exactly when one names a port that no
/// machine has.
pub proof fn law_last_serial_request_stands(
    ports: Vec<SerialPortRequest>,
    r: Result<[Option<usize>; 4], Refusal>,
    port: int,
)
    requires
        call_ensures(assign_serial_ports, (&ports,), r),
        0 <= port < 4,
    ensures
        r is Err <==> exists|k: int| 0 <= k < ports@.len() && (#[trigger] ports@[k]).port > 3,
        r is Ok ==> match r->Ok_0@[port] {
            Some(k) => {
                &&& k < ports@.len() && ports@[k as int].port == port
                &&& forall|j: int| k < j < ports@.len() ==> (#[trigger] ports@[j]).port != port
            },
            None => forall|j: int| 0 <= j < ports@.len() ==> (#[trigger] ports@[j]).port != port,
        },
{
    lemma_last_request(ports@, port, ports@.len() as int);
    if r is Ok {
        let slot = r->Ok_0@[port];
    }
}

/// What a topology's nodes hold in all, in bytes.
pub open spec fn held_bytes(topology: NumaTopology, n: int) -> nat
    decreases n,
{
    if n <= 0 {
        0
    } else {
        held_bytes(topology, n - 1) + match topology.nodes@[n - 1].mem {
            Some(memory) => memory.mem_size as nat,
            None => 0,
        }
    }
}

proof fn lemma_held_bytes(topology: NumaTopology, nodes: Seq<NumaNodeRequest>, n: int)
    requires
        0 <= n <= nodes.len(),
        topology.nodes@.len() == nodes.len(),
        total_bytes(nodes) <= u64::MAX,
        crate::numa::nodes_refusal(nodes) is None,
        forall|i: int|
            0 <= i < nodes.len() ==> crate::numa::is_node(#[trigger] topology.nodes@[i], nodes[i]),
    ensures
        held_bytes(topology, n) == total_bytes(nodes.take(n)),
    decreases n,
{
    if n > 0 {
        lemma_held_bytes(topology, nodes, n - 1);
        assert(nodes.take(n).drop_last() =~= nodes.take(n - 1));
        assert(nodes.take(n).last() == nodes[n - 1]);
        crate::numa::law_accepted_memory_fits(nodes);
        let node = topology.nodes@[n - 1];
        assert(crate::numa::node_bytes(nodes[n - 1]) <= u64::MAX);
    }
}

/// The size that is planned for a machine is the memory that its nodes hold.
pub proof fn law_size_is_what_the_nodes_hold(
    restored: Option<u64>,
    numa: Option<NumaRequest>,
    memory_mb: Option<u64>,
    r: Result<(NumaTopology, u64), Refusal>,
)
    requires
        call_ensures(plan_memory, (restored, numa, memory_mb), r),
        r is Ok,
    ensures
        held_bytes(r->Ok_0.0, r->Ok_0.0.nodes@.len() as int) == r->Ok_0.1,
{
    let topology = r->Ok_0.0;
    if restored is None && numa is Some {
        let nodes = numa->0.nodes@;
        lemma_held_bytes(topology, nodes, nodes.len() as int);
        assert(nodes.take(nodes.len() as int) =~= nodes);
    } else {
        reveal_with_fuel(held_bytes, 2);
    }
}

/// A restored machine has the memory that its snapshot records, and any other the
/// mebibytes that are requested, in one node that has every processor. Memory is
/// requested either as a size or as a topology, never as both and never as
/// neither.
pub proof fn law_memory_is_recorded_or_requested(
    restored: Option<u64>,
    numa: Option<NumaRequest>,
    memory_mb: Option<u64>,
    r: Result<(NumaTopology, u64), Refusal>,
)
    requires
        call_ensures(plan_memory, (restored, numa, memory_mb), r),
    ensures
        restored is Some ==> r is Ok && r->Ok_0.1 == restored->0,
        restored is None && (numa is Some <==> memory_mb is Some) ==> r is Err,
        restored is None && numa is None && memory_mb is Some ==> (r is Ok <==> memory_mb->0
            * 1_048_576 <= u64::MAX),
        restored is None && memory_mb is Some && r is Ok ==> r->Ok_0.1 == memory_mb->0 * 1_048_576,
        r is Ok && (restored is Some || memory_mb is Some) ==> {
            let topology = r->Ok_0.0;
            &&& topology.nodes@.len() == 1 && topology.distances@.len() == 0
            &&& topology.nodes@[0].mem is Some && topology.nodes@[0].mem->0.mem_size == r->Ok_0.1
            &&& topology.nodes@[0].vps is FromTopology
        },
{
}

/// A requested topology is built node for node: each node has the memory and the
/// options that it asks for, its processors are the listed ones, none where the
/// list is empty, and left to the machine where there is no list; distances are
/// kept. It is refused exactly when its memory is too large to address or a
/// distance does not fit in a byte.
pub proof fn law_topology_is_built_as_requested(
    numa: NumaRequest,
    r: Result<(NumaTopology, u64), Refusal>,
    i: int,
)
    requires
        call_ensures(build_numa_topology, (&numa,), r),
        r is Ok,
    ensures
        r->Ok_0.0.nodes@.len() == numa.nodes@.len(),
        r->Ok_0.0.distances@.len() == numa.distances@.len(),
        0 <= i < numa.nodes@.len() ==> {
            let node = r->Ok_0.0.nodes@[i];
            let asked = numa.nodes@[i];
            &&& node.mem is Some <==> asked.memory is Some
            &&& asked.memory is Some ==> {
                let (held, wanted) = (node.mem->0, asked.memory->0);
                &&& held.mem_size == wanted.memory_mb * 1_048_576
                &&& held.prefetch_memory == wanted.prefetch
                &&& held.private_memory == wanted.private_memory
                &&& held.hugepages == wanted.hugepages
                &&& held.hugepage_size == wanted.hugepage_size_bytes
                &&& held.host_numa_node == wanted.host_numa_node
                &&& held.transparent_hugepages <==> wanted.transparent_hugepages != Some(false)
            }
            &&& node.vps is FromTopology <==> asked.vps is None
            &&& asked.vps is Some && asked.vps->0@.len() == 0 ==> node.vps is Empty
            &&& asked.vps is Some && asked.vps->0@.len() > 0 ==> (node.vps matches
                VpAssignment::Explicit(list) && list@ == asked.vps->0@)
        },
        0 <= i < numa.distances@.len() ==> {
            let (built, asked) = (r->Ok_0.0.distances@[i], numa.distances@[i]);
            built.src == asked.src && built.dst == asked.dst && built.distance == asked.distance
        },
{
    crate::numa::law_accepted_memory_fits(numa.nodes@);
    if 0 <= i < numa.nodes@.len() {
        let node = r->Ok_0.0.nodes@[i];
        assert(crate::numa::node_bytes(numa.nodes@[i]) <= u64::MAX);
    }
    if 0 <= i < numa.distances@.len() {
        let built = r->Ok_0.0.distances@[i];
        assert(numa.distances@[i].distance <= 255);
    }
}

/// One event keeps its default where the request leaves it alone, and does what the
/// request says where it says something; a number that names nothing is refused.
pub open spec fn follows(
    asked: RequestedPowerAction,
    planned: GuestPowerAction,
    default: GuestPowerAction,
) -> bool {
    &&& asked is Restart ==> planned is Reset
    &&& asked is Halt ==> planned is Halt
    &&& asked is Default ==> planned == default
    &&& !(asked is Unknown)
}

/// Each power event follows its own request: without one a reset and an expired
/// watchdog reboot, and a power-off and a crash keep the machine. No request can
/// make a guest end the process.
pub proof fn law_power_events_follow_their_requests(
    requested: Option<RequestedPowerActions>,
    r: Result<GuestPowerActions, Refusal>,
)
    requires
        call_ensures(plan_power_actions, (requested,), r),
    ensures
        r is Err <==> requested is Some && (requested->0.shutdown is Unknown || requested->0.reset
            is Unknown || requested->0.crash is Unknown || requested->0.watchdog is Unknown),
        r is Ok ==> {
            let planned = r->Ok_0;
            let asked = match requested {
                Some(asked) => asked,
                None => RequestedPowerActions {
                    shutdown: RequestedPowerAction::Default,
                    reset: RequestedPowerAction::Default,
                    crash: RequestedPowerAction::Default,
                    watchdog: RequestedPowerAction::Default,
                },
            };
            &&& follows(asked.shutdown, planned.shutdown, GuestPowerAction::Halt)
            &&& follows(asked.reset, planned.reset, GuestPowerAction::Reset)
            &&& follows(asked.crash, planned.crash, GuestPowerAction::Halt)
            &&& follows(asked.watchdog, planned.watchdog, GuestPowerAction::Reset)
        },
{
}

/// A requested console leads to the socket that it names, as a client where it is
/// to connect and as a server where it is not.
pub proof fn law_console_leads_to_its_socket(console: VirtioConsoleRequest, r: SerialConfigCli)
    requires
        call_ensures(requested_console, (&console,), r),
    ensures
        console.connect ==> r@ == SerialEndpoint::ConnectPipe(console.socket_path@),
        !console.connect ==> r@ == SerialEndpoint::Pipe(console.socket_path@),
{
}

/// A restored machine has a console exactly when its snapshot records one, in its
/// devices and in its attachments alike, and records the same attachment again. A
/// console that leads nowhere drops its output; any other keeps it.
pub proof fn law_restored_console_is_recorded(
    contract: SnapshotMachineContract,
    requested: Option<&Result<SerialConfigCli, Refusal>>,
    resolved: ResolvedIdentity,
    parent: &str,
    host: HostOs,
    r: Result<Option<ConsolePlan>, Refusal>,
)
    requires
        call_ensures(
            restored_microvm_console,
            (&contract, requested, &resolved, parent, host),
            r,
        ),
        r is Ok,
    ensures
        r->Ok_0 is Some <==> crate::snapshot::has_device(
            contract.devices@,
            MICROVM_CONSOLE_STABLE_ID@,
        ),
        r->Ok_0 is Some ==> {
            let plan = r->Ok_0->0;
            &&& crate::snapshot::find_attachment(
                contract.attachments@,
                MICROVM_CONSOLE_STABLE_ID@,
            ) == Some(plan.snapshot@)
            &&& plan.disconnect_policy == ConsoleDisconnectPolicy::Discard <==> plan.endpoint@
                is Disconnected
        },
{
}

/// A fresh console is the requested one, and keeps its output until somebody
/// attaches.
pub proof fn law_fresh_console_keeps_its_output(
    endpoint: SerialConfigCli,
    parent: Option<&str>,
    host: HostOs,
    r: Result<ConsolePlan, Refusal>,
)
    requires
        call_ensures(plan_microvm_console, (&endpoint, parent, host), r),
        r is Ok,
    ensures
        r->Ok_0.endpoint@ == endpoint@,
        r->Ok_0.disconnect_policy == ConsoleDisconnectPolicy::Retain,
{
}

/// A block device is for microVMs only; it is the requested disk, writable exactly
/// when the request allows it.
pub proof fn law_block_device_is_the_requested_disk(
    blk: VirtioBlkRequest,
    microvm: bool,
    r: Result<(FileDisk, bool), Refusal>,
)
    requires
        call_ensures(plan_virtio_blk, (blk, microvm), r),
    ensures
        r is Ok <==> microvm && blk.disk is Some && blk.disk->0 is Some,
        r is Ok ==> r->Ok_0.0 == blk.disk->0->0 && r->Ok_0.1 == blk.read_only,
{
}

/// A disk's unit is the requested number, and every number up to 255 is a unit.
pub proof fn law_units_are_bytes(disk: ScsiDiskRequest, r: Result<u8, Refusal>)
    requires
        call_ensures(disk_unit, (&disk,), r),
    ensures
        r is Ok <==> disk.lun < 256,
        r is Ok ==> r->Ok_0 == disk.lun,
{
}

proof fn lemma_first_consomme(nics: Seq<NicRequest>)
    ensures
        match first_consomme(nics) {
            Some(i) => {
                &&& 0 <= i < nics.len() && is_consomme(nics[i])
                &&& forall|j: int| 0 <= j < i ==> !is_consomme(#[trigger] nics[j])
            },
            None => forall|j: int| 0 <= j < nics.len() ==> !is_consomme(#[trigger] nics[j]),
        },
    decreases nics.len(),
{
    if nics.len() > 0 {
        let front = nics.drop_last();
        lemma_first_consomme(front);
        assert forall|j: int| 0 <= j < front.len() implies front[j] == nics[j] by {}
        match first_consomme(front) {
            Some(i) => {
                assert(front[i] == nics[i]);
                assert forall|j: int| 0 <= j < i implies !is_consomme(#[trigger] nics[j]) by {
                    assert(!is_consomme(front[j]));
                }
            },
            None => {
                assert forall|j: int| 0 <= j < nics.len() - 1 implies !is_consomme(
                    #[trigger] nics[j],
                ) by {
                    assert(!is_consomme(front[j]));
                }
            },
        }
    }
}

proof fn lemma_nics_refusal_is_the_first(nics: Seq<NicRequest>, host: HostOs)
    ensures
        nics_refusal(nics, host) is None <==> forall|i: int|
            0 <= i < nics.len() ==> nic_refusal(#[trigger] nics[i], host) is None,
        nics_refusal(nics, host) is Some ==> exists|i: int|
            {
                &&& 0 <= i < nics.len()
                &&& nics_refusal(nics, host) == nic_refusal(#[trigger] nics[i], host)
                &&& forall|j: int| 0 <= j < i ==> nic_refusal(#[trigger] nics[j], host) is None
            },
    decreases nics.len(),
{
    if nics.len() > 0 {
        let front = nics.drop_last();
        lemma_nics_refusal_is_the_first(front, host);
        assert forall|j: int| 0 <= j < front.len() implies front[j] == nics[j] by {}
        if nics_refusal(front, host) is Some {
            let i = choose|i: int|
                {
                    &&& 0 <= i < front.len()
                    &&& nics_refusal(front, host) == nic_refusal(#[trigger] front[i], host)
                    &&& forall|j: int| 0 <= j < i ==> nic_refusal(#[trigger] front[j], host) is None
                };
            assert(nics[i] == front[i]);
            assert forall|j: int| 0 <= j < i implies nic_refusal(#[trigger] nics[j], host)
                is None by {
                assert(nic_refusal(front[j], host) is None);
            }
        } else {
            assert forall|j: int| 0 <= j < nics.len() - 1 implies nic_refusal(
                #[trigger] nics[j],
                host,
            ) is None by {
                assert(nic_refusal(front[j], host) is None);
            }
            assert(nics[nics.len() - 1] == nics.last());
        }
    }
}

/// The network devices of a machine are the requested ones, in their order, each
/// under its own identity and hardware address; they are all accepted or none is,
/// and what is reported is the first that is refused. Ports can be changed on the
/// first that translates addresses in user mode, where there is one.
pub proof fn law_nics_are_the_requested_ones(
    nics: Vec<NicRequest>,
    host: HostOs,
    r: Result<NicPlans, Refusal>,
    i: int,
)
    requires
        call_ensures(plan_nics, (nics, host), r),
        0 <= i < nics@.len(),
    ensures
        nic_refusal(nics@[i], host) is Some && (forall|j: int|
            0 <= j < i ==> nic_refusal(#[trigger] nics@[j], host) is None) ==> refusal_of(r)
            == nic_refusal(nics@[i], host),
        r is Ok ==> {
            let plans = r->Ok_0;
            &&& plans.nics@.len() == nics@.len()
            &&& Some(plans.nics@[i].instance_id) == nics@[i].nic_id
            &&& Some(plans.nics@[i].mac_address) == nics@[i].mac_address
            &&& plans.bindable is Some && plans.bindable->0 == i ==> nics@[i].backend is Some
                && nics@[i].backend->0 is Consomme
            &&& nics@[i].backend is Some && nics@[i].backend->0 is Consomme ==> plans.bindable
                is Some && plans.bindable->0 <= i
        },
{
    lemma_first_consomme(nics@);
    lemma_nics_refusal_is_the_first(nics@, host);
    if r is Ok {
        let plan = r->Ok_0.nics@[i];
        assert(is_consomme(nics@[i]) == (nics@[i].backend is Some && nics@[i].backend->0
            is Consomme));
    }
}

/// A standard machine exports a directory read-only and mounts it nowhere: an
/// export that asks for more is refused, and no other.
pub proof fn law_standard_exports_are_plain(fs: VirtioFsRequest, r: Result<(), Refusal>)
    requires
        call_ensures(check_standard_virtiofs, (&fs,), r),
    ensures
        r is Ok <==> !fs.read_write && fs.guest_mount_target@ == Seq::<char>::empty(),
{
    if fs.guest_mount_target@.len() == 0 {
        assert(fs.guest_mount_target@ =~= Seq::<char>::empty());
    }
}

/// Only a standard machine on Windows or macOS places virtio devices on virtual PCI
/// buses.
pub proof fn law_virtual_buses(microvm: bool, host: HostOs, b: bool)
    requires
        call_ensures(uses_vpci, (microvm, host), b),
    ensures
        b ==> !microvm && !(host is Linux),
        !b ==> microvm || !(host is Windows || host is Macos),
{
}

/// A created machine is made of its parts and of nothing else. A microVM has no
/// VMBus, no enlightenments and no socket relay; a standard machine has both, and
/// relays sockets exactly where a path is given, to that path.
pub proof fn law_created_machine_is_its_parts(
    parts: MachineParts,
    host: HostOs,
    r: Result<Config, Refusal>,
)
    requires
        call_ensures(create_config, (parts, host), r),
        r is Ok,
    ensures
        ({
            let config = r->Ok_0;
            &&& config.machine_profile == parts.machine_profile
            &&& config.numa == parts.numa && config.processor_topology.proc_count
                == parts.proc_count
            &&& config.chipset == parts.chipset && config.layout == parts.layout
            &&& config.chipset_devices == parts.chipset_devices && config.pci_chipset_devices
                == parts.pci_chipset_devices && config.isa_dma_controller
                == parts.isa_dma_controller && config.chipset_capabilities
                == parts.chipset_capabilities
            &&& config.pcie_root_complexes == parts.root_complexes && config.pcie_devices
                == parts.pcie_devices && config.pcie_switches == parts.switches
                && config.pcie_generic_initiators == parts.generic_initiators
            &&& config.virtio_devices == parts.virtio_devices && config.vpci_devices
                == parts.vpci_devices && config.vmbus_devices == parts.vmbus_devices
            &&& config.floppy_disks@.len() == 0 && config.ide_disks@.len() == 0
                && config.kernel_vmnics@.len() == 0 && config.vpci_resources@.len() == 0
            &&& !config.framebuffer && !config.vga_firmware && !config.vtl2_gfx && config.vmgs
                is None && config.vtl2_vmbus is None && !config.debugger_rpc
            &&& config.rtc_delta_milliseconds == 0 && !config.firmware_event_send
            &&& config.microvm_network is None && !config.pcie_ecam_below_4gb
            &&& config.processor_topology.vps_per_socket is None
                && config.processor_topology.enable_smt is None
            &&& config.hypervisor.with_vtl2 is None && config.hypervisor.with_isolation is None
                && !config.hypervisor.nested_virt
        }),
        parts.machine_profile is Microvm ==> {
            &&& r->Ok_0.vmbus is None && !r->Ok_0.hypervisor.with_hv
            &&& parts.hvsocket_path is None
            &&& r->Ok_0.processor_topology.arch is Some
        },
        parts.machine_profile is Standard ==> {
            &&& r->Ok_0.hypervisor.with_hv && r->Ok_0.vmbus is Some
            &&& r->Ok_0.vmbus->0.vsock_path == parts.hvsocket_path
            &&& r->Ok_0.vmbus->0.vsock_listener <==> parts.hvsocket_path is Some
            &&& r->Ok_0.vmbus->0.vmbus_max_version is None && !r->Ok_0.vmbus->0.vtl2_redirect
            &&& r->Ok_0.processor_topology.arch is None
            &&& r->Ok_0.load_mode == parts.load_mode
        },
        parts.restored ==> r->Ok_0.load_mode == parts.load_mode,
{
    let config = r->Ok_0;
    let plain = Config { load_mode: parts.load_mode, ..config };
    assert(crate::create::holds_parts(plain, parts));
}

/// A snapshot is written only to a place that is free, in a directory that is there.
pub proof fn law_destination_is_free(
    destination: &str,
    parent: &str,
    facts: DestinationFacts,
    r: Result<(), Refusal>,
)
    requires
        call_ensures(check_snapshot_destination, (destination, parent, &facts), r),
    ensures
        r is Ok <==> facts.free && facts.parent_is_dir is Ok && facts.parent_is_dir->Ok_0,
{
}

/// A request captures or restores, not both; restore entropy goes with a restore and
/// a waiting time with a capture. The waiting time is the requested one, and five
/// seconds where none is requested.
pub proof fn law_snapshot_options_go_together(options: SnapshotOptions, r: Result<u64, Refusal>)
    requires
        call_ensures(check_snapshot_options, (options,), r),
    ensures
        r is Ok <==> {
            &&& !(options.destination && options.restore)
            &&& options.restore_entropy ==> options.restore
            &&& options.quiesce_timeout_ms > 0 ==> options.destination
        },
        r is Ok ==> r->Ok_0 > 0,
        r is Ok && options.quiesce_timeout_ms > 0 ==> r->Ok_0 == options.quiesce_timeout_ms,
        r is Ok && options.quiesce_timeout_ms == 0 ==> r->Ok_0 == 5000,
{
}

/// A microVM is restored only from a snapshot of a microVM of the one supported
/// version, and from exactly what that snapshot records.
pub proof fn law_contract_is_taken_as_recorded(
    contract: Option<SnapshotMachineContract>,
    r: Result<SnapshotMachineContract, Refusal>,
)
    requires
        call_ensures(authoritative_contract, (contract,), r),
    ensures
        r is Ok <==> contract is Some && contract->0.machine_profile@ == "microvm"@
            && contract->0.microvm_abi_version == 1,
        r is Ok ==> r->Ok_0 == contract->0,
{
}

/// A request cannot change what a snapshot records: a restored machine takes from it
/// its serial ports, its power actions, a console and one exported directory, each
/// as it is requested, and a request for anything else is refused.
pub proof fn law_restore_takes_attachments_only(
    requested: Option<VmConfigRequest>,
    r: Result<RestoreRequest, Refusal>,
)
    requires
        call_ensures(take_restore_request, (requested,), r),
    ensures
        requested is None ==> r is Ok && r->Ok_0.serial_ports@.len() == 0
            && r->Ok_0.guest_power_actions is None && r->Ok_0.virtio_console is None
            && r->Ok_0.virtiofs is None,
        requested matches Some(q) ==> {
            &&& r is Ok <==> {
                &&& q.machine_profile is Microvm
                &&& q.memory_mb is None && q.processor_count is None && q.boot_config is None
                    && q.numa_config is None && q.pcie is None && q.hvsocket_path is None
                    && !q.windows_options
                &&& q.devices_config matches Some(d) ==> d.scsi_disks@.len() == 0
                    && d.nic_config@.len() == 0 && d.vpmem_disks == 0 && d.windows_device == 0
                    && d.virtio_blk is None && d.virtiofs_config@.len() < 2
            }
            &&& r is Ok ==> {
                &&& r->Ok_0.serial_ports == q.serial_ports
                &&& r->Ok_0.guest_power_actions == q.guest_power_actions
                &&& q.devices_config is None ==> r->Ok_0.virtio_console is None
                    && r->Ok_0.virtiofs is None
                &&& q.devices_config matches Some(d) ==> {
                    &&& r->Ok_0.virtio_console == d.virtio_console
                    &&& r->Ok_0.virtiofs is Some <==> d.virtiofs_config@.len() == 1
                    &&& r->Ok_0.virtiofs is Some ==> r->Ok_0.virtiofs->0 == d.virtiofs_config@[0]
                }
            }
        },
{
}

/// The profile is the requested one; a standard machine has nothing to do with
/// snapshots, and a number that names no profile is refused.
pub proof fn law_profile_is_the_requested_one(
    profile: RequestedProfile,
    options: SnapshotOptions,
    r: Result<MachineProfile, Refusal>,
)
    requires
        call_ensures(select_profile, (profile, options), r),
    ensures
        profile is Microvm ==> r is Ok && r->Ok_0 is Microvm,
        profile is Standard ==> (r is Ok <==> !options.destination && !options.restore),
        profile is Standard && r is Ok ==> r->Ok_0 is Standard,
        profile is Unknown ==> r is Err,
{
}

/// A snapshot goes back to the hypervisor that it was taken on, and to no other.
pub proof fn law_hypervisors_must_agree(recorded: &str, here: &str, r: Result<(), Refusal>)
    requires
        call_ensures(check_source_hypervisor, (recorded, here), r),
    ensures
        r is Ok <==> recorded@ == here@,
{
}

/// An exported directory survives a restore only as it was recorded: the restored
/// machine has one exactly when the snapshot does, at the recorded mount point, with
/// the recorded access, and from a fresh export that has the recorded identity; an
/// export cannot be added, dropped or opened further.
pub proof fn law_restored_export_is_recorded(
    contract: SnapshotMachineContract,
    target_check: Result<(), Refusal>,
    requested: Option<RemountRequest>,
    r: Result<Option<EffectiveMicrovmFilesystem>, Refusal>,
)
    requires
        call_ensures(restored_microvm_filesystem, (&contract, &target_check, requested), r),
        r is Ok,
    ensures
        r->Ok_0 is Some <==> contract.microvm_filesystem is Some,
        r->Ok_0 is Some <==> requested is Some,
        r->Ok_0 matches Some(fs) ==> {
            let asked = requested->0;
            let saved = contract.microvm_filesystem->0;
            &&& fs.config.guest_mount_target@ == saved.guest_mount_target@
            &&& asked.virtiofs.guest_mount_target@ == saved.guest_mount_target@
            &&& asked.virtiofs.tag@ == "microvm"@
            &&& asked.virtiofs.read_write <==> !(fs.config.access is ReadOnly)
            &&& asked.virtiofs.root_path@.len() > 0
            &&& asked.host.canonical is Ok && fs.root_path == asked.host.canonical->Ok_0.path
            &&& Some(fs.attachment@) == crate::snapshot::find_attachment(
                contract.attachments@,
                crate::filesystem::MICROVM_FILESYSTEM_STABLE_ID@,
            )
        },
{
}

} // verus!
