//! A virtual machine that is created afresh, planned as a whole.

use vstd::prelude::*;

use crate::config::{GuestArch, HostOs, MachineProfile, NumaTopology};
use crate::controller::GuestPowerActions;
use crate::create::{
    assign_serial_ports, boot_refusal, check_standard_virtiofs, disk_unit, first_consomme,
    is_boot_plan, is_memory, memory_refusal, nics_refusal, plan_boot, plan_memory, plan_nics,
    plan_power_actions, plan_processors, plan_virtio_blk, requested_action, slots_follow,
    unknown_action, BootPlan, NicPlans, SerialPresence,
};
use crate::controller::default_power_actions;
use crate::create_request::{
    check_microvm_request, check_snapshot_options, microvm_request_refusal, options_refusal,
    profile_refusal, select_profile, DevicesRequest, RequestedPowerActions, RequestedProfile,
    ScsiDiskRequest, SerialPortRequest, SnapshotOptions, VirtioBlkRequest, VirtioConsoleRequest,
    VirtioFsRequest, VmConfigRequest, DEFAULT_QUIESCE_TIMEOUT_MS,
};
use crate::devices::{is_endpoint, FileDisk, NicRequest};
use crate::pcie::{
    build_pcie_topology, device_views, is_complex, switch_views, walk_complexes, BuiltPcieTopology,
    PcieTopologyRequest,
};
use crate::refusal::{refusal_of, refuse, Refusal};

verus! {

/// What a plan depends on besides the request.
#[derive(Debug)]
pub struct CreationFacts {
    pub arch: GuestArch,
    pub host: HostOs,
    /// Whether the mount target of a microVM's filesystem is acceptable.
    pub target_check: Result<(), Refusal>,
}

/// The devices of a planned machine.
#[derive(Debug)]
pub struct DevicesPlan {
    pub virtio_blk: Option<(FileDisk, bool)>,
    /// The disks of the SCSI controller, with their logical units.
    pub disks: Vec<(u8, ScsiDiskRequest)>,
    pub nics: NicPlans,
    pub virtiofs: Vec<VirtioFsRequest>,
    pub virtio_console: Option<VirtioConsoleRequest>,
}

/// A planned machine.
#[derive(Debug)]
pub struct CreationPlan {
    pub machine_profile: MachineProfile,
    pub quiesce_timeout_ms: u64,
    pub serial_ports: Vec<SerialPortRequest>,
    /// The request that each serial port follows.
    pub serial_slots: [Option<usize>; 4],
    pub boot: BootPlan,
    pub numa: NumaTopology,
    pub mem_size: u64,
    pub proc_count: u32,
    pub pcie: BuiltPcieTopology,
    pub power_actions: GuestPowerActions,
    pub devices: DevicesPlan,
    pub hvsocket_path: Option<String>,
}

/// The ports are all among those of the machine.
pub open spec fn ports_refusal(ports: Seq<SerialPortRequest>) -> Option<Seq<char>> {
    if exists|k: int| 0 <= k < ports.len() && (#[trigger] ports[k]).port >= 4 {
        Some("invalid serial port"@)
    } else {
        None
    }
}

/// Why the topology of a machine is refused, if it is.
pub open spec fn topology_refusal(pcie: Option<PcieTopologyRequest>) -> Option<Seq<char>> {
    match pcie {
        None => None,
        Some(pcie) => match walk_complexes(
            pcie.root_complexes@,
            pcie.root_complexes@.len(),
        ) {
            Err(text) => Some(text),
            Ok(_) => None,
        },
    }
}

/// The topology is the one that is described.
pub open spec fn is_topology(
    built: BuiltPcieTopology,
    pcie: Option<PcieTopologyRequest>,
) -> bool {
    match pcie {
        None => {
            &&& built.root_complexes@.len() == 0 && built.switches@.len() == 0
            &&& built.devices@.len() == 0 && built.generic_initiators@.len() == 0
        },
        Some(pcie) => {
            let list = pcie.root_complexes@;
            let flat = walk_complexes(list, list.len())->Ok_0;
            &&& switch_views(built.switches@) == flat.switches
            &&& device_views(built.devices@) == flat.devices
            &&& built.root_complexes@.len() == list.len()
            &&& forall|i: int|
                0 <= i < list.len() ==> is_complex(
                    #[trigger] built.root_complexes@[i],
                    list[i],
                    i as u32,
                )
            &&& built.generic_initiators@ == pcie.generic_initiators@
        },
    }
}

fn plan_topology(pcie: Option<PcieTopologyRequest>) -> (r: Result<BuiltPcieTopology, Refusal>)
    ensures
        refusal_of(r) == topology_refusal(pcie),
        r is Ok ==> is_topology(r->Ok_0, pcie),
{
    match pcie {
        Some(pcie) => build_pcie_topology(pcie),
        None => Ok(
            BuiltPcieTopology {
                root_complexes: Vec::new(),
                switches: Vec::new(),
                devices: Vec::new(),
                generic_initiators: Vec::new(),
            },
        ),
    }
}

/// Why requested power actions are refused, if they are.
pub open spec fn actions_refusal(requested: Option<RequestedPowerActions>) -> Option<Seq<char>> {
    match requested {
        None => None,
        Some(q) => if unknown_action(q.shutdown) is Some {
            unknown_action(q.shutdown)
        } else if unknown_action(q.reset) is Some {
            unknown_action(q.reset)
        } else if unknown_action(q.crash) is Some {
            unknown_action(q.crash)
        } else {
            unknown_action(q.watchdog)
        },
    }
}

/// The actions that are requested.
pub open spec fn actions_of(requested: Option<RequestedPowerActions>) -> GuestPowerActions {
    match requested {
        None => default_power_actions(),
        Some(q) => GuestPowerActions {
            shutdown: requested_action(q.shutdown, default_power_actions().shutdown),
            reset: requested_action(q.reset, default_power_actions().reset),
            crash: requested_action(q.crash, default_power_actions().crash),
            watchdog: requested_action(q.watchdog, default_power_actions().watchdog),
        },
    }
}

/// Why a block device is refused, if it is.
pub open spec fn blk_refusal(blk: Option<VirtioBlkRequest>, microvm: bool) -> Option<Seq<char>> {
    match blk {
        None => None,
        Some(blk) => if !microvm {
            Some("fixed virtio-blk requires the microVM profile"@)
        } else {
            match blk.disk {
                None => Some("missing blk backend"@),
                Some(None) => Some("missing disk backend kind"@),
                Some(Some(_)) => None,
            }
        },
    }
}

/// Why some disks are refused, if they are.
pub open spec fn disks_refusal(disks: Seq<ScsiDiskRequest>) -> Option<Seq<char>> {
    if exists|k: int| 0 <= k < disks.len() && (#[trigger] disks[k]).lun > 255 {
        Some("lun value out of range"@)
    } else {
        None
    }
}

/// Why some exported directories are refused, if they are.
pub open spec fn exports_refusal(list: Seq<VirtioFsRequest>, microvm: bool) -> Option<Seq<char>> {
    if !microvm && exists|k: int|
        0 <= k < list.len() && ((#[trigger] list[k]).guest_mount_target@.len() != 0
            || list[k].read_write) {
        Some("guest_mount_target and read_write require the microVM profile"@)
    } else {
        None
    }
}

/// Why the devices of a machine are refused, if they are.
pub open spec fn devices_refusal(
    devices: Option<DevicesRequest>,
    microvm: bool,
    host: HostOs,
) -> Option<Seq<char>> {
    match devices {
        None => None,
        Some(d) => if blk_refusal(d.virtio_blk, microvm) is Some {
            blk_refusal(d.virtio_blk, microvm)
        } else if disks_refusal(d.scsi_disks@) is Some {
            disks_refusal(d.scsi_disks@)
        } else if nics_refusal(d.nic_config@, host) is Some {
            nics_refusal(d.nic_config@, host)
        } else {
            exports_refusal(d.virtiofs_config@, microvm)
        },
    }
}

/// The network devices are the ones that are requested, and the first that
/// translates addresses in user mode is the one whose ports can be changed.
pub open spec fn are_nics(plans: NicPlans, nics: Seq<NicRequest>) -> bool {
    &&& plans.nics@.len() == nics.len()
    &&& forall|i: int|
        #![trigger plans.nics@[i]]
        0 <= i < nics.len() ==> nics[i].nic_id == Some(plans.nics@[i].instance_id)
            && nics[i].mac_address == Some(plans.nics@[i].mac_address) && nics[i].backend is Some
            && is_endpoint(plans.nics@[i].endpoint, nics[i].backend->0)
    &&& match plans.bindable {
        Some(i) => first_consomme(nics) == Some(i as int),
        None => first_consomme(nics) is None,
    }
}

/// A console without a socket path is no console.
pub open spec fn given_console(console: Option<VirtioConsoleRequest>) -> Option<
    VirtioConsoleRequest,
> {
    if console is Some && console->0.socket_path@.len() == 0 {
        None
    } else {
        console
    }
}

/// The devices are the ones that are requested.
pub open spec fn are_devices(plan: DevicesPlan, devices: Option<DevicesRequest>) -> bool {
    match devices {
        None => {
            &&& plan.virtio_blk is None && plan.disks@.len() == 0
            &&& are_nics(plan.nics, Seq::empty())
            &&& plan.virtiofs@.len() == 0 && plan.virtio_console is None
        },
        Some(d) => {
            &&& match d.virtio_blk {
                None => plan.virtio_blk is None,
                Some(blk) => match plan.virtio_blk {
                    Some((disk, read_only)) => blk.disk == Some(Some(disk)) && blk.read_only
                        == read_only,
                    None => false,
                },
            }
            &&& plan.disks@.len() == d.scsi_disks@.len()
            &&& forall|i: int|
                #![trigger plan.disks@[i]]
                0 <= i < plan.disks@.len() ==> plan.disks@[i].1 == d.scsi_disks@[i]
                    && plan.disks@[i].0 == d.scsi_disks@[i].lun
            &&& are_nics(plan.nics, d.nic_config@)
            &&& plan.virtiofs == d.virtiofs_config
            &&& plan.virtio_console == given_console(d.virtio_console)
        },
    }
}

fn plan_disks(disks: Vec<ScsiDiskRequest>) -> (r: Result<Vec<(u8, ScsiDiskRequest)>, Refusal>)
    ensures
        refusal_of(r) == disks_refusal(disks@),
        r is Ok ==> {
            &&& r->Ok_0@.len() == disks@.len()
            &&& forall|i: int|
                #![trigger r->Ok_0@[i]]
                0 <= i < disks@.len() ==> r->Ok_0@[i].1 == disks@[i] && r->Ok_0@[i].0
                    == disks@[i].lun
        },
{
    let ghost all = disks@;
    let mut units: Vec<u8> = Vec::new();
    let mut i: usize = 0;
    while i < disks.len()
        invariant
            i <= disks@.len(),
            units@.len() == i,
            forall|k: int| 0 <= k < i ==> (#[trigger] disks@[k]).lun <= 255,
            forall|k: int| 0 <= k < i ==> #[trigger] units@[k] == disks@[k].lun,
        decreases disks@.len() - i,
    {
        match disk_unit(&disks[i]) {
            Ok(unit) => {
                units.push(unit);
            },
            Err(e) => {
                assert(disks@[i as int].lun > 255);
                return Err(e);
            },
        }
        i += 1;
    }
    let mut rest = disks;
    let mut backwards: Vec<ScsiDiskRequest> = Vec::new();
    while rest.len() > 0
        invariant
            rest@.len() + backwards@.len() == all.len(),
            forall|k: int| 0 <= k < rest@.len() ==> #[trigger] rest@[k] == all[k],
            forall|k: int|
                0 <= k < backwards@.len() ==> #[trigger] backwards@[k] == all[all.len() - 1 - k],
        decreases rest@.len(),
    {
        match rest.pop() {
            Some(disk) => {
                backwards.push(disk);
            },
            None => {},
        }
    }
    let mut out: Vec<(u8, ScsiDiskRequest)> = Vec::new();
    while backwards.len() > 0
        invariant
            backwards@.len() + out@.len() == all.len(),
            units@.len() == all.len(),
            forall|k: int| 0 <= k < all.len() ==> #[trigger] units@[k] == all[k].lun,
            forall|k: int|
                0 <= k < backwards@.len() ==> #[trigger] backwards@[k] == all[all.len() - 1 - k],
            forall|k: int|
                #![trigger out@[k]]
                0 <= k < out@.len() ==> out@[k].1 == all[k] && out@[k].0 == all[k].lun,
        decreases backwards@.len(),
    {
        let ghost at = out@.len() as int;
        let unit: u8 = units[out.len()];
        proof {
            assert(backwards@[backwards@.len() - 1] == all[at]);
        }
        match backwards.pop() {
            Some(disk) => {
                out.push((unit, disk));
            },
            None => {},
        }
    }
    Ok(out)
}

fn check_exports(list: &Vec<VirtioFsRequest>, microvm: bool) -> (r: Result<(), Refusal>)
    ensures
        refusal_of(r) == exports_refusal(list@, microvm),
{
    if microvm {
        return Ok(());
    }
    let mut i: usize = 0;
    while i < list.len()
        invariant
            !microvm,
            i <= list@.len(),
            forall|k: int|
                0 <= k < i ==> (#[trigger] list@[k]).guest_mount_target@.len() == 0
                    && !list@[k].read_write,
        decreases list@.len() - i,
    {
        match check_standard_virtiofs(&list[i]) {
            Ok(()) => {},
            Err(e) => {
                assert(list@[i as int].guest_mount_target@.len() != 0
                    || list@[i as int].read_write);
                return Err(e);
            },
        }
        i += 1;
    }
    Ok(())
}

fn plan_devices(devices: Option<DevicesRequest>, microvm: bool, host: HostOs) -> (r: Result<
    DevicesPlan,
    Refusal,
>)
    ensures
        refusal_of(r) == devices_refusal(devices, microvm, host),
        r is Ok ==> are_devices(r->Ok_0, devices),
{
    let devices = match devices {
        Some(devices) => devices,
        None => {
            return Ok(
                DevicesPlan {
                    virtio_blk: None,
                    disks: Vec::new(),
                    nics: NicPlans { nics: Vec::new(), bindable: None },
                    virtiofs: Vec::new(),
                    virtio_console: None,
                },
            );
        },
    };
    let virtio_blk: Option<(FileDisk, bool)> = match devices.virtio_blk {
        None => None,
        Some(blk) => match plan_virtio_blk(blk, microvm) {
            Ok(planned) => Some(planned),
            Err(e) => return Err(e),
        },
    };
    let disks = match plan_disks(devices.scsi_disks) {
        Ok(disks) => disks,
        Err(e) => return Err(e),
    };
    let nics = match plan_nics(devices.nic_config, host) {
        Ok(nics) => nics,
        Err(e) => return Err(e),
    };
    match check_exports(&devices.virtiofs_config, microvm) {
        Ok(()) => {},
        Err(e) => return Err(e),
    }
    let virtio_console: Option<VirtioConsoleRequest> = match devices.virtio_console {
        Some(console) => if console.socket_path.as_str().is_empty() {
            None
        } else {
            Some(console)
        },
        None => None,
    };
    Ok(
        DevicesPlan {
            virtio_blk,
            disks,
            nics,
            virtiofs: devices.virtiofs_config,
            virtio_console,
        },
    )
}

/// The machine is a microVM with a virtio console.
pub open spec fn has_console(q: VmConfigRequest) -> bool {
    q.machine_profile == RequestedProfile::Microvm && q.devices_config is Some
        && q.devices_config->0.virtio_console is Some
}

/// Why a machine cannot be created afresh, if it cannot. The first of these that
/// is refused is the answer.
pub open spec fn creation_refusal(
    options: SnapshotOptions,
    requested: Option<VmConfigRequest>,
    facts: CreationFacts,
) -> Option<Seq<char>> {
    if options_refusal(options) is Some {
        options_refusal(options)
    } else {
        match requested {
            None => Some("missing configuration"@),
            Some(q) => {
                let microvm = q.machine_profile == RequestedProfile::Microvm;
                let fixed = microvm_request_refusal(
                    q,
                    facts.arch == GuestArch::X86_64,
                    facts.target_check,
                    options.destination,
                );
                if profile_refusal(q.machine_profile, options) is Some {
                    profile_refusal(q.machine_profile, options)
                } else if microvm && fixed is Some {
                    fixed
                } else if ports_refusal(q.serial_ports@) is Some {
                    ports_refusal(q.serial_ports@)
                } else if boot_refusal(q.boot_config, microvm, has_console(q)) is Some {
                    boot_refusal(q.boot_config, microvm, has_console(q))
                } else if memory_refusal(None, q.numa_config, q.memory_mb) is Some {
                    memory_refusal(None, q.numa_config, q.memory_mb)
                } else if topology_refusal(q.pcie) is Some {
                    topology_refusal(q.pcie)
                } else if actions_refusal(q.guest_power_actions) is Some {
                    actions_refusal(q.guest_power_actions)
                } else {
                    devices_refusal(q.devices_config, microvm, facts.host)
                }
            },
        }
    }
}

/// The serial ports that a firmware finds.
pub open spec fn presence(slots: Seq<Option<usize>>) -> SerialPresence {
    SerialPresence {
        any: slots[0] is Some || slots[1] is Some || slots[2] is Some || slots[3] is Some,
        com1: slots[0] is Some,
    }
}

/// The plan is the one that a request describes.
pub open spec fn is_creation_plan(
    plan: CreationPlan,
    options: SnapshotOptions,
    q: VmConfigRequest,
    facts: CreationFacts,
) -> bool {
    &&& plan.machine_profile == (if q.machine_profile == RequestedProfile::Microvm {
        MachineProfile::Microvm
    } else {
        MachineProfile::Standard
    })
    &&& plan.quiesce_timeout_ms == (if options.quiesce_timeout_ms == 0 {
        DEFAULT_QUIESCE_TIMEOUT_MS
    } else {
        options.quiesce_timeout_ms
    })
    &&& plan.serial_ports == q.serial_ports
    &&& slots_follow(plan.serial_slots@, q.serial_ports@, q.serial_ports@.len() as int)
    &&& q.boot_config is Some
    &&& is_boot_plan(
        plan.boot,
        q.boot_config->0,
        presence(plan.serial_slots@),
        has_console(q),
        facts.arch,
    )
    &&& is_memory(plan.numa, plan.mem_size, None, q.numa_config, q.memory_mb)
    &&& plan.proc_count == (if q.processor_count is Some {
        q.processor_count->0
    } else {
        1
    })
    &&& is_topology(plan.pcie, q.pcie)
    &&& plan.power_actions == actions_of(q.guest_power_actions)
    &&& are_devices(plan.devices, q.devices_config)
    &&& plan.hvsocket_path == q.hvsocket_path
}

/// Plans a machine that is created afresh, before any of its resources is opened.
pub fn plan_creation(
    options: SnapshotOptions,
    requested: Option<VmConfigRequest>,
    facts: &CreationFacts,
) -> (r: Result<CreationPlan, Refusal>)
    requires
        !options.restore,
    ensures
        refusal_of(r) == creation_refusal(options, requested, *facts),
        r is Ok ==> requested is Some && is_creation_plan(
            r->Ok_0,
            options,
            requested->0,
            *facts,
        ),
{
    let quiesce_timeout_ms: u64 = match check_snapshot_options(options) {
        Ok(timeout) => timeout,
        Err(e) => return Err(e),
    };
    let q = match requested {
        Some(q) => q,
        None => return Err(refuse("missing configuration")),
    };
    let machine_profile = match select_profile(q.machine_profile, options) {
        Ok(profile) => profile,
        Err(e) => return Err(e),
    };
    let microvm = machine_profile == MachineProfile::Microvm;
    if microvm {
        match check_microvm_request(
            &q,
            facts.arch == GuestArch::X86_64,
            &facts.target_check,
            options.destination,
        ) {
            Ok(()) => {},
            Err(e) => return Err(e),
        }
    }
    let serial_slots: [Option<usize>; 4] = match assign_serial_ports(&q.serial_ports) {
        Ok(slots) => slots,
        Err(e) => return Err(e),
    };
    let com1 = serial_slots[0].is_some();
    let any = com1 || serial_slots[1].is_some() || serial_slots[2].is_some()
        || serial_slots[3].is_some();
    let serial = SerialPresence { any, com1 };
    let console = microvm && match &q.devices_config {
        Some(devices) => devices.virtio_console.is_some(),
        None => false,
    };
    let boot = match plan_boot(q.boot_config, microvm, serial, console, facts.arch) {
        Ok(boot) => boot,
        Err(e) => return Err(e),
    };
    let (numa, mem_size): (NumaTopology, u64) = match plan_memory(
        None,
        q.numa_config,
        q.memory_mb,
    ) {
        Ok(memory) => memory,
        Err(e) => return Err(e),
    };
    let proc_count: u32 = plan_processors(None, q.processor_count);
    let pcie = match plan_topology(q.pcie) {
        Ok(pcie) => pcie,
        Err(e) => return Err(e),
    };
    let power_actions = match plan_power_actions(q.guest_power_actions) {
        Ok(actions) => actions,
        Err(e) => return Err(e),
    };
    let devices = match plan_devices(q.devices_config, microvm, facts.host) {
        Ok(devices) => devices,
        Err(e) => return Err(e),
    };
    Ok(
        CreationPlan {
            machine_profile,
            quiesce_timeout_ms,
            serial_ports: q.serial_ports,
            serial_slots,
            boot,
            numa,
            mem_size,
            proc_count,
            pcie,
            power_actions,
            devices,
            hvsocket_path: q.hvsocket_path,
        },
    )
}

/// A planned microVM has one processor and nothing that its contract leaves out:
/// no PCIe, no socket relay, no VMBus device and no serial port but the first.
pub proof fn law_planned_microvm_is_minimal(
    plan: CreationPlan,
    options: SnapshotOptions,
    q: VmConfigRequest,
    facts: CreationFacts,
)
    requires
        q.machine_profile == RequestedProfile::Microvm,
        creation_refusal(options, Some(q), facts) is None,
        is_creation_plan(plan, options, q, facts),
    ensures
        plan.proc_count == 1,
        plan.boot is Pvh,
        plan.pcie.root_complexes@.len() == 0 && plan.pcie.devices@.len() == 0,
        plan.hvsocket_path is None,
        plan.devices.disks@.len() == 0 && plan.devices.nics.nics@.len() == 0,
        plan.devices.virtiofs@.len() <= 1,
        plan.serial_slots@[1] is None && plan.serial_slots@[2] is None && plan.serial_slots@[3]
            is None,
{
    let ports = q.serial_ports@;
    assert forall|p: int| 1 <= p < 4 implies crate::create::last_request(
        ports,
        p,
        ports.len() as int,
    ) is None by {
        reveal_with_fuel(crate::create::last_request, 3);
    }
    assert(plan.serial_slots@[1] is None);
    assert(plan.serial_slots@[2] is None);
    assert(plan.serial_slots@[3] is None);
}

} // verus!
