//! A virtual machine that is created from a snapshot, planned as a whole.

use vstd::prelude::*;

use crate::config::{GuestArch, HostOs, NumaTopology};
use crate::console::{endpoint_view, path_view, requested_view, restored_console};
use crate::console::{console_resource, ResolvedIdentity, SerialConfigCli, SerialEndpoint};
use crate::console::MICROVM_CONSOLE_STABLE_ID;
use crate::controller::GuestPowerActions;
use crate::create::{
    assign_serial_ports, is_memory, plan_memory, plan_power_actions, plan_processors,
    restored_console_refusal, restored_microvm_console, slots_follow, BootPlan,
    ConsoleDisconnectPolicy, ConsolePlan,
};
use crate::create_plan::{actions_of, actions_refusal};
use crate::create_request::{
    authoritative_contract, check_restored_microvm, check_snapshot_options,
    check_source_hypervisor, contract_refusal, only_first_port, options_refusal,
    restore_request_refusal, restored_filesystem_refusal, restored_microvm_filesystem,
    source_refusal, take_restore_request, RemountRequest, SerialPortRequest, SnapshotOptions,
    VirtioFsRequest, VmConfigRequest, DEFAULT_QUIESCE_TIMEOUT_MS,
};
use crate::filesystem::{
    access_of, EffectiveMicrovmFilesystem, HostRoot, MICROVM_FILESYSTEM_STABLE_ID,
};
use crate::refusal::{refusal_of, refuse, Refusal};
use crate::run::RestoreTime;
use crate::snapshot::{find_attachment, has_device, SnapshotMachineContract};

verus! {

/// What the manifest of a snapshot records.
#[derive(Debug)]
pub struct RecordedMachine {
    pub memory_size_bytes: u64,
    pub vp_count: u32,
    pub machine_contract: Option<SnapshotMachineContract>,
}

/// What was found out on the host about a machine that is to be restored.
pub struct RestorationFacts {
    pub arch: GuestArch,
    pub host: HostOs,
    /// The manifest, where it could be read and is valid for this host.
    pub manifest: Result<RecordedMachine, Refusal>,
    /// The hypervisor of this host.
    pub hypervisor: Result<String, Refusal>,
    /// Whether the recorded mount target of the filesystem is acceptable.
    pub target_check: Result<(), Refusal>,
    /// What was found along the path of the requested export, if there is one.
    pub host_root: HostRoot,
    /// When and where the snapshot was taken, once its memory is mapped.
    pub prepared: Result<Option<RestoreTime>, Refusal>,
    /// The endpoint of the requested console, if there is one.
    pub console: Result<SerialConfigCli, Refusal>,
    /// What the host makes of the recorded console.
    pub resolved: ResolvedIdentity,
    /// The directory of the snapshot.
    pub snapshot_path: String,
}

/// A planned machine that continues where its snapshot was taken.
pub struct RestorationPlan {
    pub quiesce_timeout_ms: u64,
    pub serial_ports: Vec<SerialPortRequest>,
    /// The request that each serial port follows.
    pub serial_slots: [Option<usize>; 4],
    pub boot: BootPlan,
    pub numa: NumaTopology,
    pub mem_size: u64,
    pub proc_count: u32,
    pub power_actions: GuestPowerActions,
    pub filesystem: Option<EffectiveMicrovmFilesystem>,
    pub console: Option<ConsolePlan>,
    pub time: RestoreTime,
}

/// The export that a restored machine is given.
pub open spec fn remount(virtiofs: Option<VirtioFsRequest>, host: HostRoot) -> Option<
    RemountRequest,
> {
    match virtiofs {
        None => None,
        Some(virtiofs) => Some(RemountRequest { virtiofs, host }),
    }
}

/// The serial ports that a request has.
pub open spec fn requested_ports(requested: Option<VmConfigRequest>) -> Seq<SerialPortRequest> {
    match requested {
        None => Seq::empty(),
        Some(q) => q.serial_ports@,
    }
}

/// The export that a request has, if it has one.
pub open spec fn requested_export(requested: Option<VmConfigRequest>) -> Option<VirtioFsRequest> {
    if requested is Some && requested->0.devices_config is Some
        && requested->0.devices_config->0.virtiofs_config@.len() > 0 {
        Some(requested->0.devices_config->0.virtiofs_config@[0])
    } else {
        None
    }
}

/// The request has a console.
pub open spec fn requests_console(requested: Option<VmConfigRequest>) -> bool {
    requested is Some && requested->0.devices_config is Some
        && requested->0.devices_config->0.virtio_console is Some
}

/// The endpoint that the recorded console is attached to, or why there is none.
pub open spec fn console_again(
    contract: SnapshotMachineContract,
    requested: Option<VmConfigRequest>,
    facts: RestorationFacts,
) -> Result<SerialEndpoint, Seq<char>> {
    restored_console(
        find_attachment(contract.attachments@, MICROVM_CONSOLE_STABLE_ID@)->0,
        requested_view(
            if requests_console(requested) {
                Some(&facts.console)
            } else {
                None
            },
        ),
        path_view(facts.resolved.path),
        endpoint_view(facts.resolved.v6),
        facts.host,
    )
}

/// Why the recorded machine cannot be continued, if it cannot.
pub open spec fn continuation_refusal(
    contract: SnapshotMachineContract,
    requested: Option<VmConfigRequest>,
    facts: RestorationFacts,
) -> Option<Seq<char>> {
    let filesystem = restored_filesystem_refusal(
        has_device(contract.devices@, MICROVM_FILESYSTEM_STABLE_ID@),
        contract.microvm_filesystem,
        find_attachment(contract.attachments@, MICROVM_FILESYSTEM_STABLE_ID@),
        facts.target_check,
        remount(requested_export(requested), facts.host_root),
    );
    let actions = actions_refusal(
        match requested {
            Some(q) => q.guest_power_actions,
            None => None,
        },
    );
    if facts.hypervisor is Err {
        Some(facts.hypervisor->Err_0@)
    } else if source_refusal(contract.source_hypervisor@, facts.hypervisor->Ok_0@) is Some {
        source_refusal(contract.source_hypervisor@, facts.hypervisor->Ok_0@)
    } else if filesystem is Some {
        filesystem
    } else if contract.microvm_network is Some {
        Some("ttrpc restore does not yet expose microVM network attachments"@)
    } else if facts.prepared is Err {
        Some(facts.prepared->Err_0@)
    } else if facts.prepared->Ok_0 is None {
        Some("microVM snapshot is missing its restore-time contract"@)
    } else if facts.arch != GuestArch::X86_64 {
        Some("microVM requires an x86-64 guest"@)
    } else if !only_first_port(requested_ports(requested)) {
        Some("microVM ABI version 1 accepts only serial port 0 as its portb endpoint"@)
    } else if actions is Some {
        actions
    } else {
        restored_console_refusal(
            has_device(contract.devices@, MICROVM_CONSOLE_STABLE_ID@),
            find_attachment(contract.attachments@, MICROVM_CONSOLE_STABLE_ID@),
            console_again(contract, requested, facts),
            facts.snapshot_path@,
        )
    }
}

/// Why a machine cannot be created from a snapshot, if it cannot. The first of
/// these that is refused is the answer.
pub open spec fn restoration_refusal(
    options: SnapshotOptions,
    requested: Option<VmConfigRequest>,
    facts: RestorationFacts,
) -> Option<Seq<char>> {
    if options_refusal(options) is Some {
        options_refusal(options)
    } else {
        match facts.manifest {
            Err(e) => Some(e@),
            Ok(manifest) => if contract_refusal(manifest.machine_contract) is Some {
                contract_refusal(manifest.machine_contract)
            } else if restore_request_refusal(requested) is Some {
                restore_request_refusal(requested)
            } else {
                continuation_refusal(manifest.machine_contract->0, requested, facts)
            },
        }
    }
}

/// The filesystem is the recorded one, exported again.
pub open spec fn is_filesystem_again(
    filesystem: Option<EffectiveMicrovmFilesystem>,
    contract: SnapshotMachineContract,
    root_path: String,
) -> bool {
    match (filesystem, contract.microvm_filesystem) {
        (Some(fs), Some(saved)) => {
            &&& Some(fs.attachment@) == find_attachment(
                contract.attachments@,
                MICROVM_FILESYSTEM_STABLE_ID@,
            )
            &&& fs.config.guest_mount_target@ == saved.guest_mount_target@
            &&& access_of(saved.access_mode@) == Some(fs.config.access)
            &&& fs.root_path == root_path
        },
        (None, None) => true,
        _ => false,
    }
}

/// The console is the recorded one, attached again.
pub open spec fn is_console_again(
    console: Option<ConsolePlan>,
    contract: SnapshotMachineContract,
    requested: Option<VmConfigRequest>,
    facts: RestorationFacts,
) -> bool {
    let attachment = find_attachment(contract.attachments@, MICROVM_CONSOLE_STABLE_ID@);
    match console {
        None => attachment is None,
        Some(plan) => {
            &&& attachment == Some(plan.snapshot@)
            &&& console_again(contract, requested, facts) == Ok::<SerialEndpoint, Seq<char>>(
                plan.endpoint@,
            )
            &&& plan.resource@ == console_resource(plan.endpoint@, facts.host)
            &&& plan.disconnect_policy == (if plan.endpoint@ is Disconnected {
                ConsoleDisconnectPolicy::Discard
            } else {
                ConsoleDisconnectPolicy::Retain
            })
        },
    }
}

/// The plan continues the recorded machine: its command line, its memory, its
/// processors and its devices are the recorded ones.
pub open spec fn is_restoration_plan(
    plan: RestorationPlan,
    requested: Option<VmConfigRequest>,
    facts: RestorationFacts,
) -> bool {
    let manifest = facts.manifest->Ok_0;
    let contract = manifest.machine_contract->0;
    &&& plan.quiesce_timeout_ms == DEFAULT_QUIESCE_TIMEOUT_MS
    &&& plan.serial_ports@ == requested_ports(requested)
    &&& slots_follow(plan.serial_slots@, plan.serial_ports@, plan.serial_ports@.len() as int)
    &&& plan.boot == (BootPlan::Restored { cmdline: contract.effective_command_line })
    &&& is_memory(plan.numa, plan.mem_size, Some(manifest.memory_size_bytes), None, None)
    &&& plan.proc_count == manifest.vp_count
    &&& plan.power_actions == actions_of(
        match requested {
            Some(q) => q.guest_power_actions,
            None => None,
        },
    )
    &&& is_filesystem_again(plan.filesystem, contract, facts.host_root.canonical->Ok_0.path)
    &&& is_console_again(plan.console, contract, requested, facts)
    &&& facts.prepared->Ok_0 == Some(plan.time)
}

/// Plans a machine that is created from a snapshot, before any of its resources
/// but the snapshot itself is opened.
pub fn plan_restoration(
    options: SnapshotOptions,
    requested: Option<VmConfigRequest>,
    facts: RestorationFacts,
) -> (r: Result<RestorationPlan, Refusal>)
    requires
        options.restore,
    ensures
        refusal_of(r) == restoration_refusal(options, requested, facts),
        r is Ok ==> is_restoration_plan(r->Ok_0, requested, facts),
{
    let quiesce_timeout_ms: u64 = match check_snapshot_options(options) {
        Ok(timeout) => timeout,
        Err(e) => return Err(e),
    };
    let manifest = match facts.manifest {
        Ok(manifest) => manifest,
        Err(e) => return Err(e),
    };
    let contract = match authoritative_contract(manifest.machine_contract) {
        Ok(contract) => contract,
        Err(e) => return Err(e),
    };
    let given = match take_restore_request(requested) {
        Ok(given) => given,
        Err(e) => return Err(e),
    };
    assert(given.serial_ports@ =~= requested_ports(requested));
    let hypervisor = match facts.hypervisor {
        Ok(hypervisor) => hypervisor,
        Err(e) => return Err(e),
    };
    match check_source_hypervisor(contract.source_hypervisor.as_str(), hypervisor.as_str()) {
        Ok(()) => {},
        Err(e) => return Err(e),
    }
    let export: Option<RemountRequest> = match given.virtiofs {
        Some(virtiofs) => Some(RemountRequest { virtiofs, host: facts.host_root }),
        None => None,
    };
    let filesystem = match restored_microvm_filesystem(&contract, &facts.target_check, export) {
        Ok(filesystem) => filesystem,
        Err(e) => return Err(e),
    };
    if contract.microvm_network.is_some() {
        return Err(refuse("ttrpc restore does not yet expose microVM network attachments"));
    }
    let time = match facts.prepared {
        Ok(Some(time)) => time,
        Ok(None) => {
            return Err(refuse("microVM snapshot is missing its restore-time contract"));
        },
        Err(e) => return Err(e),
    };
    match check_restored_microvm(
        &given.serial_ports,
        facts.arch == GuestArch::X86_64,
        contract.microvm_network.is_some(),
    ) {
        Ok(()) => {},
        Err(e) => return Err(e),
    }
    let serial_slots: [Option<usize>; 4] = match assign_serial_ports(&given.serial_ports) {
        Ok(slots) => slots,
        Err(e) => return Err(e),
    };
    let (numa, mem_size): (NumaTopology, u64) = match plan_memory(
        Some(manifest.memory_size_bytes),
        None,
        None,
    ) {
        Ok(memory) => memory,
        Err(e) => return Err(e),
    };
    let proc_count: u32 = plan_processors(Some(manifest.vp_count), None);
    let power_actions = match plan_power_actions(given.guest_power_actions) {
        Ok(actions) => actions,
        Err(e) => return Err(e),
    };
    let attached: Option<&Result<SerialConfigCli, Refusal>> = if given.virtio_console.is_some() {
        Some(&facts.console)
    } else {
        None
    };
    let console = match restored_microvm_console(
        &contract,
        attached,
        &facts.resolved,
        facts.snapshot_path.as_str(),
        facts.host,
    ) {
        Ok(console) => console,
        Err(e) => return Err(e),
    };
    Ok(
        RestorationPlan {
            quiesce_timeout_ms,
            serial_ports: given.serial_ports,
            serial_slots,
            boot: BootPlan::Restored { cmdline: contract.effective_command_line },
            numa,
            mem_size,
            proc_count,
            power_actions,
            filesystem,
            console,
            time,
        },
    )
}

/// A machine that is created from a snapshot is the recorded one: no request
/// changes its command line, its memory, its processors or the directory and the
/// console that it is attached to.
pub proof fn law_restored_machine_is_the_recorded_one(
    first: RestorationPlan,
    second: RestorationPlan,
    one: Option<VmConfigRequest>,
    other: Option<VmConfigRequest>,
    facts: RestorationFacts,
    others: RestorationFacts,
)
    requires
        facts.manifest is Ok && others.manifest == facts.manifest,
        is_restoration_plan(first, one, facts),
        is_restoration_plan(second, other, others),
    ensures
        first.boot == second.boot,
        first.mem_size == second.mem_size,
        first.proc_count == second.proc_count,
        first.filesystem is Some <==> second.filesystem is Some,
        first.filesystem is Some ==> first.filesystem->0.attachment@
            == second.filesystem->0.attachment@,
        first.console is Some <==> second.console is Some,
        first.console is Some ==> first.console->0.snapshot@ == second.console->0.snapshot@,
{
}

} // verus!
