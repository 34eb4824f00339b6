//! When something that is asked for is granted.

use vstd::prelude::*;

use crate::config::{Config, HostFile, HostOs, SmbiosConfig};
use crate::console::{
    microvm_console_attachment_from_cli, SerialConfigCli, SerialEndpoint, VirtioConsoleAttachment,
};
use crate::create::{create_config, MachineParts};
use crate::create_plan::{plan_creation, CreationFacts, CreationPlan};
use crate::create_request::{SnapshotOptions, VmConfigRequest};
use crate::create_restore::{plan_restoration, RestorationFacts, RestorationPlan};
use crate::launch::{finish_config, hypervisor_view, FinishOptions};
use crate::launch_front::{plan_front, terminal_claims, FrontOptions, LaunchFront};
use crate::launch_plan::{boot_options, boot_stop, plan_launch, LaunchChoices, LaunchPlan};
use crate::launch_serial::terminal;
use crate::microvm::net_irq;
use crate::refusal::Refusal;
use crate::run::{
    contract_inputs, plan_restore, prepare_snapshot_restore, ContractInputs, PreparationFacts,
    RequestedMicrovm, RestoreOptions, RestorePlan, RestoreTime,
};
use crate::snapshot::{SnapshotAttachment, SnapshotMachineContract};
use crate::text::{byte_len, has_prefix, string_views, words};

verus! {

/// A snapshot for which every check passed is prepared for its restore, whether or not it
/// is that of a microVM.
pub proof fn law_checked_snapshots_are_prepared(
    facts: PreparationFacts,
    contract: Option<&SnapshotMachineContract>,
    inputs: RequestedMicrovm,
    slot: Result<ContractInputs, Refusal>,
    r: Result<Option<RestoreTime>, Refusal>,
)
    requires
        call_ensures(prepare_snapshot_restore, (&facts, contract), r),
        contract is Some ==> call_ensures(contract_inputs, (inputs, contract->0), slot),
        facts.manifest_check is Ok,
        facts.saved_state is Ok,
        contract is Some ==> facts.inventory is Ok && string_views(facts.inventory->Ok_0@)
            == string_views(contract->0.state_unit_names@),
        facts.machine is Microvm ==> {
            &&& contract is Some && slot is Ok
            &&& facts.block_contract is Ok && facts.command_line
            &&& facts.expected_contract is Ok && facts.contract_check is Ok
            &&& facts.capture_time_ns is Ok
            &&& facts.capture_time_ns->Ok_0 <= facts.now_ns <= facts.capture_time_ns->Ok_0
                + 30 * 24 * 3600 * 1_000_000_000
        },
    ensures
        r is Ok,
{
}

/// A microVM is restored as asked where its snapshot is one of a microVM, the host supports
/// it, what is asked of processors and memory was found possible, nothing is
/// overridden, and it has no block devices.
pub proof fn law_plain_microvms_are_restored(
    options: RestoreOptions,
    contract: Option<&SnapshotMachineContract>,
    r: Result<RestorePlan, Refusal>,
)
    requires
        call_ensures(plan_restore, (&options, contract), r),
        options.machine is Microvm,
        contract is Some,
        contract->0.machine_profile@ == "microvm"@,
        options.supported is Ok,
        options.processors is Some ==> options.processors->0 is Ok,
        options.memory matches Some((_, ranges)) ==> ranges is Ok,
        !options.command_line_overridden && !options.memory_overridden,
        contract->0.microvm_sandbox_blocks@.len() == 0,
        !options.scratch_block,
    ensures
        r is Ok,
{
}

/// A standard machine with a boot, some memory and nothing else is created.
pub proof fn law_plain_machines_are_created(
    options: SnapshotOptions,
    requested: Option<VmConfigRequest>,
    facts: CreationFacts,
    r: Result<CreationPlan, Refusal>,
)
    requires
        call_ensures(plan_creation, (options, requested, &facts), r),
        !options.restore && !options.destination && !options.restore_entropy,
        options.quiesce_timeout_ms == 0,
        requested is Some,
        requested->0.machine_profile is Standard,
        requested->0.boot_config is Some && !(requested->0.boot_config->0 is PvhBoot),
        requested->0.memory_mb is Some && requested->0.memory_mb->0 * 1_048_576 <= u64::MAX,
        requested->0.numa_config is None && requested->0.pcie is None,
        requested->0.serial_ports@.len() == 0,
        requested->0.devices_config is None,
        requested->0.guest_power_actions is None,
    ensures
        r is Ok,
{
}

/// A recorded microVM that has neither network, directory nor console is continued where its
/// snapshot could be read and prepared on the hypervisor that it was taken on, and
/// nothing else is asked for.
pub proof fn law_plain_microvms_are_continued(
    options: SnapshotOptions,
    facts: RestorationFacts,
    r: Result<RestorationPlan, Refusal>,
)
    requires
        call_ensures(plan_restoration, (options, None, facts), r),
        options.restore && !options.destination,
        options.quiesce_timeout_ms == 0,
        facts.manifest is Ok,
        facts.manifest->Ok_0.machine_contract is Some,
        ({
            let contract = facts.manifest->Ok_0.machine_contract->0;
            &&& contract.machine_profile@ == "microvm"@ && contract.microvm_abi_version == 1
            &&& contract.microvm_network is None && contract.microvm_filesystem is None
            &&& contract.devices@.len() == 0 && contract.attachments@.len() == 0
            &&& facts.hypervisor is Ok && facts.hypervisor->Ok_0@ == contract.source_hypervisor@
        }),
        facts.prepared is Ok && facts.prepared->Ok_0 is Some,
        facts.arch is X86_64,
    ensures
        r is Ok,
{
}

/// The front of a standard machine is decided where every option passed its check, the machine
/// is within its limits, and at most one of its devices claims the terminal.
pub proof fn law_checked_fronts_are_decided(
    opt: FrontOptions,
    contract: Option<&SnapshotMachineContract>,
    r: Result<LaunchFront, Refusal>,
)
    requires
        call_ensures(plan_front, (opt, contract), r),
        opt.machine is Standard,
        opt.checks.isolation is Ok && opt.checks.igvm is Ok && opt.checks.microvm is Ok
            && opt.checks.memory is Ok,
        contract is Some ==> opt.checks.contract is Ok,
        terminal(
            terminal_claims(
                opt,
                match contract {
                    Some(contract) => Some(*contract),
                    None => None,
                },
            ),
        ) is Ok,
        1 <= opt.processors <= 1024,
        opt.scsi_sub_channels < 1024,
    ensures
        r is Ok,
{
}

/// A standard machine without isolation is launched where it has what it boots: a kernel for
/// Linux, a firmware for UEFI, an x86-64 guest for PCAT, or a snapshot.
pub proof fn law_bootable_machines_are_launched(
    c: LaunchChoices,
    front: LaunchFront,
    recorded: Option<String>,
    image: HostFile,
    initrd: Option<HostFile>,
    smbios: SmbiosConfig,
    r: Result<LaunchPlan, Refusal>,
)
    requires
        call_ensures(plan_launch, (c, &front, recorded, image, initrd, smbios), r),
        c.machine is Standard,
        c.isolation is None,
        !c.boot.igvm,
    ensures
        c.boot.restore_snapshot ==> r is Ok,
        !c.boot.restore_snapshot && c.boot.pcat ==> (r is Ok <==> c.arch is X86_64),
        !c.boot.restore_snapshot && !c.boot.pcat && c.boot.uefi ==> (r is Ok
            <==> c.boot.uefi_firmware && !(c.boot.no_hv && c.arch is X86_64)),
        !c.boot.restore_snapshot && !c.boot.pcat && !c.boot.uefi ==> (r is Ok <==> c.boot.kernel),
{
    reveal(boot_options);
    reveal(boot_stop);
}

/// Isolation by the hypervisor needs the paravisor, and no second mapping of guest memory.
pub proof fn law_isolation_needs_the_paravisor(
    c: LaunchChoices,
    front: LaunchFront,
    recorded: Option<String>,
    image: HostFile,
    initrd: Option<HostFile>,
    smbios: SmbiosConfig,
    r: Result<LaunchPlan, Refusal>,
)
    requires
        call_ensures(plan_launch, (c, &front, recorded, image, initrd, smbios), r),
        c.isolation is Some && c.isolation->0 is Vbs,
        r is Ok,
    ensures
        c.vtl2 && c.no_alias_map,
{
}

/// The command line of a fresh microVM that is finished fits, and says nothing of a tier before
/// the tier is put there. A microVM with a network is finished only where the interrupt of
/// its network is known.
pub proof fn law_finished_command_lines_fit(
    config: Config,
    options: FinishOptions,
    host: HostOs,
    r: Result<Config, Refusal>,
    i: int,
)
    requires
        call_ensures(finish_config, (config, &options, host), r),
        r is Ok,
        config.machine_profile is Microvm,
        !options.restored,
    ensures
        r->Ok_0.load_mode is Pvh,
        byte_len(r->Ok_0.load_mode->Pvh_cmdline@) < 65536,
        options.snapshot_tier is Some && 0 <= i < words(config.load_mode->Pvh_cmdline@).len()
            ==> !has_prefix(words(config.load_mode->Pvh_cmdline@)[i], "nvx_snapshot_tier="@),
        config.microvm_network is Some ==> net_irq(hypervisor_view(options), host) is Ok,
{
}

/// The command line of a fresh microVM that is created fits.
pub proof fn law_created_command_lines_fit(
    parts: MachineParts,
    host: HostOs,
    r: Result<Config, Refusal>,
)
    requires
        call_ensures(create_config, (parts, host), r),
        r is Ok,
        parts.machine_profile is Microvm,
        !parts.restored,
    ensures
        r->Ok_0.load_mode is Pvh,
        byte_len(r->Ok_0.load_mode->Pvh_cmdline@) < 65536,
{
}

/// A socket of a name that fits is a console on every host but Windows, and there too where
/// it is a pipe of the consoles' own; so is a loopback address with a port.
pub proof fn law_good_console_endpoints_are_taken(
    config: SerialConfigCli,
    host: HostOs,
    r: Result<(SerialConfigCli, VirtioConsoleAttachment, SnapshotAttachment), Refusal>,
)
    requires
        call_ensures(microvm_console_attachment_from_cli, (&config, host), r),
    ensures
        config@ matches SerialEndpoint::Pipe(path) ==> (r is Ok <==> 0 < path.len() && byte_len(
            path,
        ) <= 4096 && (host is Windows ==> has_prefix(path, "//./pipe/openvmm-microvm-"@))),
        config@ matches SerialEndpoint::ConnectPipe(path) ==> (r is Ok <==> 0 < path.len()
            && byte_len(path) <= 4096 && (host is Windows ==> has_prefix(
            path,
            "//./pipe/openvmm-microvm-"@,
        ))),
        config@ matches SerialEndpoint::Tcp(address) ==> (r is Ok <==> address.port() > 0
            && address.loopback() && 0 < address.text().len() && byte_len(address.text())
            <= 4096),
        config@ matches SerialEndpoint::ConnectTcp(address) ==> (r is Ok <==> address.port() > 0
            && address.loopback() && 0 < address.text().len() && byte_len(address.text())
            <= 4096),
        config@ is File || config@ is Stderr || config@ is NewConsole ==> r is Err,
{
}

} // verus!
