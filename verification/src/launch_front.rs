//! What a launch decides before anything is opened: the fixed devices of a
//! microVM, the terminal, and the limits of the machine.

use vstd::prelude::*;

use crate::config::{DeviceVtl, GuestArch, HostOs, MachineProfile};
use crate::console::{
    console_resource, console_snapshot, effective_console, effective_microvm_console,
    endpoint_view, namespace_refusal, path_view, requested_view,
    validate_microvm_console_attachment_namespace, ResolvedIdentity, SerialConfigCli,
    SerialEndpoint, VirtioConsoleAttachment,
};
use crate::filesystem::{
    attaches, effective_microvm_filesystem, filesystem_refusal, slot_refusal,
    EffectiveMicrovmFilesystem, MicrovmMount, MICROVM_FILESYSTEM_STABLE_ID,
};
use crate::launch::with_get;
use crate::launch_devices::{paravisor_level, paravisor_vtl};
use crate::launch_firmware::microvm_filesystem_slot;
use crate::launch_serial::{
    assign_terminal, check_microvm_serial, claims, has_legacy_serial, holder_view,
    microvm_port_backend, terminal, SerialOptions,
};
use crate::launch_storage::{
    check_processor_count, check_scsi_sub_channels, MAX_PROCESSOR_COUNT, MAX_SCSI_SUB_CHANNELS,
};
use crate::network_attachment::{
    effective_microvm_network, is_network, network_refusal, EffectiveMicrovmNetwork,
    MicrovmNetworkOptions, PolicyBinding,
};
use crate::numeral::decimal;
use crate::refusal::{refusal_of, Refusal};
use crate::snapshot::{has_device, SnapshotAttachment, SnapshotMachineContract};

verus! {

/// What the checks of single options answered.
#[derive(Debug)]
pub struct OptionChecks {
    pub isolation: Result<(), Refusal>,
    pub igvm: Result<(), Refusal>,
    /// Whether the contract of the snapshot is supported, where there is one.
    pub contract: Result<(), Refusal>,
    pub microvm: Result<(), Refusal>,
    pub memory: Result<(), Refusal>,
}

/// The options that are decided on first, with what the host found out about
/// them.
pub struct FrontOptions {
    pub machine: MachineProfile,
    pub arch: GuestArch,
    pub host: HostOs,
    pub checks: OptionChecks,
    pub network: MicrovmNetworkOptions,
    pub binding: PolicyBinding,
    pub mount: Option<MicrovmMount>,
    /// Whether the recorded mount target is acceptable.
    pub recorded_target_check: Result<(), Refusal>,
    pub serial: SerialOptions,
    /// The endpoint of the console of a microVM, once its path is resolved.
    pub console: Option<Result<SerialConfigCli, Refusal>>,
    /// What the host makes of the recorded console.
    pub resolved: ResolvedIdentity,
    /// The snapshot that is restored, or else the one that is to be captured.
    pub snapshot_dir: Option<String>,
    pub processors: u32,
    pub scsi_sub_channels: u16,
    pub get: bool,
    pub vtl2: bool,
    pub no_get: bool,
}

/// The console of a microVM: its endpoint, what the device is told, and what a
/// snapshot records.
pub type MicrovmConsole = (SerialConfigCli, VirtioConsoleAttachment, SnapshotAttachment);

/// What was decided.
pub struct LaunchFront {
    pub network: Option<EffectiveMicrovmNetwork>,
    pub filesystem_slot: bool,
    pub filesystem: Option<EffectiveMicrovmFilesystem>,
    pub console: Option<MicrovmConsole>,
    /// What the port of a microVM writes to.
    pub port: Option<SerialConfigCli>,
    /// The device that has the terminal.
    pub terminal: Option<&'static str>,
    pub with_get: bool,
    pub paravisor_vtl: DeviceVtl,
}

/// Why an answered check stops the launch, if it does.
pub open spec fn check_refusal(check: Result<(), Refusal>) -> Option<Seq<char>> {
    match check {
        Ok(()) => None,
        Err(e) => Some(e@),
    }
}

/// Why single options stop the launch, if they do.
pub open spec fn options_refusal(checks: OptionChecks, restored: bool) -> Option<Seq<char>> {
    if check_refusal(checks.isolation) is Some {
        check_refusal(checks.isolation)
    } else if check_refusal(checks.igvm) is Some {
        check_refusal(checks.igvm)
    } else if restored && check_refusal(checks.contract) is Some {
        check_refusal(checks.contract)
    } else {
        check_refusal(checks.microvm)
    }
}

/// The endpoint of a microVM's console, or why there is none.
pub open spec fn console_outcome(
    opt: FrontOptions,
    contract: Option<SnapshotMachineContract>,
) -> Result<Option<SerialEndpoint>, Seq<char>> {
    effective_console(
        requested_view(
            match opt.console {
                Some(console) => Some(&console),
                None => None,
            },
        ),
        contract,
        path_view(opt.resolved.path),
        endpoint_view(opt.resolved.v6),
        opt.host,
    )
}

/// Why the console of a microVM stops the launch, if it does.
pub open spec fn console_stop(
    opt: FrontOptions,
    contract: Option<SnapshotMachineContract>,
    snapshot: Option<crate::snapshot::Attachment>,
) -> Option<Seq<char>> {
    match console_outcome(opt, contract) {
        Err(e) => Some(e),
        Ok(None) => None,
        Ok(Some(_)) => if opt.snapshot_dir is Some {
            namespace_refusal(snapshot->0, opt.snapshot_dir->0@)
        } else {
            None
        },
    }
}

/// What a snapshot records of the console of a microVM.
pub open spec fn recorded_console(
    opt: FrontOptions,
    contract: Option<SnapshotMachineContract>,
) -> Option<crate::snapshot::Attachment> {
    match console_outcome(opt, contract) {
        Ok(Some(endpoint)) => Some(console_snapshot(endpoint, opt.host)),
        _ => None,
    }
}

/// Why the fixed devices of a microVM stop the launch, if they do.
pub open spec fn devices_stop(
    opt: FrontOptions,
    contract: Option<SnapshotMachineContract>,
) -> Option<Seq<char>> {
    let filesystem = filesystem_refusal(opt.mount, contract, opt.recorded_target_check);
    if network_refusal(opt.network, contract, opt.binding) is Some {
        network_refusal(opt.network, contract, opt.binding)
    } else if contract is Some && slot_refusal(contract->0) is Some {
        slot_refusal(contract->0)
    } else if filesystem is Some {
        filesystem
    } else if has_legacy_serial(opt.serial) {
        Some("microVM does not expose UART, debugcon, or VMBus serial"@)
    } else {
        console_stop(opt, contract, recorded_console(opt, contract))
    }
}

/// The serial options with the console that a machine really has.
pub open spec fn terminal_claims(
    opt: FrontOptions,
    contract: Option<SnapshotMachineContract>,
) -> Seq<(Seq<char>, bool)> {
    let microvm = opt.machine == MachineProfile::Microvm;
    if microvm {
        let console = console_outcome(opt, contract)->Ok_0;
        let taken = console is Some && console->0 is Console;
        seq![("hvc0"@, !taken), ("hvc1"@, taken)]
    } else {
        claims(opt.serial, false, opt.arch)
    }
}

/// Why the limits of a machine stop the launch, if they do.
pub open spec fn limits_stop(opt: FrontOptions) -> Option<Seq<char>> {
    if check_refusal(opt.checks.memory) is Some {
        check_refusal(opt.checks.memory)
    } else if !(1 <= opt.processors <= MAX_PROCESSOR_COUNT) {
        Some("invalid proc count: "@ + decimal(opt.processors as nat))
    } else if opt.scsi_sub_channels > MAX_SCSI_SUB_CHANNELS {
        Some(
            "invalid SCSI sub-channel count: requested "@ + decimal(opt.scsi_sub_channels as nat)
                + ", max "@ + decimal(MAX_SCSI_SUB_CHANNELS as nat),
        )
    } else {
        None
    }
}

/// Why a launch stops before anything is opened, if it does. The first of these
/// that is refused is the answer.
pub open spec fn front_refusal(
    opt: FrontOptions,
    contract: Option<SnapshotMachineContract>,
) -> Option<Seq<char>> {
    let microvm = opt.machine == MachineProfile::Microvm;
    let claimed = terminal(terminal_claims(opt, contract));
    if options_refusal(opt.checks, contract is Some) is Some {
        options_refusal(opt.checks, contract is Some)
    } else if microvm && devices_stop(opt, contract) is Some {
        devices_stop(opt, contract)
    } else if claimed is Err {
        Some("console already set by "@ + claimed->Err_0)
    } else {
        limits_stop(opt)
    }
}

/// The contract of a snapshot, as a value.
pub open spec fn contract_value(contract: Option<&SnapshotMachineContract>) -> Option<
    SnapshotMachineContract,
> {
    match contract {
        Some(contract) => Some(*contract),
        None => None,
    }
}

/// The console is the decided one.
pub open spec fn is_console(
    console: Option<MicrovmConsole>,
    outcome: Result<Option<SerialEndpoint>, Seq<char>>,
    host: HostOs,
) -> bool {
    match console {
        None => outcome == Ok::<Option<SerialEndpoint>, Seq<char>>(None),
        Some((config, resource, snapshot)) => {
            &&& outcome == Ok::<Option<SerialEndpoint>, Seq<char>>(Some(config@))
            &&& resource@ == console_resource(config@, host)
            &&& snapshot@ == console_snapshot(config@, host)
        },
    }
}

/// The console is the terminal.
pub open spec fn on_terminal(console: Option<MicrovmConsole>) -> bool {
    match console {
        Some((config, _, _)) => config@ is Console,
        None => false,
    }
}

/// What was decided is what the options and the snapshot call for. A standard
/// machine has none of the fixed devices.
pub open spec fn is_front(
    front: LaunchFront,
    opt: FrontOptions,
    contract: Option<SnapshotMachineContract>,
) -> bool {
    let microvm = opt.machine == MachineProfile::Microvm;
    &&& if microvm {
        &&& is_network(front.network, opt.network, contract, opt.binding)
        &&& front.filesystem_slot == (contract is Some ==> has_device(
            contract->0.devices@,
            MICROVM_FILESYSTEM_STABLE_ID@,
        ))
        &&& match (front.filesystem, opt.mount) {
            (Some(fs), Some(mount)) => attaches(fs, mount),
            (None, None) => true,
            _ => false,
        }
        &&& is_console(front.console, console_outcome(opt, contract), opt.host)
        &&& front.port is Some
        &&& front.port->0@ == (if on_terminal(front.console) {
            SerialEndpoint::Stderr
        } else {
            SerialEndpoint::Console
        })
    } else {
        &&& front.network is None && !front.filesystem_slot && front.filesystem is None
        &&& front.console is None && front.port is None
    }
    &&& terminal(terminal_claims(opt, contract)) == Ok::<Option<Seq<char>>, Seq<char>>(
        holder_view(front.terminal),
    )
    &&& front.with_get == (opt.get || (opt.vtl2 && !opt.no_get))
    &&& front.paravisor_vtl == paravisor_level(opt.vtl2)
}

fn pass(check: Result<(), Refusal>) -> (r: Result<(), Refusal>)
    ensures
        refusal_of(r) == check_refusal(check),
{
    check
}

fn check_options(checks: &OptionChecks, restored: bool) -> (r: Result<(), Refusal>)
    ensures
        refusal_of(r) == options_refusal(*checks, restored),
{
    if let Err(e) = &checks.isolation {
        return Err(Refusal { message: e.message.clone() });
    }
    if let Err(e) = &checks.igvm {
        return Err(Refusal { message: e.message.clone() });
    }
    if restored {
        if let Err(e) = &checks.contract {
            return Err(Refusal { message: e.message.clone() });
        }
    }
    match &checks.microvm {
        Ok(()) => Ok(()),
        Err(e) => Err(Refusal { message: e.message.clone() }),
    }
}

/// Decides what a launch can decide before it opens anything.
pub fn plan_front(opt: FrontOptions, contract: Option<&SnapshotMachineContract>) -> (r: Result<
    LaunchFront,
    Refusal,
>)
    ensures
        refusal_of(r) == front_refusal(opt, contract_value(contract)),
        r is Ok ==> is_front(r->Ok_0, opt, contract_value(contract)),
{
    let ghost recorded = contract_value(contract);
    match check_options(&opt.checks, contract.is_some()) {
        Ok(()) => {},
        Err(e) => return Err(e),
    }
    let microvm = opt.machine == MachineProfile::Microvm;
    let mut network: Option<EffectiveMicrovmNetwork> = None;
    let mut filesystem_slot = false;
    let mut filesystem: Option<EffectiveMicrovmFilesystem> = None;
    let mut console: Option<MicrovmConsole> = None;
    let mut port: Option<SerialConfigCli> = None;
    let mut serial = opt.serial;
    if microvm {
        match effective_microvm_network(&opt.network, contract, opt.binding) {
            Ok(decided) => {
                network = decided;
            },
            Err(e) => return Err(e),
        }
        match microvm_filesystem_slot(true, contract) {
            Ok(decided) => {
                filesystem_slot = decided;
            },
            Err(e) => return Err(e),
        }
        match effective_microvm_filesystem(opt.mount, contract, &opt.recorded_target_check) {
            Ok(decided) => {
                filesystem = decided;
            },
            Err(e) => return Err(e),
        }
        match check_microvm_serial(&serial) {
            Ok(()) => {},
            Err(e) => return Err(e),
        }
        let requested: Option<&Result<SerialConfigCli, Refusal>> = match &opt.console {
            Some(requested) => Some(requested),
            None => None,
        };
        match effective_microvm_console(requested, contract, &opt.resolved, opt.host) {
            Ok(decided) => {
                console = decided;
            },
            Err(e) => return Err(e),
        }
        match &console {
            Some((config, _resource, snapshot)) => {
                if let Some(dir) = &opt.snapshot_dir {
                    match validate_microvm_console_attachment_namespace(snapshot, dir.as_str()) {
                        Ok(()) => {},
                        Err(e) => return Err(e),
                    }
                }
                port = Some(microvm_port_backend(Some(config)));
                serial.virtio_console = Some(config.duplicate());
            },
            None => {
                port = Some(microvm_port_backend(None));
                serial.virtio_console = None;
            },
        }
    }
    assert(claims(serial, microvm, opt.arch) =~= terminal_claims(opt, recorded));
    let holder: Option<&'static str> = match assign_terminal(&serial, microvm, opt.arch) {
        Ok(holder) => holder,
        Err(e) => return Err(e),
    };
    match pass(opt.checks.memory) {
        Ok(()) => {},
        Err(e) => return Err(e),
    }
    match check_processor_count(opt.processors) {
        Ok(()) => {},
        Err(e) => return Err(e),
    }
    match check_scsi_sub_channels(opt.scsi_sub_channels) {
        Ok(()) => {},
        Err(e) => return Err(e),
    }
    Ok(
        LaunchFront {
            network,
            filesystem_slot,
            filesystem,
            console,
            port,
            terminal: holder,
            with_get: with_get(opt.get, opt.vtl2, opt.no_get),
            paravisor_vtl: paravisor_vtl(opt.vtl2),
        },
    )
}

/// A launched microVM always has a terminal, on one of its two consoles.
pub proof fn law_launched_microvm_has_a_terminal(
    front: LaunchFront,
    opt: FrontOptions,
    contract: Option<SnapshotMachineContract>,
)
    requires
        opt.machine == MachineProfile::Microvm,
        is_front(front, opt, contract),
    ensures
        holder_view(front.terminal) == (if on_terminal(front.console) {
            Some("hvc1"@)
        } else {
            Some("hvc0"@)
        }),
        front.port->0@ is Stderr <==> holder_view(front.terminal) == Some("hvc1"@),
{
    let all = terminal_claims(opt, contract);
    reveal_with_fuel(terminal, 3);
    assert(all.drop_last() =~= seq![all[0]]);
    assert(all.drop_last().drop_last() =~= Seq::empty());
    reveal_strlit("hvc0");
    reveal_strlit("hvc1");
    assert("hvc0"@[3] != "hvc1"@[3]);
}

} // verus!
