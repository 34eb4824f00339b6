//! How the parts of a created virtual machine are decided.

use vstd::prelude::*;

use crate::chipset::BaseChipsetType;
use crate::config::{
    ArchTopologyConfig, BaseChipsetManifest, ChipsetDeviceHandle, Config, DeviceResource,
    DeviceVtl, GuestArch, Guid, HostFile, HostOs, HypervisorConfig, LayoutConfig,
    LinuxDirectBootMode, LinuxIsolationConfig, LoadMode, MachineProfile, NumaTopology,
    PcieDeviceConfig, PcieGenericInitiatorConfig, PcieRootComplexConfig, PcieSwitchConfig,
    ProcessorTopologyConfig, UefiConsoleMode, VirtioBus, VmChipsetCapabilities, VmbusConfig,
    VpciDeviceConfig, X2ApicConfig, X86TopologyConfig,
};
use crate::console::{
    console_refusal, console_resource, console_snapshot, endpoint_view,
    microvm_console_attachment_from_cli, microvm_console_attachment_from_snapshot,
    namespace_refusal, path_view, requested_view, restored_console,
    validate_microvm_console_attachment_namespace, ResolvedIdentity, SerialConfigCli,
    SerialEndpoint, VirtioConsoleAttachment, MICROVM_CONSOLE_STABLE_ID,
};
use crate::controller::{default_power_actions, GuestPowerAction, GuestPowerActions};
use crate::create_request::{
    BootRequest, RequestedPowerAction, RequestedPowerActions, ScsiDiskRequest, SecureBootTemplate,
    SerialPortRequest, VirtioBlkRequest, VirtioConsoleRequest, VirtioFsRequest,
};
use crate::devices::{
    is_endpoint, nic_refusal, parse_nic_config, push_signed, signed_decimal, FileDisk, NicBackend,
    NicPlan, NicRequest,
};
use crate::entropy::random_bytes;
use crate::machine::{machine_refusal, validate_machine_config};
use crate::microvm::{
    append_microvm_device_discovery, build_console_command_line, command_line_on, device_ids,
    discovered, discovery_tokens, pvh_command_line, same_pvh_with, slot_refusal,
    user_args_refusal, MICROVM_COMMAND_LINE_MAX_SIZE,
};
use crate::numa::{
    build_numa_topology, distances_refusal, is_node, is_single_node, nodes_refusal,
    single_node_topology, total_bytes, NumaRequest, MB,
};
use crate::refusal::{refusal_of, refuse, refuse_naming, text_view, Refusal};
use crate::restore::{packet_bytes, restore_packet_from_random};
use crate::smbios::{is_plain_smbios, is_zero_guid, plain_smbios, zero_guid};
use crate::snapshot::{
    find_attachment, has_device, Attachment, SnapshotAttachment, SnapshotMachineContract,
};
use crate::text::{byte_len, string_views};

verus! {

/// The position of the last request for a port, among the first requests.
pub open spec fn last_request(ports: Seq<SerialPortRequest>, port: int, n: int) -> Option<int>
    decreases n,
{
    if n <= 0 {
        None
    } else if ports[n - 1].port == port {
        Some(n - 1)
    } else {
        last_request(ports, port, n - 1)
    }
}

/// The requests that the serial ports follow.
pub open spec fn slots_follow(
    slots: Seq<Option<usize>>,
    ports: Seq<SerialPortRequest>,
    n: int,
) -> bool {
    &&& slots.len() == 4
    &&& forall|p: int|
        0 <= p < 4 ==> match #[trigger] slots[p] {
            Some(k) => last_request(ports, p, n) == Some(k as int),
            None => last_request(ports, p, n) is None,
        }
}

/// Assigns the requested serial ports to the four ports of the machine. Where a
/// port is requested more than once, the last request stands.
pub fn assign_serial_ports(ports: &Vec<SerialPortRequest>) -> (r: Result<
    [Option<usize>; 4],
    Refusal,
>)
    ensures
        refusal_of(r) == (if exists|k: int|
            0 <= k < ports@.len() && (#[trigger] ports@[k]).port >= 4 {
            Some("invalid serial port"@)
        } else {
            None
        }),
        r is Ok ==> slots_follow(r->Ok_0@, ports@, ports@.len() as int),
{
    let mut slots: [Option<usize>; 4] = [None, None, None, None];
    let mut i: usize = 0;
    while i < ports.len()
        invariant
            i <= ports@.len(),
            slots_follow(slots@, ports@, i as int),
            forall|k: int| 0 <= k < i ==> (#[trigger] ports@[k]).port < 4,
        decreases ports@.len() - i,
    {
        let port = ports[i].port;
        if port >= 4 {
            assert(ports@[i as int].port >= 4);
            return Err(refuse("invalid serial port"));
        }
        let ghost before = slots@;
        slots[port as usize] = Some(i);
        proof {
            assert forall|p: int| 0 <= p < 4 implies match #[trigger] slots@[p] {
                Some(k) => last_request(ports@, p, i + 1) == Some(k as int),
                None => last_request(ports@, p, i + 1) is None,
            } by {
                let previous = before[p];
                if p != port {
                    assert(slots@[p] == before[p]);
                }
            }
        }
        i += 1;
    }
    Ok(slots)
}

/// How the machine boots.
#[derive(Debug)]
pub enum BootPlan {
    /// A restored machine loads nothing; its command line is the recorded one.
    Restored { cmdline: String },
    Linux { kernel_path: String, initrd_path: Option<String>, cmdline: String },
    Pvh { kernel_path: String, initrd_path: Option<String>, cmdline: String },
    Uefi {
        firmware_path: String,
        enable_serial: bool,
        uefi_console_mode: Option<UefiConsoleMode>,
        /// The variables that the firmware starts with.
        template: Option<(GuestArch, SecureBootTemplate)>,
        secure_boot_enabled: bool,
    },
}

/// A path, unless it is empty.
pub open spec fn nonempty_path(path: Seq<char>, given: Option<String>) -> bool {
    if path.len() == 0 {
        given is None
    } else {
        given is Some && given->0@ == path
    }
}

fn take_path(path: String) -> (r: Option<String>)
    ensures
        nonempty_path(path@, r),
{
    if path.as_str().is_empty() {
        None
    } else {
        Some(path)
    }
}

/// Why a machine cannot boot as it is asked to, if it cannot.
pub open spec fn boot_refusal(boot: Option<BootRequest>, microvm: bool, console: bool) -> Option<
    Seq<char>,
> {
    match boot {
        None => Some("missing boot configuration"@),
        Some(BootRequest::PvhBoot { kernel_cmdline, .. }) => {
            let args = seq![kernel_cmdline@];
            if !microvm {
                Some("pvh_boot requires the microVM profile"@)
            } else if user_args_refusal(args) is Some {
                user_args_refusal(args)
            } else if byte_len(command_line_on(console, args)) >= MICROVM_COMMAND_LINE_MAX_SIZE {
                Some("microVM kernel command line exceeds the 64-KiB ABI limit"@)
            } else {
                None
            }
        },
        Some(_) => if microvm {
            Some("the microVM profile requires pvh_boot"@)
        } else {
            None
        },
    }
}

/// The serial ports that the firmware can write to.
#[derive(Clone, Copy, Debug, PartialEq, Eq, Structural)]
pub struct SerialPresence {
    pub any: bool,
    pub com1: bool,
}

/// The plan is the one that a request describes. The firmware writes to the first
/// serial port where there is one: its default is a video device, which the
/// machine may not have.
pub open spec fn is_boot_plan(
    plan: BootPlan,
    boot: BootRequest,
    serial: SerialPresence,
    console: bool,
    arch: GuestArch,
) -> bool {
    match (boot, plan) {
        (
            BootRequest::DirectBoot { kernel_path, initrd_path, kernel_cmdline },
            BootPlan::Linux { kernel_path: k, initrd_path: i, cmdline },
        ) => k == kernel_path && nonempty_path(initrd_path@, i) && cmdline == kernel_cmdline,
        (
            BootRequest::PvhBoot { kernel_path, initrd_path, kernel_cmdline },
            BootPlan::Pvh { kernel_path: k, initrd_path: i, cmdline },
        ) => k == kernel_path && nonempty_path(initrd_path@, i) && cmdline@
            == command_line_on(console, seq![kernel_cmdline@]),
        (
            BootRequest::Uefi { firmware_path, secure_boot_enabled, secure_boot_template },
            BootPlan::Uefi {
                firmware_path: f,
                enable_serial,
                uefi_console_mode,
                template,
                secure_boot_enabled: s,
            },
        ) => {
            &&& f == firmware_path && s == secure_boot_enabled
            &&& enable_serial == serial.any
            &&& uefi_console_mode == (if serial.com1 {
                Some(UefiConsoleMode::Com1)
            } else {
                None
            })
            &&& template == (if secure_boot_template == SecureBootTemplate::Bare {
                None
            } else {
                Some((arch, secure_boot_template))
            })
        },
        _ => false,
    }
}

/// Decides how a machine that is created afresh boots. The command line of a
/// microVM names its virtio console where it has one.
pub fn plan_boot(
    boot: Option<BootRequest>,
    microvm: bool,
    serial: SerialPresence,
    console: bool,
    arch: GuestArch,
) -> (r: Result<BootPlan, Refusal>)
    ensures
        refusal_of(r) == boot_refusal(boot, microvm, console),
        r is Ok ==> boot is Some && is_boot_plan(r->Ok_0, boot->0, serial, console, arch),
{
    match boot {
        None => Err(refuse("missing boot configuration")),
        Some(BootRequest::DirectBoot { kernel_path, initrd_path, kernel_cmdline }) => {
            if microvm {
                return Err(refuse("the microVM profile requires pvh_boot"));
            }
            Ok(
                BootPlan::Linux {
                    kernel_path,
                    initrd_path: take_path(initrd_path),
                    cmdline: kernel_cmdline,
                },
            )
        },
        Some(BootRequest::PvhBoot { kernel_path, initrd_path, kernel_cmdline }) => {
            if !microvm {
                return Err(refuse("pvh_boot requires the microVM profile"));
            }
            let args: [String; 1] = [kernel_cmdline];
            proof {
                assert(string_views(args@) =~= seq![kernel_cmdline@]);
            }
            match build_console_command_line(&args, console) {
                Ok(cmdline) => Ok(
                    BootPlan::Pvh { kernel_path, initrd_path: take_path(initrd_path), cmdline },
                ),
                Err(e) => Err(e),
            }
        },
        Some(BootRequest::Uefi { firmware_path, secure_boot_enabled, secure_boot_template }) => {
            if microvm {
                return Err(refuse("the microVM profile requires pvh_boot"));
            }
            let uefi_console_mode: Option<UefiConsoleMode> = if serial.com1 {
                Some(UefiConsoleMode::Com1)
            } else {
                None
            };
            let template: Option<(GuestArch, SecureBootTemplate)> = match secure_boot_template {
                SecureBootTemplate::Bare => None,
                _ => Some((arch, secure_boot_template)),
            };
            Ok(
                BootPlan::Uefi {
                    firmware_path,
                    enable_serial: serial.any,
                    uefi_console_mode,
                    template,
                    secure_boot_enabled,
                },
            )
        },
    }
}

impl BootPlan {
    /// The chipset that goes with the plan.
    pub open spec fn chipset(self) -> BaseChipsetType {
        match self {
            BootPlan::Restored { .. } | BootPlan::Pvh { .. } => BaseChipsetType::Microvm,
            BootPlan::Linux { .. } => BaseChipsetType::HyperVGen2LinuxDirect,
            BootPlan::Uefi { .. } => BaseChipsetType::HypervGen2Uefi,
        }
    }

    pub fn chipset_type(&self) -> (r: BaseChipsetType)
        ensures
            r == self.chipset(),
    {
        match self {
            BootPlan::Restored { .. } | BootPlan::Pvh { .. } => BaseChipsetType::Microvm,
            BootPlan::Linux { .. } => BaseChipsetType::HyperVGen2LinuxDirect,
            BootPlan::Uefi { .. } => BaseChipsetType::HypervGen2Uefi,
        }
    }
}

/// The load mode is the one that a plan describes, with its files opened.
pub open spec fn is_load_mode(
    mode: LoadMode,
    plan: BootPlan,
    image: HostFile,
    initrd: Option<HostFile>,
    bios_guid: Guid,
) -> bool {
    match (plan, mode) {
        (
            BootPlan::Restored { cmdline },
            LoadMode::Pvh { kernel, initrd: i, cmdline: c },
        ) => kernel == image && i is None && c == cmdline,
        (
            BootPlan::Pvh { cmdline, .. },
            LoadMode::Pvh { kernel, initrd: i, cmdline: c },
        ) => kernel == image && i == initrd && c == cmdline,
        (
            BootPlan::Linux { cmdline, .. },
            LoadMode::Linux {
                kernel,
                initrd: i,
                cmdline: c,
                enable_serial,
                isolation,
                boot_mode,
                smbios,
            },
        ) => {
            &&& kernel == image && i == initrd && c == cmdline && enable_serial
            &&& isolation == LinuxIsolationConfig::NoIsolation
            &&& boot_mode == LinuxDirectBootMode::Acpi
            &&& is_zero_guid(smbios.system.uuid) && is_plain_smbios(smbios, smbios.system.uuid)
        },
        (
            BootPlan::Uefi { enable_serial, uefi_console_mode, .. },
            LoadMode::Uefi {
                firmware,
                enable_debugging,
                enable_memory_protections,
                disable_frontpage,
                enable_tpm,
                enable_battery,
                enable_serial: s,
                enable_vpci_boot,
                uefi_console_mode: m,
                default_boot_always_attempt,
                enable_vmbus,
                force_dma_bounce,
                enable_hv,
                hibernation_enabled,
                smbios,
            },
        ) => {
            &&& firmware == image && s == enable_serial && m == uefi_console_mode
            &&& enable_vmbus && enable_hv
            &&& !enable_debugging && !enable_memory_protections && !disable_frontpage
            &&& !enable_tpm && !enable_battery && !enable_vpci_boot
            &&& !default_boot_always_attempt && !force_dma_bounce && !hibernation_enabled
            &&& is_plain_smbios(smbios, bios_guid)
        },
        _ => false,
    }
}

/// The load mode of a machine, once its image and its initial file system are
/// open.
pub fn load_mode(plan: BootPlan, image: HostFile, initrd: Option<HostFile>, bios_guid: Guid) -> (r:
    LoadMode)
    ensures
        is_load_mode(r, plan, image, initrd, bios_guid),
{
    match plan {
        BootPlan::Restored { cmdline } => LoadMode::Pvh { kernel: image, initrd: None, cmdline },
        BootPlan::Pvh { cmdline, .. } => LoadMode::Pvh { kernel: image, initrd, cmdline },
        BootPlan::Linux { cmdline, .. } => LoadMode::Linux {
            kernel: image,
            initrd,
            cmdline,
            enable_serial: true,
            isolation: LinuxIsolationConfig::NoIsolation,
            boot_mode: LinuxDirectBootMode::Acpi,
            smbios: plain_smbios(zero_guid()),
        },
        BootPlan::Uefi { enable_serial, uefi_console_mode, .. } => LoadMode::Uefi {
            firmware: image,
            enable_debugging: false,
            // Linux fails to boot with memory protections enabled.
            enable_memory_protections: false,
            disable_frontpage: false,
            enable_tpm: false,
            enable_battery: false,
            enable_serial,
            enable_vpci_boot: false,
            uefi_console_mode,
            default_boot_always_attempt: false,
            enable_vmbus: true,
            force_dma_bounce: false,
            enable_hv: true,
            hibernation_enabled: false,
            smbios: plain_smbios(bios_guid),
        },
    }
}

/// Why the memory of a machine is refused, if it is.
pub open spec fn memory_refusal(
    restored: Option<u64>,
    numa: Option<NumaRequest>,
    memory_mb: Option<u64>,
) -> Option<Seq<char>> {
    if restored is Some {
        None
    } else {
        match (numa, memory_mb) {
            (Some(_), Some(_)) => Some(
                "memory_config and numa_config are mutually exclusive"@,
            ),
            (Some(numa), None) => if nodes_refusal(numa.nodes@) is Some {
                nodes_refusal(numa.nodes@)
            } else {
                distances_refusal(numa.distances@)
            },
            (None, None) => Some("missing memory configuration"@),
            (None, Some(mb)) => if mb * MB > u64::MAX {
                Some("invalid memory configuration"@)
            } else {
                None
            },
        }
    }
}

/// The topology and the size are the ones that are described.
pub open spec fn is_memory(
    topology: NumaTopology,
    size: u64,
    restored: Option<u64>,
    numa: Option<NumaRequest>,
    memory_mb: Option<u64>,
) -> bool {
    match restored {
        Some(recorded) => size == recorded && is_single_node(topology, recorded),
        None => match numa {
            Some(numa) => {
                &&& size == total_bytes(numa.nodes@)
                &&& topology.nodes@.len() == numa.nodes@.len()
                &&& forall|i: int|
                    0 <= i < numa.nodes@.len() ==> is_node(
                        #[trigger] topology.nodes@[i],
                        numa.nodes@[i],
                    )
                &&& topology.distances@.len() == numa.distances@.len()
                &&& forall|i: int|
                    #![trigger topology.distances@[i]]
                    0 <= i < numa.distances@.len() ==> topology.distances@[i].src
                        == numa.distances@[i].src && topology.distances@[i].dst
                        == numa.distances@[i].dst && topology.distances@[i].distance
                        == numa.distances@[i].distance
            },
            None => size == memory_mb->0 * MB && is_single_node(topology, size),
        },
    }
}

/// Decides the memory of a machine: what its snapshot records, or the requested
/// topology, or one node with the requested memory.
pub fn plan_memory(restored: Option<u64>, numa: Option<NumaRequest>, memory_mb: Option<u64>) -> (r:
    Result<(NumaTopology, u64), Refusal>)
    ensures
        refusal_of(r) == memory_refusal(restored, numa, memory_mb),
        r is Ok ==> is_memory(r->Ok_0.0, r->Ok_0.1, restored, numa, memory_mb),
{
    if let Some(size) = restored {
        return Ok((single_node_topology(size), size));
    }
    match numa {
        Some(numa) => {
            if memory_mb.is_some() {
                return Err(refuse("memory_config and numa_config are mutually exclusive"));
            }
            build_numa_topology(&numa)
        },
        None => match memory_mb {
            None => Err(refuse("missing memory configuration")),
            Some(mb) => match mb.checked_mul(MB) {
                Some(size) => Ok((single_node_topology(size), size)),
                None => Err(refuse("invalid memory configuration")),
            },
        },
    }
}

/// How many processors the machine has: what its snapshot records, or what is
/// requested, or one.
pub fn plan_processors(restored: Option<u32>, requested: Option<u32>) -> (count: u32)
    ensures
        count == (match (restored, requested) {
            (Some(n), _) => n,
            (None, Some(n)) => n,
            (None, None) => 1,
        }),
{
    match restored {
        Some(count) => count,
        None => match requested {
            Some(count) => count,
            None => 1,
        },
    }
}

/// The action that a request names.
pub open spec fn requested_action(
    requested: RequestedPowerAction,
    default: GuestPowerAction,
) -> GuestPowerAction {
    match requested {
        RequestedPowerAction::Restart => GuestPowerAction::Reset,
        RequestedPowerAction::Halt => GuestPowerAction::Halt,
        _ => default,
    }
}

fn power_action(requested: RequestedPowerAction, default: GuestPowerAction) -> (r: Result<
    GuestPowerAction,
    Refusal,
>)
    ensures
        refusal_of(r) == unknown_action(requested),
        r is Ok ==> r->Ok_0 == requested_action(requested, default),
{
    match requested {
        RequestedPowerAction::Default => Ok(default),
        RequestedPowerAction::Restart => Ok(GuestPowerAction::Reset),
        RequestedPowerAction::Halt => Ok(GuestPowerAction::Halt),
        RequestedPowerAction::Unknown(n) => {
            let mut message = "unknown guest power action ".to_owned();
            push_signed(&mut message, n);
            Err(Refusal { message })
        },
    }
}

/// Why a requested action is refused, if it is.
pub open spec fn unknown_action(requested: RequestedPowerAction) -> Option<Seq<char>> {
    match requested {
        RequestedPowerAction::Unknown(n) => Some(
            "unknown guest power action "@ + signed_decimal(n),
        ),
        _ => None,
    }
}

/// Decides what each power event does. What is not requested keeps its default.
pub fn plan_power_actions(requested: Option<RequestedPowerActions>) -> (r: Result<
    GuestPowerActions,
    Refusal,
>)
    ensures
        refusal_of(r) == (match requested {
            None => None,
            Some(q) => if unknown_action(q.shutdown) is Some {
                unknown_action(q.shutdown)
            } else if unknown_action(q.reset) is Some {
                unknown_action(q.reset)
            } else if unknown_action(q.crash) is Some {
                unknown_action(q.crash)
            } else {
                unknown_action(q.watchdog)
            },
        }),
        r is Ok ==> r->Ok_0 == (match requested {
            None => default_power_actions(),
            Some(q) => GuestPowerActions {
                shutdown: requested_action(q.shutdown, default_power_actions().shutdown),
                reset: requested_action(q.reset, default_power_actions().reset),
                crash: requested_action(q.crash, default_power_actions().crash),
                watchdog: requested_action(q.watchdog, default_power_actions().watchdog),
            },
        }),
{
    let defaults = GuestPowerActions::default();
    let requested = match requested {
        None => return Ok(defaults),
        Some(requested) => requested,
    };
    let shutdown = match power_action(requested.shutdown, defaults.shutdown) {
        Ok(action) => action,
        Err(e) => return Err(e),
    };
    let reset = match power_action(requested.reset, defaults.reset) {
        Ok(action) => action,
        Err(e) => return Err(e),
    };
    let crash = match power_action(requested.crash, defaults.crash) {
        Ok(action) => action,
        Err(e) => return Err(e),
    };
    let watchdog = match power_action(requested.watchdog, defaults.watchdog) {
        Ok(action) => action,
        Err(e) => return Err(e),
    };
    Ok(GuestPowerActions { shutdown, reset, crash, watchdog })
}

/// What a microVM port is given to seed its guest's random numbers: nothing, or
/// the packet that `restore_entropy_from_random` makes of 64 random bytes. The
/// bytes are random, so only its shape is pinned.
pub fn plan_restore_entropy(wanted: bool) -> (r: Result<Vec<u8>, Refusal>)
    ensures
        !wanted ==> r is Ok && r->Ok_0@.len() == 0,
        wanted && r is Ok ==> exists|entropy: Seq<u8>|
            entropy.len() == 64 && r->Ok_0@ == #[trigger] packet_bytes(
                entropy,
                None,
                false,
                Seq::empty(),
            ),
        r is Err ==> wanted && r->Err_0@ == "failed to generate restore entropy"@,
{
    if !wanted {
        return Ok(Vec::new());
    }
    restore_entropy_from_random(random_bytes(64))
}

/// The packet that the random source's answer makes: its 64 bytes as they are,
/// with nothing else asked for.
pub fn restore_entropy_from_random(bytes: Option<Vec<u8>>) -> (r: Result<Vec<u8>, Refusal>)
    requires
        bytes is Some ==> bytes->0@.len() == 64,
    ensures
        match bytes {
            None => refusal_of(r) == Some("failed to generate restore entropy"@),
            Some(bytes) => r is Ok && r->Ok_0@ == packet_bytes(bytes@, None, false, Seq::empty()),
        },
{
    let ranges: Vec<crate::snapshot::SnapshotMemoryExpansionRange> = Vec::new();
    assert(ranges@ =~= Seq::empty());
    match restore_packet_from_random(bytes, None, false, ranges.as_slice()) {
        Ok((_id, packet)) => Ok(packet),
        Err(e) => Err(e),
    }
}

/// What a console does with output while nobody is attached.
#[derive(Clone, Copy, Debug, PartialEq, Eq, Structural)]
pub enum ConsoleDisconnectPolicy {
    Retain,
    Discard,
}

/// A console of a microVM: where it leads, what the device is told, and what a
/// snapshot records.
#[derive(Debug)]
pub struct ConsolePlan {
    pub endpoint: SerialConfigCli,
    pub disconnect_policy: ConsoleDisconnectPolicy,
    pub resource: VirtioConsoleAttachment,
    pub snapshot: SnapshotAttachment,
}

/// The endpoint that a requested console names.
pub fn requested_console(console: &VirtioConsoleRequest) -> (r: SerialConfigCli)
    ensures
        r@ == (if console.connect {
            SerialEndpoint::ConnectPipe(console.socket_path@)
        } else {
            SerialEndpoint::Pipe(console.socket_path@)
        }),
{
    if console.connect {
        SerialConfigCli::ConnectPipe(console.socket_path.as_str().to_owned())
    } else {
        SerialConfigCli::Pipe(console.socket_path.as_str().to_owned())
    }
}

/// Why the console of a snapshot cannot be attached again, if it cannot.
pub open spec fn restored_console_refusal(
    present: bool,
    attachment: Option<Attachment>,
    restored: Result<SerialEndpoint, Seq<char>>,
    snapshot_parent: Seq<char>,
) -> Option<Seq<char>> {
    if present != (attachment is Some) {
        Some("snapshot microVM console device and attachment inventories disagree"@)
    } else if !present {
        None
    } else {
        match restored {
            Err(e) => Some(e),
            Ok(_) => namespace_refusal(attachment->0, snapshot_parent),
        }
    }
}

/// Attaches the console of a snapshot again.
pub fn restored_microvm_console(
    contract: &SnapshotMachineContract,
    requested: Option<&Result<SerialConfigCli, Refusal>>,
    resolved: &ResolvedIdentity,
    snapshot_parent: &str,
    host: HostOs,
) -> (r: Result<Option<ConsolePlan>, Refusal>)
    ensures
        ({
            let attachment = find_attachment(contract.attachments@, MICROVM_CONSOLE_STABLE_ID@);
            let restored = restored_console(
                attachment->0,
                requested_view(requested),
                path_view(resolved.path),
                endpoint_view(resolved.v6),
                host,
            );
            &&& refusal_of(r) == restored_console_refusal(
                has_device(contract.devices@, MICROVM_CONSOLE_STABLE_ID@),
                attachment,
                restored,
                snapshot_parent@,
            )
            &&& r is Ok ==> (r->Ok_0 is Some <==> attachment is Some)
            &&& r is Ok && r->Ok_0 is Some ==> {
                let plan = r->Ok_0->0;
                &&& restored == Ok::<SerialEndpoint, Seq<char>>(plan.endpoint@)
                &&& plan.resource@ == console_resource(plan.endpoint@, host)
                &&& plan.snapshot@ == attachment->0
                &&& plan.disconnect_policy == (if plan.endpoint@ is Disconnected {
                    ConsoleDisconnectPolicy::Discard
                } else {
                    ConsoleDisconnectPolicy::Retain
                })
            }
        }),
{
    let present = contract.has_device(MICROVM_CONSOLE_STABLE_ID);
    let attachment = match contract.attachment(MICROVM_CONSOLE_STABLE_ID) {
        Some(attachment) => attachment,
        None => {
            if present {
                return Err(
                    refuse("snapshot microVM console device and attachment inventories disagree"),
                );
            }
            return Ok(None);
        },
    };
    if !present {
        return Err(
            refuse("snapshot microVM console device and attachment inventories disagree"),
        );
    }
    match microvm_console_attachment_from_snapshot(attachment, requested, resolved, host) {
        Err(e) => Err(e),
        Ok((endpoint, resource, snapshot)) => {
            match validate_microvm_console_attachment_namespace(&snapshot, snapshot_parent) {
                Ok(()) => {},
                Err(e) => return Err(e),
            }
            let disconnect_policy = match &endpoint {
                SerialConfigCli::Disconnected => ConsoleDisconnectPolicy::Discard,
                _ => ConsoleDisconnectPolicy::Retain,
            };
            Ok(Some(ConsolePlan { endpoint, disconnect_policy, resource, snapshot }))
        },
    }
}

/// Decides the console of a microVM that is created afresh. A machine that can be
/// captured keeps its console socket beside the snapshot.
pub fn plan_microvm_console(
    endpoint: &SerialConfigCli,
    snapshot_parent: Option<&str>,
    host: HostOs,
) -> (r: Result<ConsolePlan, Refusal>)
    ensures
        refusal_of(r) == (if console_refusal(endpoint@, host) is Some {
            console_refusal(endpoint@, host)
        } else {
            match text_view(snapshot_parent) {
                Some(parent) => namespace_refusal(console_snapshot(endpoint@, host), parent),
                None => None,
            }
        }),
        r is Ok ==> {
            let plan = r->Ok_0;
            &&& plan.endpoint@ == endpoint@
            &&& plan.resource@ == console_resource(endpoint@, host)
            &&& plan.snapshot@ == console_snapshot(endpoint@, host)
            &&& plan.disconnect_policy == ConsoleDisconnectPolicy::Retain
        },
{
    match microvm_console_attachment_from_cli(endpoint, host) {
        Err(e) => Err(e),
        Ok((endpoint, resource, snapshot)) => {
            if let Some(parent) = snapshot_parent {
                match validate_microvm_console_attachment_namespace(&snapshot, parent) {
                    Ok(()) => {},
                    Err(e) => return Err(e),
                }
            }
            Ok(
                ConsolePlan {
                    endpoint,
                    disconnect_policy: ConsoleDisconnectPolicy::Retain,
                    resource,
                    snapshot,
                },
            )
        },
    }
}

/// Decides the block device of a microVM.
pub fn plan_virtio_blk(blk: VirtioBlkRequest, microvm: bool) -> (r: Result<
    (FileDisk, bool),
    Refusal,
>)
    ensures
        refusal_of(r) == (if !microvm {
            Some("fixed virtio-blk requires the microVM profile"@)
        } else {
            match blk.disk {
                None => Some("missing blk backend"@),
                Some(None) => Some("missing disk backend kind"@),
                Some(Some(_)) => None,
            }
        }),
        r is Ok ==> blk.disk == Some(Some(r->Ok_0.0)) && r->Ok_0.1 == blk.read_only,
{
    if !microvm {
        return Err(refuse("fixed virtio-blk requires the microVM profile"));
    }
    match blk.disk {
        None => Err(refuse("missing blk backend")),
        Some(None) => Err(refuse("missing disk backend kind")),
        Some(Some(disk)) => Ok((disk, blk.read_only)),
    }
}

/// The logical unit of a requested disk.
pub fn disk_unit(disk: &ScsiDiskRequest) -> (r: Result<u8, Refusal>)
    ensures
        refusal_of(r) == (if disk.lun > 255 {
            Some("lun value out of range"@)
        } else {
            None
        }),
        r is Ok ==> r->Ok_0 == disk.lun,
{
    if disk.lun > 255 {
        return Err(refuse("lun value out of range"));
    }
    Ok(disk.lun as u8)
}

/// The first refusal among some network devices.
pub open spec fn nics_refusal(nics: Seq<NicRequest>, host: HostOs) -> Option<Seq<char>>
    decreases nics.len(),
{
    if nics.len() == 0 {
        None
    } else if nics_refusal(nics.drop_last(), host) is Some {
        nics_refusal(nics.drop_last(), host)
    } else {
        nic_refusal(nics.last(), host)
    }
}

/// The device translates addresses in user mode.
pub open spec fn is_consomme(nic: NicRequest) -> bool {
    nic.backend matches Some(NicBackend::Consomme { .. })
}

/// The first device that translates addresses in user mode, if any does.
pub open spec fn first_consomme(nics: Seq<NicRequest>) -> Option<int>
    decreases nics.len(),
{
    if nics.len() == 0 {
        None
    } else if first_consomme(nics.drop_last()) is Some {
        first_consomme(nics.drop_last())
    } else if is_consomme(nics.last()) {
        Some(nics.len() - 1)
    } else {
        None
    }
}

/// The network devices of a machine, and the one whose ports can be changed while
/// it runs.
#[derive(Debug)]
pub struct NicPlans {
    pub nics: Vec<NicPlan>,
    pub bindable: Option<usize>,
}

proof fn lemma_nics_refusal(nics: Seq<NicRequest>, host: HostOs, k: int)
    requires
        0 <= k <= nics.len(),
        nics_refusal(nics.take(k), host) is Some,
    ensures
        nics_refusal(nics, host) == nics_refusal(nics.take(k), host),
    decreases nics.len(),
{
    if k == nics.len() {
        assert(nics.take(k) =~= nics);
    } else {
        assert(nics.drop_last().take(k) =~= nics.take(k));
        lemma_nics_refusal(nics.drop_last(), host, k);
    }
}

fn reversed(nics: Vec<NicRequest>) -> (r: Vec<NicRequest>)
    ensures
        r@.len() == nics@.len(),
        forall|k: int| 0 <= k < r@.len() ==> #[trigger] r@[k] == nics@[nics@.len() - 1 - k],
{
    let ghost all = nics@;
    let mut rest = nics;
    let mut out: Vec<NicRequest> = Vec::new();
    while rest.len() > 0
        invariant
            rest@.len() + out@.len() == all.len(),
            forall|k: int| 0 <= k < rest@.len() ==> #[trigger] rest@[k] == all[k],
            forall|k: int| 0 <= k < out@.len() ==> #[trigger] out@[k] == all[all.len() - 1 - k],
        decreases rest@.len(),
    {
        match rest.pop() {
            Some(nic) => {
                out.push(nic);
            },
            None => {},
        }
    }
    out
}

/// Decides the VMBus network devices. Only the first that translates addresses in
/// user mode is given a channel for changing its ports.
pub fn plan_nics(nics: Vec<NicRequest>, host: HostOs) -> (r: Result<NicPlans, Refusal>)
    ensures
        refusal_of(r) == nics_refusal(nics@, host),
        r is Ok ==> {
            let plans = r->Ok_0;
            &&& plans.nics@.len() == nics@.len()
            &&& forall|i: int|
                #![trigger plans.nics@[i]]
                0 <= i < nics@.len() ==> nics@[i].nic_id == Some(plans.nics@[i].instance_id)
                    && nics@[i].mac_address == Some(plans.nics@[i].mac_address) && nics@[i].backend
                    is Some && is_endpoint(plans.nics@[i].endpoint, nics@[i].backend->0)
            &&& match plans.bindable {
                Some(i) => first_consomme(nics@) == Some(i as int),
                None => first_consomme(nics@) is None,
            }
        },
{
    let ghost all = nics@;
    let mut rest = reversed(nics);
    let mut out: Vec<NicPlan> = Vec::new();
    let mut bindable: Option<usize> = None;
    while rest.len() > 0
        invariant
            all == nics@,
            rest@.len() + out@.len() == all.len(),
            forall|k: int| 0 <= k < rest@.len() ==> #[trigger] rest@[k] == all[all.len() - 1 - k],
            nics_refusal(all.take(out@.len() as int), host) is None,
            forall|i: int|
                #![trigger out@[i]]
                0 <= i < out@.len() ==> all[i].nic_id == Some(out@[i].instance_id)
                    && all[i].mac_address == Some(out@[i].mac_address) && all[i].backend is Some
                    && is_endpoint(out@[i].endpoint, all[i].backend->0),
            match bindable {
                Some(i) => first_consomme(all.take(out@.len() as int)) == Some(i as int),
                None => first_consomme(all.take(out@.len() as int)) is None,
            },
        decreases rest@.len(),
    {
        let ghost at = out@.len() as int;
        let index: usize = out.len();
        proof {
            assert(rest@[rest@.len() - 1] == all[at]);
            assert(all.take(at + 1).drop_last() =~= all.take(at));
            assert(all.take(at + 1).last() == all[at]);
        }
        match rest.pop() {
            Some(nic) => {
                let consomme = match &nic.backend {
                    Some(NicBackend::Consomme { .. }) => true,
                    _ => false,
                };
                if consomme && bindable.is_none() {
                    bindable = Some(index);
                }
                match parse_nic_config(nic, host) {
                    Ok(plan) => {
                        out.push(plan);
                    },
                    Err(e) => {
                        proof {
                            lemma_nics_refusal(all, host, at + 1);
                        }
                        return Err(e);
                    },
                }
            },
            None => {},
        }
    }
    assert(all.take(out@.len() as int) =~= all);
    Ok(NicPlans { nics: out, bindable })
}

/// Checks an exported directory of a standard machine.
pub fn check_standard_virtiofs(fs: &VirtioFsRequest) -> (r: Result<(), Refusal>)
    ensures
        refusal_of(r) == (if fs.guest_mount_target@.len() != 0 || fs.read_write {
            Some("guest_mount_target and read_write require the microVM profile"@)
        } else {
            None
        }),
{
    if !fs.guest_mount_target.as_str().is_empty() || fs.read_write {
        return Err(refuse("guest_mount_target and read_write require the microVM profile"));
    }
    Ok(())
}

/// Whether a virtio device of a machine is placed on a virtual PCI bus of its own
/// rather than in memory.
pub fn uses_vpci(microvm: bool, host: HostOs) -> (b: bool)
    ensures
        b == (!microvm && (host == HostOs::Windows || host == HostOs::Macos)),
{
    !microvm && (host == HostOs::Windows || host == HostOs::Macos)
}

/// The parts that a machine is put together from.
#[derive(Debug)]
pub struct MachineParts {
    pub machine_profile: MachineProfile,
    pub load_mode: LoadMode,
    pub root_complexes: Vec<PcieRootComplexConfig>,
    pub pcie_devices: Vec<PcieDeviceConfig>,
    pub switches: Vec<PcieSwitchConfig>,
    pub generic_initiators: Vec<PcieGenericInitiatorConfig>,
    pub numa: NumaTopology,
    pub proc_count: u32,
    pub chipset: BaseChipsetManifest,
    pub chipset_devices: Vec<ChipsetDeviceHandle>,
    pub pci_chipset_devices: Vec<ChipsetDeviceHandle>,
    pub isa_dma_controller: Option<DeviceResource>,
    pub chipset_capabilities: VmChipsetCapabilities,
    pub layout: LayoutConfig,
    pub virtio_devices: Vec<(VirtioBus, DeviceResource)>,
    pub vpci_devices: Vec<VpciDeviceConfig>,
    pub vmbus_devices: Vec<(DeviceVtl, DeviceResource)>,
    pub hvsocket_path: Option<String>,
    /// Whether the machine is restored from a snapshot.
    pub restored: bool,
}

/// The configuration holds the parts, before its devices are announced. Only a
/// standard machine has VMBus and its enlightenments.
pub open spec fn holds_parts(config: Config, parts: MachineParts) -> bool {
    let standard = parts.machine_profile == MachineProfile::Standard;
    &&& config.machine_profile == parts.machine_profile
    &&& config.load_mode == parts.load_mode
    &&& config.floppy_disks@.len() == 0 && config.ide_disks@.len() == 0
    &&& config.pcie_root_complexes == parts.root_complexes && !config.pcie_ecam_below_4gb
    &&& config.pcie_devices == parts.pcie_devices
    &&& config.pcie_switches == parts.switches
    &&& config.pcie_generic_initiators == parts.generic_initiators
    &&& config.vpci_devices == parts.vpci_devices
    &&& config.numa == parts.numa
    &&& config.processor_topology.proc_count == parts.proc_count
    &&& config.processor_topology.vps_per_socket is None
    &&& config.processor_topology.enable_smt is None
    &&& config.processor_topology.arch == (if standard {
        None
    } else {
        Some(
            ArchTopologyConfig::X86(
                X86TopologyConfig { apic_id_offset: 0, x2apic: X2ApicConfig::Auto },
            ),
        )
    })
    &&& config.hypervisor == (HypervisorConfig {
        with_hv: standard,
        with_vtl2: None,
        with_isolation: None,
        nested_virt: false,
    })
    &&& config.chipset == parts.chipset
    &&& config.vmbus is Some == standard
    &&& config.vmbus is Some ==> {
        let vmbus = config.vmbus->0;
        &&& vmbus.vsock_listener == (parts.hvsocket_path is Some)
        &&& vmbus.vsock_path == parts.hvsocket_path
        &&& vmbus.vmbus_max_version is None && !vmbus.vtl2_redirect
    }
    &&& config.vtl2_vmbus is None
    &&& config.kernel_vmnics@.len() == 0 && config.vpci_resources@.len() == 0
    &&& !config.framebuffer && !config.vga_firmware && !config.vtl2_gfx
    &&& config.virtio_devices == parts.virtio_devices
    &&& config.vmgs is None && !config.firmware_event_send && !config.debugger_rpc
    &&& config.vmbus_devices == parts.vmbus_devices
    &&& config.chipset_devices == parts.chipset_devices
    &&& config.pci_chipset_devices == parts.pci_chipset_devices
    &&& config.isa_dma_controller == parts.isa_dma_controller
    &&& config.chipset_capabilities == parts.chipset_capabilities
    &&& config.layout == parts.layout
    &&& config.rtc_delta_milliseconds == 0
    &&& config.microvm_network is None
}

fn put_together(parts: MachineParts) -> (config: Config)
    ensures
        holds_parts(config, parts),
{
    let standard = parts.machine_profile == MachineProfile::Standard;
    let vmbus: Option<VmbusConfig> = if standard {
        Some(
            VmbusConfig {
                vsock_listener: parts.hvsocket_path.is_some(),
                vsock_path: parts.hvsocket_path,
                vmbus_max_version: None,
                vtl2_redirect: false,
            },
        )
    } else {
        None
    };
    let arch: Option<ArchTopologyConfig> = if standard {
        None
    } else {
        Some(ArchTopologyConfig::X86(X86TopologyConfig::default()))
    };
    Config {
        load_mode: parts.load_mode,
        floppy_disks: Vec::new(),
        ide_disks: Vec::new(),
        pcie_root_complexes: parts.root_complexes,
        pcie_ecam_below_4gb: false,
        pcie_devices: parts.pcie_devices,
        pcie_switches: parts.switches,
        pcie_generic_initiators: parts.generic_initiators,
        vpci_devices: parts.vpci_devices,
        numa: parts.numa,
        processor_topology: ProcessorTopologyConfig {
            proc_count: parts.proc_count,
            vps_per_socket: None,
            enable_smt: None,
            arch,
        },
        hypervisor: HypervisorConfig {
            with_hv: standard,
            with_vtl2: None,
            with_isolation: None,
            nested_virt: false,
        },
        chipset: parts.chipset,
        vmbus,
        vtl2_vmbus: None,
        kernel_vmnics: Vec::new(),
        framebuffer: false,
        vga_firmware: false,
        vtl2_gfx: false,
        virtio_devices: parts.virtio_devices,
        vpci_resources: Vec::new(),
        vmgs: None,
        firmware_event_send: false,
        debugger_rpc: false,
        vmbus_devices: parts.vmbus_devices,
        chipset_devices: parts.chipset_devices,
        pci_chipset_devices: parts.pci_chipset_devices,
        isa_dma_controller: parts.isa_dma_controller,
        chipset_capabilities: parts.chipset_capabilities,
        layout: parts.layout,
        rtc_delta_milliseconds: 0,
        machine_profile: parts.machine_profile,
        microvm_network: None,
    }
}

/// A fresh microVM tells its kernel of its devices; any other machine is left as
/// it is.
pub open spec fn announces_devices(parts: MachineParts) -> bool {
    parts.machine_profile == MachineProfile::Microvm && !parts.restored
}

/// The configuration is the parts, with their devices announced where they are.
pub open spec fn is_created(config: Config, parts: MachineParts, host: HostOs) -> bool {
    let plain = Config { load_mode: parts.load_mode, ..config };
    &&& holds_parts(plain, parts)
    &&& if announces_devices(parts) {
        let ids = device_ids(parts.virtio_devices@);
        same_pvh_with(
            parts.load_mode,
            config.load_mode,
            discovered(
                pvh_command_line(parts.load_mode)->0,
                discovery_tokens(ids, None, host),
            ),
        )
    } else {
        config.load_mode == parts.load_mode
    }
}

/// Why the devices of a fresh microVM cannot be announced, if they cannot.
pub open spec fn announcement_refusal(parts: MachineParts, host: HostOs) -> Option<Seq<char>> {
    let ids = device_ids(parts.virtio_devices@);
    if !announces_devices(parts) {
        None
    } else {
        match pvh_command_line(parts.load_mode) {
            None => Some("microVM discovery requires PVH load mode"@),
            Some(line) => if slot_refusal(ids, None, host) is Some {
                slot_refusal(ids, None, host)
            } else if byte_len(discovered(line, discovery_tokens(ids, None, host)))
                >= MICROVM_COMMAND_LINE_MAX_SIZE {
                Some("microVM command line exceeds the 64-KiB limit"@)
            } else {
                None
            },
        }
    }
}

/// Puts a machine together and holds it to its machine contract.
///
/// The parts are refused where their devices cannot be announced, where a microVM
/// is given a socket relay, and where the whole breaks the machine contract.
pub fn create_config(parts: MachineParts, host: HostOs) -> (r: Result<Config, Refusal>)
    ensures
        match r {
            Ok(config) => {
                &&& announcement_refusal(parts, host) is None
                &&& parts.machine_profile == MachineProfile::Microvm ==> parts.hvsocket_path
                    is None
                &&& is_created(config, parts, host)
                &&& machine_refusal(config, None, host) is None
            },
            Err(e) => if announcement_refusal(parts, host) is Some {
                announcement_refusal(parts, host) == Some(e@)
            } else if parts.machine_profile == MachineProfile::Microvm && parts.hvsocket_path
                is Some {
                e@ == "microVM ABI version 1 does not support hvsocket"@
            } else {
                exists|config: Config|
                    #![trigger machine_refusal(config, None, host)]
                    is_created(config, parts, host) && machine_refusal(config, None, host) == Some(
                        e@,
                    )
            },
        },
{
    let announce = parts.machine_profile == MachineProfile::Microvm && !parts.restored;
    let relayed = parts.machine_profile == MachineProfile::Microvm
        && parts.hvsocket_path.is_some();
    let mut config = put_together(parts);
    let ghost plain = config;
    if announce {
        match append_microvm_device_discovery(&mut config, None, host) {
            Ok(()) => {},
            Err(e) => return Err(e),
        }
    }
    if relayed {
        return Err(refuse("microVM ABI version 1 does not support hvsocket"));
    }
    assert((Config { load_mode: parts.load_mode, ..config }) == plain);
    match validate_machine_config(&config, None, host) {
        Ok(()) => Ok(config),
        Err(e) => {
            assert(machine_refusal(config, None, host) == Some(e@));
            Err(e)
        },
    }
}

/// The parts of a machine decide whether it is accepted, and if not, why: any two
/// configurations that hold them are answered alike.
pub proof fn law_parts_decide_acceptance(
    first: Config,
    second: Config,
    parts: MachineParts,
    host: HostOs,
)
    requires
        is_created(first, parts, host),
        is_created(second, parts, host),
    ensures
        machine_refusal(first, None, host) == machine_refusal(second, None, host),
        pvh_command_line(first.load_mode) == pvh_command_line(second.load_mode),
{
}

/// What the host knows of the place that a snapshot is to be written to.
#[derive(Debug)]
pub struct DestinationFacts {
    /// Whether the parent directory is one, or why that could not be told.
    pub parent_is_dir: Result<bool, Refusal>,
    /// Nothing is there yet.
    pub free: bool,
}

/// Checks the place that a snapshot is to be written to.
pub fn check_snapshot_destination(destination: &str, parent: &str, facts: &DestinationFacts) -> (r:
    Result<(), Refusal>)
    ensures
        refusal_of(r) == (match facts.parent_is_dir {
            Err(_) => Some("failed to inspect snapshot parent "@ + parent@),
            Ok(false) => Some("snapshot parent is not a directory: "@ + parent@),
            Ok(true) => if facts.free {
                None
            } else {
                Some(
                    "snapshot destination already exists or cannot be inspected: "@
                        + destination@,
                )
            },
        }),
{
    match facts.parent_is_dir {
        Err(_) => return Err(refuse_naming("failed to inspect snapshot parent ", parent)),
        Ok(false) => return Err(
            refuse_naming("snapshot parent is not a directory: ", parent),
        ),
        Ok(true) => {},
    }
    if !facts.free {
        return Err(
            refuse_naming(
                "snapshot destination already exists or cannot be inspected: ",
                destination,
            ),
        );
    }
    Ok(())
}

} // verus!
