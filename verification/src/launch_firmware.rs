//! The firmware of a launched machine and the devices that go with it.

use vstd::prelude::*;

use crate::chipset::IgvmPersonality;
use crate::config::{
    default_pcat_boot_order, ChipsetDeviceHandle, DeviceResource, GuestArch, Guid,
    PcatBootDevice, SmbiosConfig, UefiConsoleMode, VmgsResource,
};
use crate::console::{SerialConfigCli, SerialEndpoint};
use crate::create_request::SecureBootTemplate;
use crate::entropy::random_bytes;
use crate::filesystem::{
    microvm_filesystem_slot_from_snapshot, slot_refusal, MICROVM_FILESYSTEM_STABLE_ID,
};
use crate::launch::needs_framebuffer;
use crate::launch_boot::uses_uefi_device;
use crate::microvm::MICROVM_CONSOLE_RECONNECT_TIMEOUT_MS;
use crate::refusal::{refusal_of, string_view, Refusal};
use crate::restore::{
    generation_id_from_random, packet_bytes, packet_refusal, restore_packet_from_random,
};
use crate::snapshot::{has_device, SnapshotMachineContract, SnapshotMemoryExpansionRange};
use crate::text::push_text;

verus! {

/// How much the firmware logs.
#[derive(Clone, Copy, Debug, PartialEq, Eq, Structural)]
pub enum FirmwareLogLevel {
    Default,
    Info,
    Full,
}

/// The version of a trusted platform module.
#[derive(Clone, Copy, Debug, PartialEq, Eq, Structural)]
pub enum TpmVersion {
    V138,
    V185,
}

/// How a trusted platform module is reached.
#[derive(Clone, Copy, Debug, PartialEq, Eq, Structural)]
pub enum TpmRegisterLayout {
    IoPort,
    Mmio,
}

/// A trusted platform module of a machine.
#[derive(Clone, Copy, Debug)]
pub struct TpmPlan {
    pub version: TpmVersion,
    /// The identifier of the machine, which its keys are bound to.
    pub bios_guid: Guid,
    /// Whether its state is kept in the guest state file.
    pub persistent: bool,
    pub register_layout: TpmRegisterLayout,
}

/// Plans the trusted platform module of a machine. Where there is a paravisor,
/// the paravisor has it instead.
pub fn plan_tpm(
    tpm: Option<TpmVersion>,
    vtl2: bool,
    vmgs: bool,
    arch: GuestArch,
    bios_guid: Guid,
) -> (r: Option<TpmPlan>)
    ensures
        r == (if tpm is Some && !vtl2 {
            Some(
                TpmPlan {
                    version: tpm->0,
                    bios_guid,
                    persistent: vmgs,
                    register_layout: if arch == GuestArch::X86_64 {
                        TpmRegisterLayout::IoPort
                    } else {
                        TpmRegisterLayout::Mmio
                    },
                },
            )
        } else {
            None
        }),
{
    match tpm {
        Some(version) => {
            if vtl2 {
                return None;
            }
            let register_layout = if arch == GuestArch::X86_64 {
                TpmRegisterLayout::IoPort
            } else {
                TpmRegisterLayout::Mmio
            };
            Some(TpmPlan { version, bios_guid, persistent: vmgs, register_layout })
        },
        None => None,
    }
}

/// The options that decide the devices around the firmware.
#[derive(Clone, Copy, Debug)]
pub struct FirmwareOptions {
    pub arch: GuestArch,
    pub gfx: bool,
    pub vtl2_gfx: bool,
    pub vnc: bool,
    pub pcat: bool,
    pub pcat_boot_order: Option<[PcatBootDevice; 4]>,
    pub uefi: bool,
    pub igvm: bool,
    pub igvm_personality: Option<IgvmPersonality>,
    pub guest_watchdog: bool,
    /// Which of the four serial ports are connected.
    pub serial: [bool; 4],
    /// Which of the four serial ports are for a debugger.
    pub serial_debugger: [bool; 4],
    pub battery: bool,
    pub no_vmbus: bool,
    /// The port of the debug console, and whether it is connected.
    pub debugcon: Option<(u16, bool)>,
    pub secure_boot: bool,
    pub secure_boot_template: SecureBootTemplate,
    /// Whether a file adds variables to the firmware.
    pub custom_variables: bool,
    pub log_level: Option<FirmwareLogLevel>,
    /// Whether there is a guest state file.
    pub vmgs: bool,
    pub uefi_debug: bool,
    pub disable_frontpage: bool,
    pub uefi_console_mode: Option<UefiConsoleMode>,
    pub default_boot_always_attempt: bool,
    pub force_dma_bounce: bool,
    pub vmbus_redirect: bool,
    pub serial_tx_only: bool,
    pub vmbus_serial1: bool,
    pub vmbus_serial2: bool,
    pub tpm: Option<TpmVersion>,
    pub hibernation: bool,
    pub test_gsp_by_id: bool,
}

/// The device that keeps the firmware's variables.
#[derive(Clone, Copy, Debug)]
pub struct VariableStore {
    /// The variables that it starts with.
    pub template: Option<(GuestArch, SecureBootTemplate)>,
    pub custom_variables: bool,
    pub secure_boot: bool,
    pub log_level: FirmwareLogLevel,
    /// Whether the variables are kept in the guest state file.
    pub persistent: bool,
}

/// What is added to the base chipset of a machine.
#[derive(Debug)]
pub struct ChipsetFeatures {
    pub framebuffer: bool,
    pub guest_watchdog: bool,
    /// The connected serial ports, where there is any.
    pub serial: Option<[bool; 4]>,
    pub serial_debugger: [bool; 4],
    pub battery: bool,
    pub without_vmbus: bool,
    pub debugcon: Option<(u16, bool)>,
    pub variables: Option<VariableStore>,
}

/// The template of the firmware's variables, where there is one.
pub open spec fn template_of(opt: FirmwareOptions) -> Option<(GuestArch, SecureBootTemplate)> {
    if opt.secure_boot_template == SecureBootTemplate::Bare {
        None
    } else {
        Some((opt.arch, opt.secure_boot_template))
    }
}

/// How much the firmware logs by these options.
pub open spec fn log_level_of(opt: FirmwareOptions) -> FirmwareLogLevel {
    match opt.log_level {
        Some(level) => level,
        None => FirmwareLogLevel::Default,
    }
}

fn log_level(opt: &FirmwareOptions) -> (r: FirmwareLogLevel)
    ensures
        r == log_level_of(*opt),
{
    match opt.log_level {
        Some(level) => level,
        None => FirmwareLogLevel::Default,
    }
}

/// The store of the firmware's variables, where the machine has one.
pub open spec fn variables_of(opt: FirmwareOptions) -> Option<VariableStore> {
    if opt.uefi && !opt.igvm && !opt.pcat || opt.igvm_personality == Some(IgvmPersonality::Uefi) {
        Some(
            VariableStore {
                template: template_of(opt),
                custom_variables: opt.custom_variables,
                secure_boot: opt.secure_boot,
                log_level: log_level_of(opt),
                persistent: opt.vmgs,
            },
        )
    } else {
        None
    }
}

/// Selects what is added to the base chipset of a machine.
pub fn chipset_features(opt: &FirmwareOptions) -> (r: ChipsetFeatures)
    ensures
        r.framebuffer == (opt.gfx || opt.vtl2_gfx || opt.vnc || opt.pcat),
        r.guest_watchdog == opt.guest_watchdog,
        r.serial == (if opt.serial[0] || opt.serial[1] || opt.serial[2] || opt.serial[3] {
            Some(opt.serial)
        } else {
            None
        }),
        r.serial_debugger == opt.serial_debugger,
        r.battery == opt.battery,
        r.without_vmbus == opt.no_vmbus,
        r.debugcon == opt.debugcon,
        r.variables == variables_of(*opt),
{
    let variables: Option<VariableStore> = if uses_uefi_device(
        opt.uefi,
        opt.igvm,
        opt.pcat,
        opt.igvm_personality,
    ) {
        let template: Option<(GuestArch, SecureBootTemplate)> = match opt.secure_boot_template {
            SecureBootTemplate::Bare => None,
            template => Some((opt.arch, template)),
        };
        Some(
            VariableStore {
                template,
                custom_variables: opt.custom_variables,
                secure_boot: opt.secure_boot,
                log_level: log_level(opt),
                persistent: opt.vmgs,
            },
        )
    } else {
        None
    };
    let serial: Option<[bool; 4]> = if opt.serial[0] || opt.serial[1] || opt.serial[2]
        || opt.serial[3] {
        Some(opt.serial)
    } else {
        None
    };
    ChipsetFeatures {
        framebuffer: needs_framebuffer(opt.gfx, opt.vtl2_gfx, opt.vnc, opt.pcat),
        guest_watchdog: opt.guest_watchdog,
        serial,
        serial_debugger: opt.serial_debugger,
        battery: opt.battery,
        without_vmbus: opt.no_vmbus,
        debugcon: opt.debugcon,
        variables,
    }
}

/// The firmware that a guest emulation device tells the paravisor of.
#[derive(Clone, Copy, Debug)]
pub enum GuestFirmware {
    Pcat { boot_order: [PcatBootDevice; 4] },
    Uefi {
        enable_vpci_boot: bool,
        firmware_debug: bool,
        disable_frontpage: bool,
        console_mode: UefiConsoleMode,
        default_boot_always_attempt: bool,
    },
}

/// What a guest emulation device tells the paravisor.
#[derive(Debug)]
pub struct GuestEmulationPlan {
    pub firmware: GuestFirmware,
    pub com1: bool,
    pub com2: bool,
    pub serial_tx_only: bool,
    pub vmbus_redirection: bool,
    pub vmgs: Option<VmgsResource>,
    pub framebuffer: bool,
    pub tpm: Option<TpmVersion>,
    pub secure_boot: bool,
    pub secure_boot_template: SecureBootTemplate,
    pub battery: bool,
    pub hibernation: bool,
    pub no_persistent_secrets: bool,
    pub test_gsp_by_id: bool,
    pub log_level: FirmwareLogLevel,
    pub force_dma_bounce: bool,
    /// The identity that the options describe.
    pub smbios: SmbiosConfig,
}

/// The firmware is the one that options describe. The guest can boot from an NVMe
/// disk where it has one.
pub open spec fn is_guest_firmware(
    firmware: GuestFirmware,
    opt: FirmwareOptions,
    has_nvme: bool,
) -> bool {
    if opt.pcat {
        firmware matches GuestFirmware::Pcat { boot_order } && match opt.pcat_boot_order {
            Some(order) => boot_order == order,
            None => boot_order@ == seq![
                PcatBootDevice::Optical,
                PcatBootDevice::HardDrive,
                PcatBootDevice::Network,
                PcatBootDevice::Floppy,
            ],
        }
    } else {
        firmware == GuestFirmware::Uefi {
            enable_vpci_boot: has_nvme,
            firmware_debug: opt.uefi_debug,
            disable_frontpage: opt.disable_frontpage,
            console_mode: match opt.uefi_console_mode {
                Some(mode) => mode,
                None => UefiConsoleMode::Default,
            },
            default_boot_always_attempt: opt.default_boot_always_attempt,
        }
    }
}

/// Plans what the guest emulation device tells the paravisor. It takes over the
/// guest state.
pub fn guest_emulation(
    opt: &FirmwareOptions,
    vmgs: Option<VmgsResource>,
    has_nvme: bool,
    smbios: SmbiosConfig,
) -> (r: GuestEmulationPlan)
    ensures
        is_guest_firmware(r.firmware, *opt, has_nvme),
        r.com1 == opt.vmbus_serial1 && r.com2 == opt.vmbus_serial2,
        r.serial_tx_only == opt.serial_tx_only,
        r.vmbus_redirection == opt.vmbus_redirect,
        r.vmgs == vmgs,
        r.framebuffer == opt.vtl2_gfx,
        r.tpm == opt.tpm,
        r.secure_boot == opt.secure_boot && r.secure_boot_template == opt.secure_boot_template,
        r.battery == opt.battery && r.hibernation == opt.hibernation,
        r.no_persistent_secrets,
        r.test_gsp_by_id == opt.test_gsp_by_id,
        r.log_level == log_level_of(*opt),
        r.force_dma_bounce == opt.force_dma_bounce,
        r.smbios == smbios,
{
    let firmware = if opt.pcat {
        let boot_order: [PcatBootDevice; 4] = match opt.pcat_boot_order {
            Some(order) => order,
            None => default_pcat_boot_order(),
        };
        GuestFirmware::Pcat { boot_order }
    } else {
        let console_mode = match opt.uefi_console_mode {
            Some(mode) => mode,
            None => UefiConsoleMode::Default,
        };
        GuestFirmware::Uefi {
            enable_vpci_boot: has_nvme,
            firmware_debug: opt.uefi_debug,
            disable_frontpage: opt.disable_frontpage,
            console_mode,
            default_boot_always_attempt: opt.default_boot_always_attempt,
        }
    };
    GuestEmulationPlan {
        firmware,
        com1: opt.vmbus_serial1,
        com2: opt.vmbus_serial2,
        serial_tx_only: opt.serial_tx_only,
        vmbus_redirection: opt.vmbus_redirect,
        vmgs,
        framebuffer: opt.vtl2_gfx,
        tpm: opt.tpm,
        secure_boot: opt.secure_boot,
        secure_boot_template: opt.secure_boot_template,
        battery: opt.battery,
        hibernation: opt.hibernation,
        no_persistent_secrets: true,
        test_gsp_by_id: opt.test_gsp_by_id,
        log_level: log_level(opt),
        force_dma_bounce: opt.force_dma_bounce,
        smbios,
    }
}

/// The device names that a microVM adds to its chipset.
pub open spec fn microvm_port_names() -> Seq<Seq<char>> {
    seq!["microvm-portb"@, "microvm-shutdown"@, "microvm-snapshot-request"@]
}

/// The devices carry some names, each for its name and its kind.
pub open spec fn named_alike(devices: Seq<ChipsetDeviceHandle>, names: Seq<Seq<char>>) -> bool {
    &&& devices.len() == names.len()
    &&& forall|i: int|
        0 <= i < names.len() ==> (#[trigger] devices[i]).name@ == names[i]
            && devices[i].resource.id@ == names[i]
}

fn named_device(name: &str) -> (r: ChipsetDeviceHandle)
    ensures
        r.name@ == name@ && r.resource.id@ == name@,
{
    ChipsetDeviceHandle {
        name: name.to_owned(),
        resource: DeviceResource { id: name.to_owned() },
    }
}

/// Adds the ports of a microVM to its chipset.
pub fn add_microvm_ports(devices: &mut Vec<ChipsetDeviceHandle>)
    ensures
        final(devices)@.len() == old(devices)@.len() + 3,
        final(devices)@.take(old(devices)@.len() as int) == old(devices)@,
        named_alike(
            final(devices)@.skip(old(devices)@.len() as int),
            microvm_port_names(),
        ),
{
    let ghost before = devices@;
    devices.push(named_device("microvm-portb"));
    devices.push(named_device("microvm-shutdown"));
    devices.push(named_device("microvm-snapshot-request"));
    assert(devices@.take(before.len() as int) =~= before);
}

/// The identity that a microVM's port shows its guest: a generation identifier,
/// and where asked the packet with the entropy that it comes from, as
/// `port_identity_from_random` makes them. Both are random, so only their shape and
/// agreement are pinned.
pub fn port_identity(
    entropy: bool,
    memory_target: bool,
    processors: Option<u32>,
    ranges: &[SnapshotMemoryExpansionRange],
) -> (r: Result<([u8; 16], Vec<u8>), Refusal>)
    ensures
        match r {
            Ok((id, packet)) => if entropy || memory_target {
                &&& packet_refusal(processors, memory_target, ranges@) is None
                &&& exists|bytes: Seq<u8>|
                    bytes.len() == 64 && id@ == bytes.take(16) && packet@
                        == #[trigger] packet_bytes(bytes, processors, memory_target, ranges@)
            } else {
                packet@.len() == 0
            },
            Err(e) => if entropy || memory_target {
                e@ == "failed to generate restore entropy"@ || packet_refusal(
                    processors,
                    memory_target,
                    ranges@,
                ) == Some(e@)
            } else {
                e@ == "failed to generate microVM generation ID"@
            },
        },
{
    let len: usize = if entropy || memory_target {
        64
    } else {
        16
    };
    port_identity_from_random(entropy, memory_target, processors, ranges, random_bytes(len))
}

/// The identity that the random source's answer makes: with entropy or a memory
/// target the packet with its 64 bytes, else its sixteen bytes alone.
pub fn port_identity_from_random(
    entropy: bool,
    memory_target: bool,
    processors: Option<u32>,
    ranges: &[SnapshotMemoryExpansionRange],
    bytes: Option<Vec<u8>>,
) -> (r: Result<([u8; 16], Vec<u8>), Refusal>)
    requires
        bytes is Some ==> bytes->0@.len() == (if entropy || memory_target {
            64nat
        } else {
            16nat
        }),
    ensures
        refusal_of(r) == (match bytes {
            Some(_) => if entropy || memory_target {
                packet_refusal(processors, memory_target, ranges@)
            } else {
                None
            },
            None => if entropy || memory_target {
                Some("failed to generate restore entropy"@)
            } else {
                Some("failed to generate microVM generation ID"@)
            },
        }),
        r is Ok ==> bytes is Some && r->Ok_0.0@ == bytes->0@.take(16) && r->Ok_0.1@ == (
        if entropy || memory_target {
            packet_bytes(bytes->0@, processors, memory_target, ranges@)
        } else {
            Seq::empty()
        }),
{
    let ghost drawn = bytes;
    if entropy || memory_target {
        restore_packet_from_random(bytes, processors, memory_target, ranges)
    } else {
        match generation_id_from_random(bytes) {
            Ok(id) => {
                assert(drawn->0@.take(16) =~= drawn->0@);
                let packet: Vec<u8> = Vec::new();
                assert(packet@ =~= Seq::empty());
                Ok((id, packet))
            },
            Err(e) => Err(e),
        }
    }
}

/// Whether a microVM has the slot of an exported directory: a new one always has,
/// a restored one where its snapshot says so.
pub fn microvm_filesystem_slot(microvm: bool, contract: Option<&SnapshotMachineContract>) -> (r:
    Result<bool, Refusal>)
    ensures
        refusal_of(r) == (if microvm && contract is Some {
            slot_refusal(*contract->0)
        } else {
            None
        }),
        r is Ok ==> r->Ok_0 == (microvm && (contract is Some ==> has_device(
            contract->0.devices@,
            MICROVM_FILESYSTEM_STABLE_ID@,
        ))),
{
    if !microvm {
        return Ok(false);
    }
    match contract {
        Some(contract) => microvm_filesystem_slot_from_snapshot(contract),
        None => Ok(true),
    }
}

/// What is opened for a serial device.
#[derive(Debug)]
pub enum SerialOpening {
    /// Nothing: the device is left out.
    Nothing,
    /// A backend that is never connected.
    Disconnected,
    Terminal,
    /// A window with a title, shown by a program where one is named.
    Window { app: Option<String>, title: String },
    Diagnostics,
    CreateFile(String),
    /// A listener; where asked, a socket that is in the way is removed first, and
    /// where asked the listener is removed when the machine ends.
    Listen { path: String, clear: bool, remove: bool },
    ListenTcp(crate::net::SocketAddress),
    Connect { path: String, timeout_ms: u64 },
    ConnectTcp { address: crate::net::SocketAddress, timeout_ms: u64 },
}

/// A serial device of a machine.
#[derive(Clone, Copy, Debug)]
pub enum SerialDevice {
    MicrovmPort,
    Com1,
    Com2,
    Com3,
    Com4,
    VmbusCom1,
    VmbusCom2,
    Debugcon,
    VirtioConsole,
}

impl SerialDevice {
    /// The name of the device.
    pub open spec fn text(self) -> Seq<char> {
        match self {
            SerialDevice::MicrovmPort => "microvm-portb"@,
            SerialDevice::Com1 => "com1"@,
            SerialDevice::Com2 => "com2"@,
            SerialDevice::Com3 => "com3"@,
            SerialDevice::Com4 => "com4"@,
            SerialDevice::VmbusCom1 => "vmbus_com1"@,
            SerialDevice::VmbusCom2 => "vmbus_com2"@,
            SerialDevice::Debugcon => "debugcon"@,
            SerialDevice::VirtioConsole => "virtio-console"@,
        }
    }

    pub fn name(self) -> (s: &'static str)
        ensures
            s@ == self.text(),
    {
        match self {
            SerialDevice::MicrovmPort => "microvm-portb",
            SerialDevice::Com1 => "com1",
            SerialDevice::Com2 => "com2",
            SerialDevice::Com3 => "com3",
            SerialDevice::Com4 => "com4",
            SerialDevice::VmbusCom1 => "vmbus_com1",
            SerialDevice::VmbusCom2 => "vmbus_com2",
            SerialDevice::Debugcon => "debugcon",
            SerialDevice::VirtioConsole => "virtio-console",
        }
    }
}

/// An ASCII letter in upper case.
pub open spec fn upper_ascii(c: char) -> char {
    if 'a' <= c <= 'z' {
        (c as nat - 'a' as nat + 'A' as nat) as char
    } else {
        c
    }
}

/// The title of a window that was asked for without one.
pub open spec fn default_window_title(name: Seq<char>) -> Seq<char> {
    name.map_values(|c: char| upper_ascii(c)) + " [OpenVMM]"@
}

fn make_window_title(name: &str) -> (title: String)
    ensures
        title@ == default_window_title(name@),
{
    let ghost upper = name@.map_values(|c: char| upper_ascii(c));
    let mut title = String::new();
    for c in it: name.chars()
        invariant
            it.seq() == name@,
            upper == name@.map_values(|c: char| upper_ascii(c)),
            title@ == upper.take(it.index() as int),
    {
        let shown: char = if 'a' <= c && c <= 'z' {
            ((c as u8) - 97u8 + 65u8) as char
        } else {
            c
        };
        title.push(shown);
        assert(shown == upper[it.index() as int]);
        assert(title@ =~= upper.take(it.index() + 1));
    }
    assert(upper.take(upper.len() as int) =~= upper);
    push_text(&mut title, " [OpenVMM]");
    title
}

/// The opening is the one that an endpoint asks for. The console of a microVM
/// never displaces a socket, removes its own, and is there even while nothing is
/// connected. A window shows the name of the device where it has no title.
pub open spec fn opens(
    opening: SerialOpening,
    endpoint: SerialEndpoint,
    console: bool,
    name: Seq<char>,
) -> bool {
    match endpoint {
        SerialEndpoint::Disconnected => if console {
            opening is Disconnected
        } else {
            opening is Nothing
        },
        SerialEndpoint::Console => opening is Terminal,
        SerialEndpoint::NewConsole(app, title) => opening matches SerialOpening::Window {
            app: a,
            title: t,
        } && string_view(a) == app && t@ == (match title {
            Some(title) => title,
            None => default_window_title(name),
        }),
        SerialEndpoint::Stderr => opening is Diagnostics,
        SerialEndpoint::File(path) => opening matches SerialOpening::CreateFile(p) && p@ == path,
        SerialEndpoint::Pipe(path) => opening matches SerialOpening::Listen { path: p, clear, remove }
            && p@ == path && clear == !console && remove == console,
        SerialEndpoint::Tcp(address) => opening matches SerialOpening::ListenTcp(a) && a@
            == address,
        SerialEndpoint::ConnectPipe(path) => opening matches SerialOpening::Connect {
            path: p,
            timeout_ms,
        } && p@ == path && timeout_ms == MICROVM_CONSOLE_RECONNECT_TIMEOUT_MS,
        SerialEndpoint::ConnectTcp(address) => opening matches SerialOpening::ConnectTcp {
            address: a,
            timeout_ms,
        } && a@ == address && timeout_ms == MICROVM_CONSOLE_RECONNECT_TIMEOUT_MS,
    }
}

/// Decides what is opened for a serial device.
pub fn serial_opening(config: SerialConfigCli, console: bool, device: SerialDevice) -> (r:
    SerialOpening)
    ensures
        opens(r, config@, console, device.text()),
{
    let timeout_ms: u64 = MICROVM_CONSOLE_RECONNECT_TIMEOUT_MS;
    match config {
        SerialConfigCli::Disconnected => if console {
            SerialOpening::Disconnected
        } else {
            SerialOpening::Nothing
        },
        SerialConfigCli::Console => SerialOpening::Terminal,
        SerialConfigCli::NewConsole(app, title) => {
            let title = match title {
                Some(title) => title,
                None => make_window_title(device.name()),
            };
            SerialOpening::Window { app, title }
        },
        SerialConfigCli::Stderr => SerialOpening::Diagnostics,
        SerialConfigCli::File(path) => SerialOpening::CreateFile(path),
        SerialConfigCli::Pipe(path) => SerialOpening::Listen {
            path,
            clear: !console,
            remove: console,
        },
        SerialConfigCli::Tcp(address) => SerialOpening::ListenTcp(address),
        SerialConfigCli::ConnectPipe(path) => SerialOpening::Connect { path, timeout_ms },
        SerialConfigCli::ConnectTcp(address) => SerialOpening::ConnectTcp { address, timeout_ms },
    }
}

} // verus!
