//! A machine from the command line, planned from its options and from what the
//! front of the launch decided.

use vstd::prelude::*;

use crate::chipset::{
    base_chipset_type, chipset_of, BaseChipsetType, ChipsetOptions, IgvmPersonality,
    IsolationRequest,
};
use crate::config::{
    DeviceVtl, GuestArch, Guid, HostFile, HostOs, IsolationType, LoadMode, MachineProfile,
    PcatBootDevice, SerialInformation, SmbiosConfig, UefiConsoleMode, VirtioBus, VmgsResource,
    Vtl2BaseAddressType,
};
use crate::create_request::SecureBootTemplate;
use crate::launch::{isolation_refusal, select_isolation, VirtioBusOption};
use crate::launch_boot::{
    guest_state_of, is_launch_mode, launch_boot_refusal, launch_with_hv, select_load_mode, select_vmgs,
    BootOptions, ProvisionVmgs, UefiOptions,
};
use crate::launch_config::isolation_of;
use crate::launch_devices::{
    on_buses, on_ports, on_vpci, place_devices, port_views, virtio_requests, virtio_slots,
    vmbus_devices, vmbus_list, NicOffer, VirtioKind, VirtioOptions, VirtioPlacement,
    VmbusDeviceOptions, VmbusKind,
};
use crate::launch_firmware::{
    chipset_features, guest_emulation, is_guest_firmware, log_level_of, plan_tpm, variables_of,
    ChipsetFeatures, FirmwareLogLevel, FirmwareOptions, GuestEmulationPlan, TpmPlan,
    TpmRegisterLayout, TpmVersion,
};
use crate::launch_front::LaunchFront;
use crate::launch_lists::{
    pcie_device_list, pcie_list, pcie_views, vpci_device_list, vpci_list, PcieKind, PciePorts,
    VpciKind,
};
use crate::launch_serial::holder_view;
use crate::refusal::{refusal_of, string_view, Refusal};
use crate::smbios::copy_smbios;

verus! {

/// The virtio devices that options list, but for those of a microVM.
#[derive(Debug)]
pub struct VirtioLists {
    /// The PCIe ports of the listed devices.
    pub net: Vec<Option<String>>,
    pub host_fs: Vec<Option<String>>,
    pub shared_memory_fs: Vec<Option<String>>,
    pub plan9: Vec<Option<String>>,
    pub vhost_user: Vec<Option<String>>,
    pub fs_bus: VirtioBusOption,
    pub persistent_memory: bool,
    pub persistent_memory_port: Option<String>,
    pub entropy: bool,
    pub entropy_bus: VirtioBusOption,
    pub entropy_port: Option<String>,
    /// Whether a machine that is no microVM has a virtio console.
    pub console: bool,
    pub console_port: Option<String>,
    pub vsock: bool,
    pub vsock_bus: Option<VirtioBusOption>,
    pub vhost_vsock_cid: Option<u64>,
}

/// How a machine boots.
#[derive(Debug)]
pub struct BootChoices {
    /// Whether a kernel and a firmware image are given.
    pub kernel: bool,
    pub uefi_firmware: bool,
    pub cmdline: Vec<String>,
    pub restore_snapshot: bool,
    pub igvm: bool,
    pub igvm_personality: Option<IgvmPersonality>,
    pub igvm_vtl2_relocation: Vtl2BaseAddressType,
    pub pcat: bool,
    pub pcat_boot_order: Option<[PcatBootDevice; 4]>,
    pub uefi: bool,
    pub hv: bool,
    pub no_hv: bool,
    pub device_tree: bool,
    pub snp_restricted_injection: bool,
    pub has_root_complex: bool,
    /// The third serial port of the platform.
    pub com3: SerialInformation,
    pub smbios_requested: bool,
    pub uefi_memory_protections: bool,
}

/// The firmware and the chipset of a machine.
#[derive(Clone, Copy, Debug)]
pub struct FirmwareChoices {
    pub gfx: bool,
    pub vtl2_gfx: bool,
    pub vnc: bool,
    pub guest_watchdog: bool,
    /// Which of the four serial ports are connected.
    pub serial: [bool; 4],
    pub serial_debugger: [bool; 4],
    pub vmbus_serial1: bool,
    pub vmbus_serial2: bool,
    pub serial_tx_only: bool,
    pub battery: bool,
    pub hibernation: bool,
    pub debugcon: Option<(u16, bool)>,
    pub secure_boot: bool,
    pub secure_boot_template: SecureBootTemplate,
    pub custom_variables: bool,
    pub log_level: Option<FirmwareLogLevel>,
    pub vmgs: Option<ProvisionVmgs>,
    pub test_gsp_by_id: bool,
    pub uefi_debug: bool,
    pub disable_frontpage: bool,
    pub uefi_console_mode: Option<UefiConsoleMode>,
    pub default_boot_always_attempt: bool,
    pub force_dma_bounce: bool,
    pub tpm: Option<TpmVersion>,
}

/// The options of a machine.
#[derive(Debug)]
pub struct LaunchChoices {
    pub machine: MachineProfile,
    pub arch: GuestArch,
    pub host: HostOs,
    pub vtl2: bool,
    pub no_alias_map: bool,
    pub no_vmbus: bool,
    pub vmbus_redirect: bool,
    pub isolation: Option<IsolationRequest>,
    pub boot: BootChoices,
    pub firmware: FirmwareChoices,
    pub virtio: VirtioLists,
    pub nics: Vec<NicOffer>,
    pub default_nic: bool,
    pub crash_dump: bool,
    pub configuration_hive: bool,
    /// Whether the guest has an NVMe disk of its own.
    pub has_guest_nvme: bool,
    pub other: OtherDevices,
}

/// A planned machine.
#[derive(Debug)]
pub struct LaunchPlan {
    pub chipset: BaseChipsetType,
    pub features: ChipsetFeatures,
    pub load_mode: LoadMode,
    pub with_hv: bool,
    /// The guest state, where no guest emulation device takes it over.
    pub vmgs: Option<VmgsResource>,
    pub guest_emulation: Option<GuestEmulationPlan>,
    pub tpm: Option<TpmPlan>,
    pub isolation: Option<IsolationType>,
    pub buses: BusPlan,
}

/// The options that decide the chipset.
#[verifier::opaque]
pub open spec fn chipset_options(c: LaunchChoices) -> ChipsetOptions {
    ChipsetOptions {
        machine: c.machine,
        igvm: c.boot.igvm,
        igvm_personality: c.boot.igvm_personality,
        isolation: c.isolation,
        pcat: c.boot.pcat,
        uefi: c.boot.uefi,
        hv: c.boot.hv,
    }
}

/// Some serial port is connected.
pub open spec fn any_serial(c: LaunchChoices) -> bool {
    let serial = c.firmware.serial;
    serial[0] || serial[1] || serial[2] || serial[3]
}

/// The options that decide how the machine boots.
#[verifier::opaque]
pub open spec fn boot_options(c: LaunchChoices, front: LaunchFront) -> BootOptions {
    BootOptions {
        microvm: c.machine == MachineProfile::Microvm,
        microvm_console: front.console is Some,
        arch: c.arch,
        kernel: c.boot.kernel,
        cmdline: c.boot.cmdline,
        restore_snapshot: c.boot.restore_snapshot,
        igvm: c.boot.igvm,
        igvm_personality: c.boot.igvm_personality,
        igvm_vtl2_relocation: c.boot.igvm_vtl2_relocation,
        pcat: c.boot.pcat,
        pcat_boot_order: c.boot.pcat_boot_order,
        uefi: c.boot.uefi,
        uefi_options: UefiOptions {
            firmware: c.boot.uefi_firmware,
            debug: c.firmware.uefi_debug,
            enable_memory_protections: c.boot.uefi_memory_protections,
            disable_frontpage: c.firmware.disable_frontpage,
            enable_tpm: c.firmware.tpm is Some,
            enable_battery: c.firmware.battery,
            console_mode: c.firmware.uefi_console_mode,
            default_boot_always_attempt: c.firmware.default_boot_always_attempt,
            force_dma_bounce: c.firmware.force_dma_bounce,
            no_vmbus: c.no_vmbus,
        },
        hv: c.boot.hv,
        no_hv: c.boot.no_hv,
        vtl2: c.vtl2,
        with_get: front.with_get,
        hibernation: c.firmware.hibernation,
        isolation: c.isolation,
        snp_restricted_injection: c.boot.snp_restricted_injection,
        device_tree: c.boot.device_tree,
        gfx: c.firmware.gfx,
        has_root_complex: c.boot.has_root_complex,
        any_serial: any_serial(c),
        com3: if c.firmware.serial[2] {
            Some(c.boot.com3)
        } else {
            None
        },
        smbios_requested: c.boot.smbios_requested,
    }
}

/// The options that decide the devices around the firmware.
#[verifier::opaque]
pub open spec fn firmware_options(c: LaunchChoices) -> FirmwareOptions {
    let f = c.firmware;
    FirmwareOptions {
        arch: c.arch,
        gfx: f.gfx,
        vtl2_gfx: f.vtl2_gfx,
        vnc: f.vnc,
        pcat: c.boot.pcat,
        pcat_boot_order: c.boot.pcat_boot_order,
        uefi: c.boot.uefi,
        igvm: c.boot.igvm,
        igvm_personality: c.boot.igvm_personality,
        guest_watchdog: f.guest_watchdog,
        serial: f.serial,
        serial_debugger: f.serial_debugger,
        battery: f.battery,
        no_vmbus: c.no_vmbus,
        debugcon: f.debugcon,
        secure_boot: f.secure_boot,
        secure_boot_template: f.secure_boot_template,
        custom_variables: f.custom_variables,
        log_level: f.log_level,
        vmgs: f.vmgs is Some,
        uefi_debug: f.uefi_debug,
        disable_frontpage: f.disable_frontpage,
        uefi_console_mode: f.uefi_console_mode,
        default_boot_always_attempt: f.default_boot_always_attempt,
        force_dma_bounce: f.force_dma_bounce,
        vmbus_redirect: c.vmbus_redirect,
        serial_tx_only: f.serial_tx_only,
        vmbus_serial1: f.vmbus_serial1,
        vmbus_serial2: f.vmbus_serial2,
        tpm: f.tpm,
        hibernation: f.hibernation,
        test_gsp_by_id: f.test_gsp_by_id,
    }
}

/// The options that decide the devices on VMBus.
#[verifier::opaque]
pub open spec fn vmbus_options(
    c: LaunchChoices,
    front: LaunchFront,
    with_hv: bool,
) -> VmbusDeviceOptions {
    VmbusDeviceOptions {
        microvm: c.machine == MachineProfile::Microvm,
        with_hv,
        with_get: front.with_get,
        vtl2: c.vtl2,
        no_vmbus: c.no_vmbus,
        serial1: c.firmware.vmbus_serial1,
        serial2: c.firmware.vmbus_serial2,
        nics: c.nics,
        default_nic: c.default_nic,
        gfx: c.firmware.gfx,
        crash_dump: c.crash_dump,
        configuration_hive: c.configuration_hive,
    }
}

/// The options that decide the virtio devices. The console of a microVM is the one
/// that was decided on first.
#[verifier::opaque]
pub open spec fn virtio_options(c: LaunchChoices, front: LaunchFront) -> VirtioOptions {
    let microvm = c.machine == MachineProfile::Microvm;
    let v = c.virtio;
    VirtioOptions {
        microvm,
        microvm_network: front.network is Some,
        microvm_filesystem_slot: front.filesystem_slot,
        microvm_filesystem_mounted: front.filesystem is Some,
        net: v.net,
        host_fs: v.host_fs,
        shared_memory_fs: v.shared_memory_fs,
        plan9: v.plan9,
        vhost_user: v.vhost_user,
        fs_bus: v.fs_bus,
        persistent_memory: v.persistent_memory,
        persistent_memory_port: v.persistent_memory_port,
        entropy: v.entropy,
        entropy_bus: v.entropy_bus,
        entropy_port: v.entropy_port,
        console: if microvm {
            front.console is Some
        } else {
            v.console
        },
        console_port: v.console_port,
        vsock: v.vsock,
        vsock_bus: v.vsock_bus,
        vhost_vsock_cid: v.vhost_vsock_cid,
    }
}

/// The guest state that options ask for.
#[verifier::opaque]
pub open spec fn guest_state(c: LaunchChoices) -> Option<VmgsResource> {
    if c.machine == MachineProfile::Microvm {
        None
    } else {
        Some(guest_state_of(c.firmware.vmgs, c.firmware.test_gsp_by_id))
    }
}

/// A machine that boots as options describe has the enlightenments of the
/// hypervisor.
#[verifier::opaque]
pub open spec fn has_hv(boot: BootOptions) -> bool {
    launch_with_hv(boot)
}

/// Why a machine cannot boot, if it cannot.
#[verifier::opaque]
pub open spec fn boot_stop(boot: BootOptions, recorded: bool) -> Option<Seq<char>> {
    launch_boot_refusal(boot, recorded)
}

/// Why a machine cannot be launched, if it cannot. The first of these that is
/// refused is the answer.
pub open spec fn launch_refusal(
    c: LaunchChoices,
    front: LaunchFront,
    recorded: bool,
) -> Option<Seq<char>> {
    let boot = boot_stop(boot_options(c, front), recorded);
    if boot is Some {
        boot
    } else if c.machine == MachineProfile::Microvm && c.firmware.vmgs is Some {
        Some("microVM does not support VMGS"@)
    } else {
        isolation_refusal(c.isolation, c.vtl2, c.no_alias_map)
    }
}

/// The features are the ones that options describe.
#[verifier::opaque]
pub open spec fn are_features(features: ChipsetFeatures, opt: FirmwareOptions) -> bool {
    &&& features.framebuffer == (opt.gfx || opt.vtl2_gfx || opt.vnc || opt.pcat)
    &&& features.guest_watchdog == opt.guest_watchdog
    &&& features.serial == (if opt.serial[0] || opt.serial[1] || opt.serial[2] || opt.serial[3] {
        Some(opt.serial)
    } else {
        None
    })
    &&& features.serial_debugger == opt.serial_debugger
    &&& features.battery == opt.battery
    &&& features.without_vmbus == opt.no_vmbus
    &&& features.debugcon == opt.debugcon
    &&& features.variables == variables_of(opt)
}

/// The guest emulation device is the one that options describe.
#[verifier::opaque]
pub open spec fn is_guest_emulation(
    plan: GuestEmulationPlan,
    opt: FirmwareOptions,
    vmgs: Option<VmgsResource>,
    has_nvme: bool,
    smbios: SmbiosConfig,
) -> bool {
    &&& is_guest_firmware(plan.firmware, opt, has_nvme)
    &&& plan.com1 == opt.vmbus_serial1 && plan.com2 == opt.vmbus_serial2
    &&& plan.serial_tx_only == opt.serial_tx_only
    &&& plan.vmbus_redirection == opt.vmbus_redirect
    &&& plan.vmgs == vmgs
    &&& plan.framebuffer == opt.vtl2_gfx
    &&& plan.tpm == opt.tpm
    &&& plan.secure_boot == opt.secure_boot
    &&& plan.secure_boot_template == opt.secure_boot_template
    &&& plan.battery == opt.battery && plan.hibernation == opt.hibernation
    &&& plan.no_persistent_secrets
    &&& plan.test_gsp_by_id == opt.test_gsp_by_id
    &&& plan.log_level == log_level_of(opt)
    &&& plan.force_dma_bounce == opt.force_dma_bounce
    &&& plan.smbios == smbios
}

/// The trusted platform module that options ask for, bound to the identifier of the
/// machine.
#[verifier::opaque]
pub open spec fn tpm_of(c: LaunchChoices, bios_guid: Guid) -> Option<TpmPlan> {
    if c.firmware.tpm is Some && !c.vtl2 {
        Some(
            TpmPlan {
                version: c.firmware.tpm->0,
                bios_guid,
                persistent: c.firmware.vmgs is Some,
                register_layout: if c.arch == GuestArch::X86_64 {
                    TpmRegisterLayout::IoPort
                } else {
                    TpmRegisterLayout::Mmio
                },
            },
        )
    } else {
        None
    }
}

/// The terminal that the kernel is told of.
pub open spec fn kernel_console(front: LaunchFront) -> Seq<char> {
    match holder_view(front.terminal) {
        Some(device) => device,
        None => ""@,
    }
}

/// The machine boots as options describe.
#[verifier::opaque]
pub open spec fn boots_as(
    load_mode: LoadMode,
    boot: BootOptions,
    recorded: Option<Seq<char>>,
    console: Seq<char>,
    image: HostFile,
    initrd: Option<HostFile>,
    smbios: SmbiosConfig,
) -> bool {
    is_launch_mode(load_mode, boot, recorded, console, image, initrd, smbios)
}

/// The devices on the buses of a machine.
#[derive(Debug)]
pub struct BusPlan {
    pub vmbus: Vec<(DeviceVtl, VmbusKind)>,
    pub virtio: Vec<(VirtioBus, VirtioKind)>,
    pub pcie: Vec<(String, PcieKind)>,
    pub vpci: Vec<(DeviceVtl, VpciKind)>,
}

/// The PCIe ports of the devices that are not virtio devices, and the trust levels
/// that have an emulated adapter.
#[derive(Debug)]
pub struct OtherDevices {
    pub remote_ports: Vec<String>,
    pub adapter_ports: Vec<String>,
    pub cxl_test_ports: Vec<String>,
    pub assigned_ports: Vec<String>,
    pub adapters: [bool; 3],
}

/// The devices are on the buses that options ask for. The virtio devices with a
/// port are among the devices behind PCIe ports.
#[verifier::opaque]
pub open spec fn are_on_buses(
    plan: BusPlan,
    vmbus: VmbusDeviceOptions,
    virtio: VirtioOptions,
    other: OtherDevices,
    host: HostOs,
) -> bool {
    let slots = virtio_slots(virtio, host);
    let n = slots.len() as int;
    &&& plan.vmbus@ == vmbus_list(vmbus)
    &&& plan.virtio@ == on_buses(slots, vmbus.with_hv, host, n)
    &&& plan.vpci@ == vpci_list(other.adapters, on_vpci(slots, vmbus.with_hv, host, n))
    &&& exists|ports: PciePorts|
        {
            &&& #[trigger] pcie_list(ports, host) == pcie_views(plan.pcie@)
            &&& ports.remote == other.remote_ports && ports.adapters == other.adapter_ports
            &&& ports.cxl_test == other.cxl_test_ports && ports.assigned == other.assigned_ports
            &&& port_views(ports.virtio@) == on_ports(slots, n)
        }
}

/// The plan is the one that options and the front of the launch describe.
pub open spec fn is_launch_plan(
    plan: LaunchPlan,
    c: LaunchChoices,
    front: LaunchFront,
    recorded: Option<Seq<char>>,
    image: HostFile,
    initrd: Option<HostFile>,
    smbios: SmbiosConfig,
) -> bool {
    let boot = boot_options(c, front);
    let with_hv = has_hv(boot);
    let taken = front.with_get && with_hv;
    &&& plan.chipset == chipset_of(chipset_options(c))
    &&& are_features(plan.features, firmware_options(c))
    &&& boots_as(
        plan.load_mode,
        boot,
        recorded,
        kernel_console(front),
        image,
        initrd,
        smbios,
    )
    &&& plan.with_hv == with_hv
    &&& plan.vmgs == (if taken {
        None
    } else {
        guest_state(c)
    })
    &&& plan.guest_emulation is Some <==> taken
    &&& taken ==> is_guest_emulation(
        plan.guest_emulation->0,
        firmware_options(c),
        guest_state(c),
        c.has_guest_nvme,
        smbios,
    )
    &&& plan.tpm == tpm_of(c, smbios.system.uuid)
    &&& plan.isolation == isolation_of(c.isolation)
    &&& are_on_buses(
        plan.buses,
        vmbus_options(c, front, with_hv),
        virtio_options(c, front),
        c.other,
        c.host,
    )
}

fn make_chipset_options(c: &LaunchChoices) -> (r: ChipsetOptions)
    ensures
        r == chipset_options(*c),
{
    proof {
        reveal(chipset_options);
    }
    ChipsetOptions {
        machine: c.machine,
        igvm: c.boot.igvm,
        igvm_personality: c.boot.igvm_personality,
        isolation: c.isolation,
        pcat: c.boot.pcat,
        uefi: c.boot.uefi,
        hv: c.boot.hv,
    }
}

fn make_firmware_options(c: &LaunchChoices) -> (r: FirmwareOptions)
    ensures
        r == firmware_options(*c),
{
    proof {
        reveal(firmware_options);
    }
    let f = c.firmware;
    FirmwareOptions {
        arch: c.arch,
        gfx: f.gfx,
        vtl2_gfx: f.vtl2_gfx,
        vnc: f.vnc,
        pcat: c.boot.pcat,
        pcat_boot_order: c.boot.pcat_boot_order,
        uefi: c.boot.uefi,
        igvm: c.boot.igvm,
        igvm_personality: c.boot.igvm_personality,
        guest_watchdog: f.guest_watchdog,
        serial: f.serial,
        serial_debugger: f.serial_debugger,
        battery: f.battery,
        no_vmbus: c.no_vmbus,
        debugcon: f.debugcon,
        secure_boot: f.secure_boot,
        secure_boot_template: f.secure_boot_template,
        custom_variables: f.custom_variables,
        log_level: f.log_level,
        vmgs: f.vmgs.is_some(),
        uefi_debug: f.uefi_debug,
        disable_frontpage: f.disable_frontpage,
        uefi_console_mode: f.uefi_console_mode,
        default_boot_always_attempt: f.default_boot_always_attempt,
        force_dma_bounce: f.force_dma_bounce,
        vmbus_redirect: c.vmbus_redirect,
        serial_tx_only: f.serial_tx_only,
        vmbus_serial1: f.vmbus_serial1,
        vmbus_serial2: f.vmbus_serial2,
        tpm: f.tpm,
        hibernation: f.hibernation,
        test_gsp_by_id: f.test_gsp_by_id,
    }
}

/// What decides the boot besides the boot options themselves.
struct BootContext {
    microvm: bool,
    microvm_console: bool,
    arch: GuestArch,
    vtl2: bool,
    with_get: bool,
    no_vmbus: bool,
    isolation: Option<IsolationRequest>,
    any_serial: bool,
    com3: Option<SerialInformation>,
    tpm: bool,
}

#[verifier::opaque]
spec fn boot_options_of(b: BootChoices, f: FirmwareChoices, x: BootContext) -> BootOptions {
    BootOptions {
        microvm: x.microvm,
        microvm_console: x.microvm_console,
        arch: x.arch,
        kernel: b.kernel,
        cmdline: b.cmdline,
        restore_snapshot: b.restore_snapshot,
        igvm: b.igvm,
        igvm_personality: b.igvm_personality,
        igvm_vtl2_relocation: b.igvm_vtl2_relocation,
        pcat: b.pcat,
        pcat_boot_order: b.pcat_boot_order,
        uefi: b.uefi,
        uefi_options: UefiOptions {
            firmware: b.uefi_firmware,
            debug: f.uefi_debug,
            enable_memory_protections: b.uefi_memory_protections,
            disable_frontpage: f.disable_frontpage,
            enable_tpm: x.tpm,
            enable_battery: f.battery,
            console_mode: f.uefi_console_mode,
            default_boot_always_attempt: f.default_boot_always_attempt,
            force_dma_bounce: f.force_dma_bounce,
            no_vmbus: x.no_vmbus,
        },
        hv: b.hv,
        no_hv: b.no_hv,
        vtl2: x.vtl2,
        with_get: x.with_get,
        hibernation: f.hibernation,
        isolation: x.isolation,
        snp_restricted_injection: b.snp_restricted_injection,
        device_tree: b.device_tree,
        gfx: f.gfx,
        has_root_complex: b.has_root_complex,
        any_serial: x.any_serial,
        com3: x.com3,
        smbios_requested: b.smbios_requested,
    }
}

/// The serial ports that the boot depends on: whether any is connected, and the
/// third where it is.
fn connected_serial(serial: &[bool; 4], com3: SerialInformation) -> (r: (
    bool,
    Option<SerialInformation>,
))
    ensures
        r.0 == (serial[0] || serial[1] || serial[2] || serial[3]),
        r.1 == (if serial[2] {
            Some(com3)
        } else {
            None
        }),
{
    let any = serial[0] || serial[1] || serial[2] || serial[3];
    if serial[2] {
        (any, Some(com3))
    } else {
        (any, None)
    }
}

fn make_boot_options(b: BootChoices, f: &FirmwareChoices, x: BootContext) -> (r: BootOptions)
    ensures
        r == boot_options_of(b, *f, x),
{
    proof {
        reveal(boot_options_of);
    }
    BootOptions {
        microvm: x.microvm,
        microvm_console: x.microvm_console,
        arch: x.arch,
        kernel: b.kernel,
        cmdline: b.cmdline,
        restore_snapshot: b.restore_snapshot,
        igvm: b.igvm,
        igvm_personality: b.igvm_personality,
        igvm_vtl2_relocation: b.igvm_vtl2_relocation,
        pcat: b.pcat,
        pcat_boot_order: b.pcat_boot_order,
        uefi: b.uefi,
        uefi_options: UefiOptions {
            firmware: b.uefi_firmware,
            debug: f.uefi_debug,
            enable_memory_protections: b.uefi_memory_protections,
            disable_frontpage: f.disable_frontpage,
            enable_tpm: x.tpm,
            enable_battery: f.battery,
            console_mode: f.uefi_console_mode,
            default_boot_always_attempt: f.default_boot_always_attempt,
            force_dma_bounce: f.force_dma_bounce,
            no_vmbus: x.no_vmbus,
        },
        hv: b.hv,
        no_hv: b.no_hv,
        vtl2: x.vtl2,
        with_get: x.with_get,
        hibernation: f.hibernation,
        isolation: x.isolation,
        snp_restricted_injection: b.snp_restricted_injection,
        device_tree: b.device_tree,
        gfx: f.gfx,
        has_root_complex: b.has_root_complex,
        any_serial: x.any_serial,
        com3: x.com3,
        smbios_requested: b.smbios_requested,
    }
}

/// What decides the virtio devices besides the lists themselves.
struct VirtioContext {
    microvm: bool,
    network: bool,
    filesystem_slot: bool,
    filesystem_mounted: bool,
    console: bool,
}

#[verifier::opaque]
spec fn virtio_options_of(v: VirtioLists, x: VirtioContext) -> VirtioOptions {
    VirtioOptions {
        microvm: x.microvm,
        microvm_network: x.network,
        microvm_filesystem_slot: x.filesystem_slot,
        microvm_filesystem_mounted: x.filesystem_mounted,
        net: v.net,
        host_fs: v.host_fs,
        shared_memory_fs: v.shared_memory_fs,
        plan9: v.plan9,
        vhost_user: v.vhost_user,
        fs_bus: v.fs_bus,
        persistent_memory: v.persistent_memory,
        persistent_memory_port: v.persistent_memory_port,
        entropy: v.entropy,
        entropy_bus: v.entropy_bus,
        entropy_port: v.entropy_port,
        console: if x.microvm {
            x.console
        } else {
            v.console
        },
        console_port: v.console_port,
        vsock: v.vsock,
        vsock_bus: v.vsock_bus,
        vhost_vsock_cid: v.vhost_vsock_cid,
    }
}

/// The virtio devices are placed.
spec fn is_placement(p: VirtioPlacement, opt: VirtioOptions, with_hv: bool, host: HostOs) -> bool {
    let virtio = virtio_slots(opt, host);
    let n = virtio.len() as int;
    &&& port_views(p.ports@) == on_ports(virtio, n)
    &&& p.buses@ == on_buses(virtio, with_hv, host, n)
    &&& p.vpci@ == on_vpci(virtio, with_hv, host, n)
}

fn place_virtio_lists(v: VirtioLists, x: VirtioContext, with_hv: bool, host: HostOs) -> (p:
    VirtioPlacement)
    ensures
        is_placement(p, virtio_options_of(v, x), with_hv, host),
{
    proof {
        reveal(virtio_options_of);
    }
    let console = if x.microvm {
        x.console
    } else {
        v.console
    };
    let virtio = VirtioOptions {
        microvm: x.microvm,
        microvm_network: x.network,
        microvm_filesystem_slot: x.filesystem_slot,
        microvm_filesystem_mounted: x.filesystem_mounted,
        net: v.net,
        host_fs: v.host_fs,
        shared_memory_fs: v.shared_memory_fs,
        plan9: v.plan9,
        vhost_user: v.vhost_user,
        fs_bus: v.fs_bus,
        persistent_memory: v.persistent_memory,
        persistent_memory_port: v.persistent_memory_port,
        entropy: v.entropy,
        entropy_bus: v.entropy_bus,
        entropy_port: v.entropy_port,
        console,
        console_port: v.console_port,
        vsock: v.vsock,
        vsock_bus: v.vsock_bus,
        vhost_vsock_cid: v.vhost_vsock_cid,
    };
    let requests = virtio_requests(&virtio, host);
    place_devices(&requests, with_hv, host)
}

fn plan_buses(
    vmbus: VmbusDeviceOptions,
    v: VirtioLists,
    x: VirtioContext,
    other: OtherDevices,
    host: HostOs,
) -> (plan: BusPlan)
    ensures
        are_on_buses(plan, vmbus, virtio_options_of(v, x), other, host),
{
    let on_vmbus = vmbus_devices(&vmbus);
    let placement = place_virtio_lists(v, x, vmbus.with_hv, host);
    let vpci = vpci_device_list(other.adapters, &placement.vpci);
    let behind = PciePorts {
        remote: other.remote_ports,
        adapters: other.adapter_ports,
        cxl_test: other.cxl_test_ports,
        virtio: placement.ports,
        assigned: other.assigned_ports,
    };
    let pcie = pcie_device_list(&behind, host);
    let plan = BusPlan { vmbus: on_vmbus, virtio: placement.buses, pcie, vpci };
    proof {
        reveal(are_on_buses);
        assert(pcie_list(behind, host) == pcie_views(plan.pcie@));
    }
    plan
}

fn plan_features(opt: &FirmwareOptions) -> (features: ChipsetFeatures)
    ensures
        are_features(features, *opt),
{
    proof {
        reveal(are_features);
    }
    chipset_features(opt)
}

fn plan_emulation(
    opt: &FirmwareOptions,
    vmgs: Option<VmgsResource>,
    has_nvme: bool,
    smbios: SmbiosConfig,
) -> (plan: GuestEmulationPlan)
    ensures
        is_guest_emulation(plan, *opt, vmgs, has_nvme, smbios),
{
    proof {
        reveal(is_guest_emulation);
    }
    guest_emulation(opt, vmgs, has_nvme, smbios)
}

fn boot_machine(
    b: BootChoices,
    f: &FirmwareChoices,
    x: BootContext,
    recorded: Option<String>,
    terminal: Option<&'static str>,
    image: HostFile,
    initrd: Option<HostFile>,
    smbios: SmbiosConfig,
) -> (r: Result<(LoadMode, bool), Refusal>)
    ensures
        refusal_of(r) == boot_stop(boot_options_of(b, *f, x), recorded is Some),
        r is Ok ==> {
            &&& boots_as(
                r->Ok_0.0,
                boot_options_of(b, *f, x),
                string_view(recorded),
                (match holder_view(terminal) {
                    Some(device) => device,
                    None => ""@,
                }),
                image,
                initrd,
                smbios,
            )
            &&& r->Ok_0.1 == has_hv(boot_options_of(b, *f, x))
        },
{
    proof {
        reveal(boot_stop);
        reveal(boots_as);
        reveal(has_hv);
    }
    let console: &'static str = match terminal {
        Some(device) => device,
        None => "",
    };
    let boot = make_boot_options(b, f, x);
    select_load_mode(&boot, recorded, console, image, initrd, smbios)
}

/// What is settled before the devices are.
struct Settled {
    load_mode: LoadMode,
    with_hv: bool,
    state: Option<VmgsResource>,
    isolation: Option<IsolationType>,
}

/// What is settled is what options describe.
#[verifier::opaque]
spec fn is_settled(
    settled: Settled,
    boot: BootOptions,
    c: LaunchChoices,
    front: LaunchFront,
    recorded: Option<Seq<char>>,
    image: HostFile,
    initrd: Option<HostFile>,
    smbios: SmbiosConfig,
) -> bool {
    &&& boots_as(
        settled.load_mode,
        boot,
        recorded,
        kernel_console(front),
        image,
        initrd,
        smbios,
    )
    &&& settled.with_hv == has_hv(boot)
    &&& settled.state == guest_state(c)
    &&& settled.isolation == isolation_of(c.isolation)
}

fn settle(
    b: BootChoices,
    f: &FirmwareChoices,
    x: BootContext,
    no_alias_map: bool,
    recorded: Option<String>,
    front: &LaunchFront,
    image: HostFile,
    initrd: Option<HostFile>,
    smbios: SmbiosConfig,
    Ghost(c): Ghost<LaunchChoices>,
) -> (r: Result<Settled, Refusal>)
    requires
        boot_options_of(b, *f, x) == boot_options(c, *front),
        x.microvm == (c.machine == MachineProfile::Microvm),
        f.vmgs == c.firmware.vmgs,
        f.test_gsp_by_id == c.firmware.test_gsp_by_id,
        x.isolation == c.isolation && x.vtl2 == c.vtl2 && no_alias_map == c.no_alias_map,
    ensures
        refusal_of(r) == launch_refusal(c, *front, recorded is Some),
        r is Ok ==> is_settled(
            r->Ok_0,
            boot_options(c, *front),
            c,
            *front,
            string_view(recorded),
            image,
            initrd,
            smbios,
        ),
{
    let microvm = x.microvm;
    let isolation = x.isolation;
    let vtl2 = x.vtl2;
    let (load_mode, with_hv): (LoadMode, bool) = match boot_machine(
        b,
        f,
        x,
        recorded,
        front.terminal,
        image,
        initrd,
        smbios,
    ) {
        Ok(selected) => selected,
        Err(e) => return Err(e),
    };
    let state: Option<VmgsResource> = match select_vmgs(
        microvm,
        f.vmgs,
        f.test_gsp_by_id,
    ) {
        Ok(state) => state,
        Err(e) => return Err(e),
    };
    let isolation: Option<IsolationType> = match select_isolation(isolation, vtl2, no_alias_map) {
        Ok(isolation) => isolation,
        Err(e) => return Err(e),
    };
    proof {
        reveal(guest_state);
        reveal(is_settled);
    }
    Ok(Settled { load_mode, with_hv, state, isolation })
}

proof fn lemma_boot_options(c: LaunchChoices, front: LaunchFront)
    ensures
        boot_options_of(
            c.boot,
            c.firmware,
            BootContext {
                microvm: c.machine == MachineProfile::Microvm,
                microvm_console: front.console is Some,
                arch: c.arch,
                vtl2: c.vtl2,
                with_get: front.with_get,
                no_vmbus: c.no_vmbus,
                isolation: c.isolation,
                any_serial: any_serial(c),
                com3: if c.firmware.serial[2] {
                    Some(c.boot.com3)
                } else {
                    None
                },
                tpm: c.firmware.tpm is Some,
            },
        ) == boot_options(c, front),
{
    reveal(boot_options_of);
    reveal(boot_options);
}

proof fn lemma_virtio_options(c: LaunchChoices, front: LaunchFront)
    ensures
        virtio_options_of(
            c.virtio,
            VirtioContext {
                microvm: c.machine == MachineProfile::Microvm,
                network: front.network is Some,
                filesystem_slot: front.filesystem_slot,
                filesystem_mounted: front.filesystem is Some,
                console: front.console is Some,
            },
        ) == virtio_options(c, front),
{
    reveal(virtio_options_of);
    reveal(virtio_options);
}

/// Plans a machine from the command line, once its images are opened.
#[verifier::rlimit(40)]
pub fn plan_launch(
    choices: LaunchChoices,
    front: &LaunchFront,
    recorded: Option<String>,
    image: HostFile,
    initrd: Option<HostFile>,
    smbios: SmbiosConfig,
) -> (r: Result<LaunchPlan, Refusal>)
    ensures
        refusal_of(r) == launch_refusal(choices, *front, recorded is Some),
        r is Ok ==> is_launch_plan(
            r->Ok_0,
            choices,
            *front,
            string_view(recorded),
            image,
            initrd,
            smbios,
        ),
{
    proof {
        lemma_boot_options(choices, *front);
        lemma_virtio_options(choices, *front);
    }
    let chipset = base_chipset_type(&make_chipset_options(&choices));
    let firmware = make_firmware_options(&choices);
    let features = plan_features(&firmware);
    let shared_smbios = copy_smbios(&smbios);
    let bios_guid = smbios.system.uuid;
    let c = choices;
    let microvm = c.machine == MachineProfile::Microvm;
    let has_console = front.console.is_some();
    let (any_serial, com3): (bool, Option<SerialInformation>) = connected_serial(
        &c.firmware.serial,
        c.boot.com3,
    );
    let Settled { load_mode, with_hv, state, isolation } = match settle(
        c.boot,
        &c.firmware,
        BootContext {
            microvm,
            microvm_console: has_console,
            arch: c.arch,
            vtl2: c.vtl2,
            with_get: front.with_get,
            no_vmbus: c.no_vmbus,
            isolation: c.isolation,
            any_serial,
            com3,
            tpm: c.firmware.tpm.is_some(),
        },
        c.no_alias_map,
        recorded,
        front,
        image,
        initrd,
        smbios,
        Ghost(choices),
    ) {
        Ok(settled) => settled,
        Err(e) => return Err(e),
    };
    proof {
        reveal(is_settled);
    }
    let taken = front.with_get && with_hv;
    let emulation: Option<GuestEmulationPlan> = if taken {
        Some(plan_emulation(&firmware, state, c.has_guest_nvme, shared_smbios))
    } else {
        None
    };
    let vmgs: Option<VmgsResource> = if taken {
        None
    } else {
        state
    };
    let tpm = plan_tpm(c.firmware.tpm, c.vtl2, c.firmware.vmgs.is_some(), c.arch, bios_guid);
    assert(tpm == tpm_of(choices, bios_guid)) by {
        reveal(tpm_of);
    }
    let vmbus = VmbusDeviceOptions {
        microvm,
        with_hv,
        with_get: front.with_get,
        vtl2: c.vtl2,
        no_vmbus: c.no_vmbus,
        serial1: c.firmware.vmbus_serial1,
        serial2: c.firmware.vmbus_serial2,
        nics: c.nics,
        default_nic: c.default_nic,
        gfx: c.firmware.gfx,
        crash_dump: c.crash_dump,
        configuration_hive: c.configuration_hive,
    };
    assert(vmbus == vmbus_options(choices, *front, with_hv)) by {
        reveal(vmbus_options);
    }
    let buses = plan_buses(
        vmbus,
        c.virtio,
        VirtioContext {
            microvm,
            network: front.network.is_some(),
            filesystem_slot: front.filesystem_slot,
            filesystem_mounted: front.filesystem.is_some(),
            console: has_console,
        },
        c.other,
        c.host,
    );
    Ok(
        LaunchPlan {
            chipset,
            features,
            load_mode,
            with_hv,
            vmgs,
            guest_emulation: emulation,
            tpm,
            isolation,
            buses,
        },
    )
}

/// A launched microVM boots by PVH without enlightenments, has no guest state, and
/// has its own devices in memory.
pub proof fn law_launched_microvm_is_plain(
    plan: LaunchPlan,
    c: LaunchChoices,
    front: LaunchFront,
    recorded: Option<Seq<char>>,
    image: HostFile,
    initrd: Option<HostFile>,
    smbios: SmbiosConfig,
)
    requires
        c.machine == MachineProfile::Microvm,
        launch_refusal(c, front, recorded is Some) is None,
        is_launch_plan(plan, c, front, recorded, image, initrd, smbios),
    ensures
        c.arch == GuestArch::X86_64,
        plan.chipset == BaseChipsetType::Microvm,
        plan.load_mode is Pvh,
        !plan.with_hv,
        plan.vmgs is None && plan.guest_emulation is None,
        front.network is Some ==> plan.buses.virtio@.len() > 0 && plan.buses.virtio@[0] == (
            VirtioBus::Mmio,
            VirtioKind::MicrovmNet,
        ),
{
    reveal(chipset_options);
    reveal(boot_options);
    reveal(boot_stop);
    reveal(boots_as);
    reveal(has_hv);
    reveal(guest_state);
    reveal(vmbus_options);
    reveal(virtio_options);
    reveal(are_on_buses);
    let virtio = virtio_slots(virtio_options(c, front), c.host);
    if front.network is Some {
        assert(virtio[0].kind == VirtioKind::MicrovmNet);
        lemma_first_on_bus(virtio, c.host, virtio.len() as int);
    }
}

/// An identity that is asked for with an IGVM image reaches the guest: an accepted
/// launch that is no restore has a guest emulation device, and the device is told all of it.
pub proof fn law_igvm_identity_is_delivered(
    plan: LaunchPlan,
    c: LaunchChoices,
    front: LaunchFront,
    recorded: Option<Seq<char>>,
    image: HostFile,
    initrd: Option<HostFile>,
    smbios: SmbiosConfig,
)
    requires
        c.machine != MachineProfile::Microvm,
        !c.boot.restore_snapshot,
        c.boot.igvm && c.boot.smbios_requested,
        launch_refusal(c, front, recorded is Some) is None,
        is_launch_plan(plan, c, front, recorded, image, initrd, smbios),
    ensures
        plan.guest_emulation is Some,
        plan.guest_emulation->0.smbios == smbios,
{
    reveal(boot_options);
    reveal(boot_stop);
    reveal(has_hv);
    reveal(is_guest_emulation);
}

/// A first device that is asked to be in memory is the first device on a bus.
proof fn lemma_first_on_bus(
    requests: Seq<crate::launch_devices::VirtioSlot>,
    host: HostOs,
    n: int,
)
    requires
        1 <= n <= requests.len(),
        requests[0].pcie_port is None,
        requests[0].bus == VirtioBusOption::Mmio,
    ensures
        on_buses(requests, false, host, n).len() > 0,
        on_buses(requests, false, host, n)[0] == (VirtioBus::Mmio, requests[0].kind),
    decreases n,
{
    if n > 1 {
        lemma_first_on_bus(requests, host, n - 1);
    } else {
        assert(on_buses(requests, false, host, 0).len() == 0);
    }
}

} // verus!
