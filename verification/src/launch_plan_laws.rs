//! What holds of a launch as a whole: how the choices of the command line reach the
//! machine.

use vstd::prelude::*;

use crate::chipset::{
    base_chipset_type, BaseChipsetType, ChipsetOptions, IgvmPersonality, IsolationRequest,
};
use crate::config::{DeviceVtl, HostFile, LoadMode, SmbiosConfig, VmgsResource};
use crate::launch_device_laws::lemma_offered;
use crate::launch_devices::VmbusKind;
use crate::launch_firmware::{FirmwareOptions, GuestEmulationPlan};
use crate::launch_front::LaunchFront;
use crate::launch_laws::{
    console_name, host_words, law_user_words_come_last, law_words_of_linux,
};
use crate::launch_plan::{
    are_features, are_on_buses, boot_options, boot_stop, boots_as, firmware_options, guest_state,
    has_hv, is_guest_emulation, kernel_console, plan_launch, tpm_of, virtio_options, vmbus_options,
    LaunchChoices, LaunchPlan,
};
use crate::microvm_laws::all_words;
use crate::refusal::Refusal;
use crate::text::{string_views, words};

verus! {

/// The chipset goes with what is booted: a microVM's for a microVM, the paravisor's host
/// for an image that says nothing of itself, UEFI's and PCAT's for their firmware,
/// and Linux's otherwise, by its isolation and its enlightenments.
pub proof fn law_chipset_goes_with_what_is_booted(opt: ChipsetOptions, r: BaseChipsetType)
    requires
        call_ensures(base_chipset_type, (&opt,), r),
    ensures
        r is Microvm <==> opt.machine is Microvm,
        opt.machine is Standard ==> {
            let snp = opt.isolation is Some && opt.isolation->0 is Snp;
            let image = opt.igvm_personality;
            &&& r is HclHost <==> opt.igvm && opt.igvm_personality is None
            &&& r is HypervGen1 <==> !opt.igvm && opt.pcat && !snp
            &&& r is HypervGen2Uefi <==> (opt.igvm && image is Some && image->0 is Uefi
                || !opt.igvm && opt.uefi && !opt.pcat && !snp)
            &&& r is EnlightenedLinuxDirect <==> snp && (!opt.igvm || image is Some && image->0
                is LinuxDirect)
            &&& r is HyperVGen2LinuxDirect ==> opt.hv
            &&& r is UnenlightenedLinuxDirect ==> !opt.hv
        },
{
}

/// A launched Linux is the chosen one: the given kernel, with the initial file system and
/// the identity that are given, isolated and described as it was chosen. Its command
/// line ends in the user's words, and the host's hold `pci=off` exactly where the
/// chosen machine has enlightenments and no root complex.
pub proof fn law_launched_linux_is_the_chosen_one(
    c: LaunchChoices,
    front: LaunchFront,
    recorded: Option<String>,
    image: HostFile,
    initrd: Option<HostFile>,
    smbios: SmbiosConfig,
    r: Result<LaunchPlan, Refusal>,
)
    requires
        call_ensures(plan_launch, (c, &front, recorded, image, initrd, smbios), r),
        r is Ok,
        c.machine is Standard && !c.boot.restore_snapshot && !c.boot.igvm && !c.boot.pcat
            && !c.boot.uefi,
        console_name(kernel_console(front)),
    ensures
        r->Ok_0.with_hv == c.boot.hv,
        c.boot.kernel,
        r->Ok_0.load_mode matches LoadMode::Linux {
            kernel,
            initrd: i,
            cmdline,
            enable_serial,
            isolation,
            boot_mode,
            smbios: s,
        } && {
            let all = words(cmdline@);
            let user = all_words(string_views(c.boot.cmdline@));
            let serial = c.firmware.serial;
            &&& kernel == image && i == initrd && s == smbios
            &&& enable_serial <==> serial[0] || serial[1] || serial[2] || serial[3]
            &&& isolation is Snp <==> c.isolation == Some(IsolationRequest::Snp)
            &&& boot_mode is DeviceTree <==> c.boot.device_tree
            &&& user.len() <= all.len() && all.skip(all.len() - user.len()) == user
            &&& all.take(all.len() - user.len()).contains("pci=off"@) <==> c.boot.hv
                && !c.boot.has_root_complex
            &&& c.firmware.gfx ==> all.contains("console=tty"@)
        },
{
    reveal(boot_options);
    reveal(boot_stop);
    reveal(boots_as);
    reveal(has_hv);
    let boot = boot_options(c, front);
    let console = kernel_console(front);
    law_words_of_linux(boot, console);
    law_user_words_come_last(boot, console);
    let all = words(crate::launch_boot::linux_command_line(boot, console));
    let user = all_words(string_views(boot.cmdline@));
    let host = host_words(boot, console);
    assert(all.skip(all.len() - user.len()) =~= user);
    if c.firmware.gfx {
        let k = choose|k: int| 0 <= k < host.len() && host[k] == "console=tty"@;
        assert(all[k] == "console=tty"@);
    }
}

/// A launched UEFI firmware has every choice under its own name.
pub proof fn law_launched_uefi_is_the_chosen_one(
    c: LaunchChoices,
    front: LaunchFront,
    recorded: Option<String>,
    image: HostFile,
    initrd: Option<HostFile>,
    smbios: SmbiosConfig,
    r: Result<LaunchPlan, Refusal>,
)
    requires
        call_ensures(plan_launch, (c, &front, recorded, image, initrd, smbios), r),
        r is Ok,
        c.machine is Standard && !c.boot.restore_snapshot && !c.boot.igvm && !c.boot.pcat
            && c.boot.uefi,
    ensures
        r->Ok_0.with_hv == !c.boot.no_hv,
        c.boot.uefi_firmware,
        r->Ok_0.load_mode matches LoadMode::Uefi {
            firmware,
            enable_debugging,
            enable_memory_protections,
            disable_frontpage,
            enable_tpm,
            enable_battery,
            uefi_console_mode,
            default_boot_always_attempt,
            enable_vmbus,
            force_dma_bounce,
            enable_hv,
            hibernation_enabled,
            smbios: s,
            ..
        } && {
            &&& firmware == image && s == smbios
            &&& enable_debugging == c.firmware.uefi_debug
            &&& enable_memory_protections == c.boot.uefi_memory_protections
            &&& disable_frontpage == c.firmware.disable_frontpage
            &&& enable_tpm <==> c.firmware.tpm is Some
            &&& enable_battery == c.firmware.battery
            &&& uefi_console_mode == c.firmware.uefi_console_mode
            &&& default_boot_always_attempt == c.firmware.default_boot_always_attempt
            &&& enable_vmbus <==> !c.no_vmbus
            &&& force_dma_bounce == c.firmware.force_dma_bounce
            &&& enable_hv <==> !c.boot.no_hv
            &&& hibernation_enabled == c.firmware.hibernation
        },
{
    reveal(boot_options);
    reveal(boot_stop);
    reveal(boots_as);
    reveal(has_hv);
}

/// The chipset of a launched machine has the chosen features: its serial ports, its
/// watchdog, its battery, its debug console, and the firmware's variables as they were
/// chosen.
pub proof fn law_launched_chipset_has_the_chosen_features(
    c: LaunchChoices,
    front: LaunchFront,
    recorded: Option<String>,
    image: HostFile,
    initrd: Option<HostFile>,
    smbios: SmbiosConfig,
    r: Result<LaunchPlan, Refusal>,
)
    requires
        call_ensures(plan_launch, (c, &front, recorded, image, initrd, smbios), r),
        r is Ok,
    ensures
        ({
            let features = r->Ok_0.features;
            let f = c.firmware;
            &&& features.framebuffer <==> f.gfx || f.vtl2_gfx || f.vnc || c.boot.pcat
            &&& features.guest_watchdog == f.guest_watchdog && features.battery == f.battery
            &&& features.without_vmbus == c.no_vmbus && features.debugcon == f.debugcon
            &&& features.serial_debugger == f.serial_debugger
            &&& features.serial is Some <==> f.serial[0] || f.serial[1] || f.serial[2]
                || f.serial[3]
            &&& features.serial is Some ==> features.serial->0 == f.serial
            &&& features.variables is Some <==> (c.boot.igvm_personality == Some(
                IgvmPersonality::Uefi,
            ) || c.boot.uefi && !c.boot.igvm && !c.boot.pcat)
            &&& features.variables is Some ==> {
                let store = features.variables->0;
                &&& store.secure_boot == f.secure_boot
                &&& store.custom_variables == f.custom_variables
                &&& store.persistent <==> f.vmgs is Some
                &&& store.template is None <==> f.secure_boot_template is Bare
            }
        }),
{
    reveal(firmware_options);
    reveal(are_features);
}

/// A launched machine keeps its guest state where it was chosen to be kept, unless its
/// paravisor takes it over, which it does wherever there is a channel to it and the
/// machine has enlightenments. A microVM has no guest state.
pub proof fn law_paravisor_takes_over_the_guest_state(
    c: LaunchChoices,
    front: LaunchFront,
    recorded: Option<String>,
    image: HostFile,
    initrd: Option<HostFile>,
    smbios: SmbiosConfig,
    r: Result<LaunchPlan, Refusal>,
)
    requires
        call_ensures(plan_launch, (c, &front, recorded, image, initrd, smbios), r),
        r is Ok,
    ensures
        r->Ok_0.guest_emulation is Some <==> front.with_get && r->Ok_0.with_hv,
        r->Ok_0.guest_emulation is Some ==> r->Ok_0.vmgs is None,
        r->Ok_0.guest_emulation is None && c.machine is Standard ==> r->Ok_0.vmgs is Some && (
        r->Ok_0.vmgs->0 is Ephemeral <==> c.firmware.vmgs is None),
        c.machine is Microvm ==> r->Ok_0.vmgs is None && c.firmware.vmgs is None,
        r->Ok_0.isolation is Some <==> c.isolation is Some,
        r->Ok_0.isolation is Some ==> (r->Ok_0.isolation->0 is Snp <==> c.isolation->0 is Snp),
{
    reveal(guest_state);
}

/// A trusted platform module is of the chosen version and bound to the identity of its
/// machine; it is left to the paravisor where there is one.
pub proof fn law_launched_tpm_is_the_chosen_one(
    c: LaunchChoices,
    front: LaunchFront,
    recorded: Option<String>,
    image: HostFile,
    initrd: Option<HostFile>,
    smbios: SmbiosConfig,
    r: Result<LaunchPlan, Refusal>,
)
    requires
        call_ensures(plan_launch, (c, &front, recorded, image, initrd, smbios), r),
        r is Ok,
    ensures
        r->Ok_0.tpm is Some <==> c.firmware.tpm is Some && !c.vtl2,
        r->Ok_0.tpm matches Some(tpm) ==> Some(tpm.version) == c.firmware.tpm && tpm.bios_guid
            == smbios.system.uuid && (tpm.persistent <==> c.firmware.vmgs is Some) && (
        tpm.register_layout is IoPort <==> c.arch is X86_64),
{
    reveal(tpm_of);
}

/// The paravisor of a launched machine is told the chosen settings, each under its own
/// name, and the whole identity of the machine.
pub proof fn law_paravisor_is_told_the_choices(
    c: LaunchChoices,
    front: LaunchFront,
    recorded: Option<String>,
    image: HostFile,
    initrd: Option<HostFile>,
    smbios: SmbiosConfig,
    r: Result<LaunchPlan, Refusal>,
)
    requires
        call_ensures(plan_launch, (c, &front, recorded, image, initrd, smbios), r),
        r is Ok,
        r->Ok_0.guest_emulation is Some,
    ensures
        ({
            let told = r->Ok_0.guest_emulation->0;
            let f = c.firmware;
            &&& told.smbios == smbios && told.tpm == f.tpm
            &&& told.com1 == f.vmbus_serial1 && told.com2 == f.vmbus_serial2
            &&& told.serial_tx_only == f.serial_tx_only && told.vmbus_redirection
                == c.vmbus_redirect
            &&& told.secure_boot == f.secure_boot && told.secure_boot_template
                == f.secure_boot_template
            &&& told.battery == f.battery && told.hibernation == f.hibernation
            &&& told.force_dma_bounce == f.force_dma_bounce && told.framebuffer == f.vtl2_gfx
            &&& told.test_gsp_by_id == f.test_gsp_by_id && told.no_persistent_secrets
            &&& f.log_level is Some ==> told.log_level == f.log_level->0
            &&& f.log_level is None ==> told.log_level is Default
            &&& told.firmware is Pcat <==> c.boot.pcat
            &&& told.firmware is Uefi ==> told.firmware->enable_vpci_boot == c.has_guest_nvme
                && told.firmware->firmware_debug == f.uefi_debug
        }),
{
    lemma_told(
        r->Ok_0.guest_emulation->0,
        firmware_options(c),
        guest_state(c),
        c.has_guest_nvme,
        smbios,
    );
    reveal(firmware_options);
}

proof fn lemma_told(
    told: GuestEmulationPlan,
    opt: FirmwareOptions,
    vmgs: Option<VmgsResource>,
    has_nvme: bool,
    smbios: SmbiosConfig,
)
    requires
        is_guest_emulation(told, opt, vmgs, has_nvme, smbios),
    ensures
        told.smbios == smbios && told.tpm == opt.tpm && told.vmgs == vmgs,
        told.com1 == opt.vmbus_serial1 && told.com2 == opt.vmbus_serial2,
        told.serial_tx_only == opt.serial_tx_only && told.vmbus_redirection == opt.vmbus_redirect,
        told.secure_boot == opt.secure_boot && told.secure_boot_template
            == opt.secure_boot_template,
        told.battery == opt.battery && told.hibernation == opt.hibernation,
        told.force_dma_bounce == opt.force_dma_bounce && told.framebuffer == opt.vtl2_gfx,
        told.test_gsp_by_id == opt.test_gsp_by_id && told.no_persistent_secrets,
        opt.log_level is Some ==> told.log_level == opt.log_level->0,
        opt.log_level is None ==> told.log_level is Default,
        told.firmware is Pcat <==> opt.pcat,
        told.firmware is Uefi ==> told.firmware->enable_vpci_boot == has_nvme
            && told.firmware->firmware_debug == opt.uefi_debug,
{
    reveal(is_guest_emulation);
}

/// The devices on VMBus of a launched machine are the chosen ones: the screen and its
/// input with graphics, the integration services where the guest has VMBus, and the
/// serial ports and crash dumps that were chosen, for the paravisor where there is one.
pub proof fn law_launched_vmbus_has_the_chosen_devices(
    c: LaunchChoices,
    front: LaunchFront,
    recorded: Option<String>,
    image: HostFile,
    initrd: Option<HostFile>,
    smbios: SmbiosConfig,
    r: Result<LaunchPlan, Refusal>,
)
    requires
        call_ensures(plan_launch, (c, &front, recorded, image, initrd, smbios), r),
        r is Ok,
        c.nics@.len() <= usize::MAX,
    ensures
        ({
            let list = r->Ok_0.buses.vmbus;
            let own = if c.vtl2 {
                DeviceVtl::Vtl2
            } else {
                DeviceVtl::Vtl0
            };
            let guest = DeviceVtl::Vtl0;
            &&& list@.contains((own, VmbusKind::Serial1)) <==> c.firmware.vmbus_serial1
            &&& list@.contains((own, VmbusKind::Serial2)) <==> c.firmware.vmbus_serial2
            &&& list@.contains((own, VmbusKind::CrashDump)) <==> c.crash_dump
            &&& list@.contains((guest, VmbusKind::Video)) <==> c.firmware.gfx
            &&& list@.contains((guest, VmbusKind::DefaultNic)) <==> c.default_nic
            &&& list@.contains((guest, VmbusKind::ConfigurationHive)) <==> c.configuration_hive
            &&& list@.contains((guest, VmbusKind::ShutdownIc)) <==> r->Ok_0.with_hv
                && !c.no_vmbus
            &&& list@.contains((own, VmbusKind::GuestEmulationDevice))
                <==> r->Ok_0.guest_emulation is Some
        }),
{
    reveal(vmbus_options);
    reveal(are_on_buses);
    let opt = vmbus_options(c, front, r->Ok_0.with_hv);
    let own = if c.vtl2 {
        DeviceVtl::Vtl2
    } else {
        DeviceVtl::Vtl0
    };
    let guest = DeviceVtl::Vtl0;
    lemma_offered(opt, own, VmbusKind::Serial1);
    lemma_offered(opt, own, VmbusKind::Serial2);
    lemma_offered(opt, own, VmbusKind::CrashDump);
    lemma_offered(opt, guest, VmbusKind::Video);
    lemma_offered(opt, guest, VmbusKind::DefaultNic);
    lemma_offered(opt, guest, VmbusKind::ConfigurationHive);
    lemma_offered(opt, guest, VmbusKind::ShutdownIc);
    lemma_offered(opt, own, VmbusKind::GuestEmulationDevice);
}

/// The virtio devices that a launch lists are the chosen ones, and a microVM's are those
/// that its front decided on: its network, its exported directory and its console.
pub proof fn law_virtio_choices_reach_the_machine(c: LaunchChoices, front: LaunchFront)
    ensures
        ({
            let opt = virtio_options(c, front);
            let v = c.virtio;
            &&& opt.microvm <==> c.machine is Microvm
            &&& opt.microvm_network <==> front.network is Some
            &&& opt.microvm_filesystem_slot == front.filesystem_slot
            &&& opt.microvm_filesystem_mounted <==> front.filesystem is Some
            &&& opt.net == v.net && opt.host_fs == v.host_fs && opt.shared_memory_fs
                == v.shared_memory_fs && opt.plan9 == v.plan9 && opt.vhost_user == v.vhost_user
            &&& opt.fs_bus == v.fs_bus && opt.entropy_bus == v.entropy_bus && opt.vsock_bus
                == v.vsock_bus
            &&& opt.persistent_memory == v.persistent_memory && opt.persistent_memory_port
                == v.persistent_memory_port
            &&& opt.entropy == v.entropy && opt.entropy_port == v.entropy_port
            &&& opt.vsock == v.vsock && opt.vhost_vsock_cid == v.vhost_vsock_cid
            &&& c.machine is Microvm ==> (opt.console <==> front.console is Some)
            &&& c.machine is Standard ==> opt.console == v.console && opt.console_port
                == v.console_port
        }),
{
    reveal(virtio_options);
}

} // verus!
