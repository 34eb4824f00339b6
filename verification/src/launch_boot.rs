//! How a launched machine boots.

use vstd::prelude::*;

use crate::chipset::{IgvmPersonality, IsolationRequest};
use crate::config::{
    default_pcat_boot_order, GuestArch, GuestStateEncryptionPolicy, HostFile,
    LinuxDirectBootMode, LinuxIsolationConfig, LoadMode, PcatBootDevice, SerialInformation, SmbiosConfig, UefiConsoleMode, VmgsResource,
    Vtl2BaseAddressType,
};
use crate::microvm::{
    build_console_command_line, command_line_on, user_args_refusal,
    MICROVM_COMMAND_LINE_MAX_SIZE,
};
use crate::refusal::{refusal_of, refuse, Refusal};
use crate::text::{byte_len, push_text, string_views};

verus! {

/// The options of the UEFI firmware.
#[derive(Clone, Copy, Debug, PartialEq, Eq, Structural)]
pub struct UefiOptions {
    /// Whether a firmware image is given.
    pub firmware: bool,
    pub debug: bool,
    pub enable_memory_protections: bool,
    pub disable_frontpage: bool,
    pub enable_tpm: bool,
    pub enable_battery: bool,
    pub console_mode: Option<UefiConsoleMode>,
    pub default_boot_always_attempt: bool,
    pub force_dma_bounce: bool,
    pub no_vmbus: bool,
}

/// The options that decide how a machine boots.
#[derive(Debug)]
pub struct BootOptions {
    pub microvm: bool,
    /// Whether a microVM has a virtio console.
    pub microvm_console: bool,
    pub arch: GuestArch,
    /// Whether a kernel is given.
    pub kernel: bool,
    pub cmdline: Vec<String>,
    /// Whether the machine is restored from a snapshot.
    pub restore_snapshot: bool,
    pub igvm: bool,
    pub igvm_personality: Option<IgvmPersonality>,
    pub igvm_vtl2_relocation: Vtl2BaseAddressType,
    pub pcat: bool,
    pub pcat_boot_order: Option<[PcatBootDevice; 4]>,
    pub uefi: bool,
    pub uefi_options: UefiOptions,
    pub hv: bool,
    pub no_hv: bool,
    pub vtl2: bool,
    /// Whether the machine has a guest emulation channel.
    pub with_get: bool,
    pub hibernation: bool,
    pub isolation: Option<IsolationRequest>,
    pub snp_restricted_injection: bool,
    pub device_tree: bool,
    pub gfx: bool,
    /// Whether the machine has a PCIe root complex.
    pub has_root_complex: bool,
    /// Whether any of the serial ports is connected.
    pub any_serial: bool,
    /// The third serial port, where it is connected.
    pub com3: Option<SerialInformation>,
    /// Whether the options ask for an SMBIOS identity.
    pub smbios_requested: bool,
}

/// The joined arguments of a kernel, separated by blanks.
pub open spec fn joined(args: Seq<Seq<char>>) -> Seq<char>
    decreases args.len(),
{
    if args.len() == 0 {
        Seq::empty()
    } else if args.len() == 1 {
        args[0]
    } else {
        joined(args.drop_last()) + seq![' '] + args.last()
    }
}

/// Arguments behind a command line, each after a blank.
pub open spec fn appended(args: Seq<Seq<char>>) -> Seq<char>
    decreases args.len(),
{
    if args.len() == 0 {
        Seq::empty()
    } else {
        appended(args.drop_last()) + " "@ + args.last()
    }
}

fn join_args(args: &Vec<String>) -> (line: String)
    ensures
        line@ == joined(string_views(args@)),
{
    let ghost all = string_views(args@);
    let mut line = String::new();
    let mut i: usize = 0;
    assert(line@ =~= joined(all.take(0)));
    while i < args.len()
        invariant
            i <= args@.len(),
            all == string_views(args@),
            line@ == joined(all.take(i as int)),
        decreases args@.len() - i,
    {
        proof {
            assert(all.take(i + 1).drop_last() =~= all.take(i as int));
            assert(all.take(i + 1).last() == args@[i as int]@);
        }
        let ghost before = line@;
        if i > 0 {
            line.push(' ');
        }
        push_text(&mut line, args[i].as_str());
        proof {
            if i > 0 {
                assert(line@ =~= before + seq![' '] + args@[i as int]@);
            } else {
                assert(all.take(1)[0] == args@[0]@);
                assert(line@ =~= args@[0]@);
            }
        }
        i += 1;
    }
    assert(all.take(i as int) =~= all);
    line
}

fn append_args(line: &mut String, args: &Vec<String>)
    ensures
        final(line)@ == old(line)@ + appended(string_views(args@)),
{
    let ghost all = string_views(args@);
    let ghost start = line@;
    let mut i: usize = 0;
    assert(line@ =~= start + appended(all.take(0)));
    while i < args.len()
        invariant
            i <= args@.len(),
            all == string_views(args@),
            line@ == start + appended(all.take(i as int)),
        decreases args@.len() - i,
    {
        proof {
            assert(all.take(i + 1).drop_last() =~= all.take(i as int));
            assert(all.take(i + 1).last() == args@[i as int]@);
        }
        push_text(line, " ");
        push_text(line, args[i].as_str());
        assert(line@ =~= start + appended(all.take(i + 1)));
        i += 1;
    }
    assert(all.take(i as int) =~= all);
}

/// The command line of a kernel that is booted directly.
pub open spec fn linux_command_line(opt: BootOptions, console: Seq<char>) -> Seq<char> {
    "panic=-1 debug"@ + (if opt.hv && !opt.has_root_complex {
        " pci=off"@
    } else {
        Seq::empty()
    }) + (if console.len() != 0 {
        " console="@ + console
    } else {
        Seq::empty()
    }) + (if opt.gfx {
        " console=tty"@
    } else {
        Seq::empty()
    }) + appended(string_views(opt.cmdline@))
}

fn make_linux_command_line(opt: &BootOptions, console: &str) -> (line: String)
    ensures
        line@ == linux_command_line(*opt, console@),
{
    let mut line = "panic=-1 debug".to_owned();
    if opt.hv && !opt.has_root_complex {
        push_text(&mut line, " pci=off");
    }
    if !console.is_empty() {
        push_text(&mut line, " console=");
        push_text(&mut line, console);
    }
    if opt.gfx {
        push_text(&mut line, " console=tty");
    }
    let ghost before = line@;
    append_args(&mut line, &opt.cmdline);
    assert(line@ =~= linux_command_line(*opt, console@));
    line
}

/// Why a microVM cannot boot, if it cannot. A restored one keeps the recorded
/// command line.
pub open spec fn microvm_boot_refusal(opt: BootOptions, restored: bool) -> Option<Seq<char>> {
    let args = string_views(opt.cmdline@);
    if opt.arch != GuestArch::X86_64 {
        Some("the microVM profile requires an x86-64 guest"@)
    } else if opt.igvm || opt.pcat || opt.uefi {
        Some("the microVM profile requires Xen PVH direct boot"@)
    } else if restored {
        None
    } else if !opt.kernel {
        Some("must provide a PVH kernel when using --machine microvm"@)
    } else if user_args_refusal(args) is Some {
        user_args_refusal(args)
    } else if byte_len(command_line_on(opt.microvm_console, args)) >= MICROVM_COMMAND_LINE_MAX_SIZE {
        Some("microVM kernel command line exceeds the 64-KiB ABI limit"@)
    } else {
        None
    }
}

/// An IGVM image has the hypervisor's enlightenments.
pub open spec fn igvm_with_hv(opt: BootOptions) -> bool {
    if opt.igvm_personality == Some(IgvmPersonality::LinuxDirect) {
        opt.hv
    } else {
        true
    }
}

/// Why a machine cannot boot as it is asked to, if it cannot.
pub open spec fn launch_boot_refusal(opt: BootOptions, recorded: bool) -> Option<Seq<char>> {
    if opt.microvm {
        microvm_boot_refusal(opt, recorded)
    } else if opt.restore_snapshot {
        None
    } else if opt.igvm {
        if opt.smbios_requested && !(opt.with_get && igvm_with_hv(opt)) {
            Some("--smbios is not supported for IGVM launches without an OpenHCL GET channel"@)
        } else {
            None
        }
    } else if opt.pcat {
        if opt.arch != GuestArch::X86_64 {
            Some("pcat not supported on this architecture"@)
        } else {
            None
        }
    } else if opt.uefi {
        if opt.no_hv && opt.arch == GuestArch::X86_64 {
            Some("--no-hv is not supported on x86_64"@)
        } else if !opt.uefi_options.firmware {
            Some("must provide uefi firmware when booting with uefi"@)
        } else {
            None
        }
    } else if !opt.kernel {
        Some("must provide kernel when booting with linux direct"@)
    } else {
        None
    }
}

/// The machine has the hypervisor's enlightenments.
pub open spec fn launch_with_hv(opt: BootOptions) -> bool {
    if opt.microvm {
        false
    } else if opt.restore_snapshot {
        true
    } else if opt.igvm {
        igvm_with_hv(opt)
    } else if opt.pcat {
        true
    } else if opt.uefi {
        !opt.no_hv
    } else {
        opt.hv
    }
}

/// The load mode is the one that options describe.
pub open spec fn is_launch_mode(
    mode: LoadMode,
    opt: BootOptions,
    recorded: Option<Seq<char>>,
    console: Seq<char>,
    image: HostFile,
    initrd: Option<HostFile>,
    smbios: SmbiosConfig,
) -> bool {
    if opt.microvm {
        mode matches LoadMode::Pvh { kernel, initrd: i, cmdline } && kernel == image && i == (
        if recorded is Some {
            None
        } else {
            initrd
        }) && cmdline@ == (match recorded {
            Some(line) => line,
            None => command_line_on(opt.microvm_console, string_views(opt.cmdline@)),
        })
    } else if opt.restore_snapshot {
        mode is Nothing
    } else if opt.igvm {
        mode matches LoadMode::Igvm { file, cmdline, vtl2_base_address, com_serial } && file
            == image && cmdline@ == joined(string_views(opt.cmdline@)) && vtl2_base_address == (
        if opt.vtl2 {
            opt.igvm_vtl2_relocation
        } else {
            Vtl2BaseAddressType::File
        }) && com_serial == opt.com3
    } else if opt.pcat {
        mode matches LoadMode::Pcat { firmware, boot_order, hibernation_enabled, smbios: s }
            && firmware == image && hibernation_enabled == opt.hibernation && s == smbios && (
        match opt.pcat_boot_order {
            Some(order) => boot_order == order,
            None => boot_order@ == seq![
                PcatBootDevice::Optical,
                PcatBootDevice::HardDrive,
                PcatBootDevice::Network,
                PcatBootDevice::Floppy,
            ],
        })
    } else if opt.uefi {
        let u = opt.uefi_options;
        mode matches LoadMode::Uefi {
            firmware,
            enable_debugging,
            enable_memory_protections,
            disable_frontpage,
            enable_tpm,
            enable_battery,
            enable_serial,
            enable_vpci_boot,
            uefi_console_mode,
            default_boot_always_attempt,
            enable_vmbus,
            force_dma_bounce,
            enable_hv,
            hibernation_enabled,
            smbios: s,
        } && firmware == image && enable_debugging == u.debug && enable_memory_protections
            == u.enable_memory_protections && disable_frontpage == u.disable_frontpage
            && enable_tpm == u.enable_tpm && enable_battery == u.enable_battery && enable_serial
            == opt.any_serial && !enable_vpci_boot && uefi_console_mode == u.console_mode
            && default_boot_always_attempt == u.default_boot_always_attempt && enable_vmbus
            == !u.no_vmbus && force_dma_bounce == u.force_dma_bounce && enable_hv == !opt.no_hv
            && hibernation_enabled == opt.hibernation && s == smbios
    } else {
        mode matches LoadMode::Linux {
            kernel,
            initrd: i,
            cmdline,
            enable_serial,
            isolation,
            boot_mode,
            smbios: s,
        } && kernel == image && i == initrd && cmdline@ == linux_command_line(opt, console)
            && enable_serial == opt.any_serial && isolation == (if opt.isolation == Some(
            IsolationRequest::Snp,
        ) {
            LinuxIsolationConfig::Snp { restricted_injection: opt.snp_restricted_injection }
        } else {
            LinuxIsolationConfig::NoIsolation
        }) && boot_mode == (if opt.device_tree {
            LinuxDirectBootMode::DeviceTree
        } else {
            LinuxDirectBootMode::Acpi
        }) && s == smbios
    }
}

fn microvm_load_mode(
    opt: &BootOptions,
    recorded: Option<String>,
    image: HostFile,
    initrd: Option<HostFile>,
) -> (r: Result<LoadMode, Refusal>)
    ensures
        refusal_of(r) == microvm_boot_refusal(*opt, recorded is Some),
        r is Ok ==> (r->Ok_0 matches LoadMode::Pvh { kernel, initrd: i, cmdline } && kernel
            == image && i == (if recorded is Some {
            None
        } else {
            initrd
        }) && cmdline@ == (match recorded {
            Some(line) => line@,
            None => command_line_on(opt.microvm_console, string_views(opt.cmdline@)),
        })),
{
    if opt.arch != GuestArch::X86_64 {
        return Err(refuse("the microVM profile requires an x86-64 guest"));
    }
    if opt.igvm || opt.pcat || opt.uefi {
        return Err(refuse("the microVM profile requires Xen PVH direct boot"));
    }
    match recorded {
        Some(cmdline) => Ok(LoadMode::Pvh { kernel: image, initrd: None, cmdline }),
        None => {
            if !opt.kernel {
                return Err(refuse("must provide a PVH kernel when using --machine microvm"));
            }
            match build_console_command_line(opt.cmdline.as_slice(), opt.microvm_console) {
                Ok(cmdline) => Ok(LoadMode::Pvh { kernel: image, initrd, cmdline }),
                Err(e) => Err(e),
            }
        },
    }
}

/// Selects how a machine boots, and whether it has the hypervisor's
/// enlightenments. The command line that a microVM snapshot records is given where
/// the machine is restored from one.
pub fn select_load_mode(
    opt: &BootOptions,
    recorded: Option<String>,
    console: &str,
    image: HostFile,
    initrd: Option<HostFile>,
    smbios: SmbiosConfig,
) -> (r: Result<(LoadMode, bool), Refusal>)
    ensures
        refusal_of(r) == launch_boot_refusal(*opt, recorded is Some),
        r is Ok ==> {
            &&& is_launch_mode(
                r->Ok_0.0,
                *opt,
                (match recorded {
                    Some(line) => Some(line@),
                    None => None,
                }),
                console@,
                image,
                initrd,
                smbios,
            )
            &&& r->Ok_0.1 == launch_with_hv(*opt)
        },
{
    if opt.microvm {
        return match microvm_load_mode(opt, recorded, image, initrd) {
            Ok(mode) => Ok((mode, false)),
            Err(e) => Err(e),
        };
    }
    if opt.restore_snapshot {
        return Ok((LoadMode::Nothing, true));
    }
    if opt.igvm {
        let with_hv = match opt.igvm_personality {
            Some(IgvmPersonality::LinuxDirect) => opt.hv,
            _ => true,
        };
        if opt.smbios_requested && !(opt.with_get && with_hv) {
            return Err(
                refuse(
                    "--smbios is not supported for IGVM launches without an OpenHCL GET channel",
                ),
            );
        }
        let vtl2_base_address = if opt.vtl2 {
            opt.igvm_vtl2_relocation
        } else {
            Vtl2BaseAddressType::File
        };
        let mode = LoadMode::Igvm {
            file: image,
            cmdline: join_args(&opt.cmdline),
            vtl2_base_address,
            com_serial: opt.com3,
        };
        return Ok((mode, with_hv));
    }
    if opt.pcat {
        if opt.arch != GuestArch::X86_64 {
            return Err(refuse("pcat not supported on this architecture"));
        }
        let boot_order: [PcatBootDevice; 4] = match opt.pcat_boot_order {
            Some(order) => order,
            None => default_pcat_boot_order(),
        };
        let mode = LoadMode::Pcat {
            firmware: image,
            boot_order,
            hibernation_enabled: opt.hibernation,
            smbios,
        };
        return Ok((mode, true));
    }
    if opt.uefi {
        if opt.no_hv && opt.arch == GuestArch::X86_64 {
            return Err(refuse("--no-hv is not supported on x86_64"));
        }
        if !opt.uefi_options.firmware {
            return Err(refuse("must provide uefi firmware when booting with uefi"));
        }
        let mode = LoadMode::Uefi {
            firmware: image,
            enable_debugging: opt.uefi_options.debug,
            enable_memory_protections: opt.uefi_options.enable_memory_protections,
            disable_frontpage: opt.uefi_options.disable_frontpage,
            enable_tpm: opt.uefi_options.enable_tpm,
            enable_battery: opt.uefi_options.enable_battery,
            enable_serial: opt.any_serial,
            enable_vpci_boot: false,
            uefi_console_mode: opt.uefi_options.console_mode,
            default_boot_always_attempt: opt.uefi_options.default_boot_always_attempt,
            enable_vmbus: !opt.uefi_options.no_vmbus,
            force_dma_bounce: opt.uefi_options.force_dma_bounce,
            enable_hv: !opt.no_hv,
            hibernation_enabled: opt.hibernation,
            smbios,
        };
        return Ok((mode, !opt.no_hv));
    }
    if !opt.kernel {
        return Err(refuse("must provide kernel when booting with linux direct"));
    }
    let isolation = match opt.isolation {
        Some(IsolationRequest::Snp) => LinuxIsolationConfig::Snp {
            restricted_injection: opt.snp_restricted_injection,
        },
        _ => LinuxIsolationConfig::NoIsolation,
    };
    let boot_mode = if opt.device_tree {
        LinuxDirectBootMode::DeviceTree
    } else {
        LinuxDirectBootMode::Acpi
    };
    let mode = LoadMode::Linux {
        kernel: image,
        initrd,
        cmdline: make_linux_command_line(opt, console),
        enable_serial: opt.any_serial,
        isolation,
        boot_mode,
        smbios,
    };
    Ok((mode, opt.hv))
}

/// When a guest state file is made anew.
#[derive(Clone, Copy, Debug, PartialEq, Eq, Structural)]
pub enum ProvisionVmgs {
    OnEmpty,
    OnFailure,
    True,
}

/// The encryption of a guest state file.
pub open spec fn guest_state_policy(test_gsp_by_id: bool) -> GuestStateEncryptionPolicy {
    if test_gsp_by_id {
        GuestStateEncryptionPolicy::GspById(true)
    } else {
        GuestStateEncryptionPolicy::Unencrypted(true)
    }
}

/// The guest state storage that options ask for.
pub open spec fn guest_state_of(
    vmgs: Option<ProvisionVmgs>,
    test_gsp_by_id: bool,
) -> VmgsResource {
    let policy = guest_state_policy(test_gsp_by_id);
    match vmgs {
        None => VmgsResource::Ephemeral,
        Some(ProvisionVmgs::OnEmpty) => VmgsResource::Disk(policy),
        Some(ProvisionVmgs::OnFailure) => VmgsResource::ReprovisionOnFailure(policy),
        Some(ProvisionVmgs::True) => VmgsResource::Reprovision(policy),
    }
}

/// Selects the guest state storage of a machine. A microVM has none; where there
/// is a guest emulation channel, the channel takes it over.
pub fn select_vmgs(microvm: bool, vmgs: Option<ProvisionVmgs>, test_gsp_by_id: bool) -> (r: Result<
    Option<VmgsResource>,
    Refusal,
>)
    ensures
        refusal_of(r) == (if microvm && vmgs is Some {
            Some("microVM does not support VMGS"@)
        } else {
            None
        }),
        r is Ok ==> r->Ok_0 == (if microvm {
            None
        } else {
            Some(guest_state_of(vmgs, test_gsp_by_id))
        }),
{
    if microvm {
        if vmgs.is_some() {
            return Err(refuse("microVM does not support VMGS"));
        }
        return Ok(None);
    }
    let policy = if test_gsp_by_id {
        GuestStateEncryptionPolicy::GspById(true)
    } else {
        GuestStateEncryptionPolicy::Unencrypted(true)
    };
    Ok(
        Some(
            match vmgs {
                None => VmgsResource::Ephemeral,
                Some(ProvisionVmgs::OnEmpty) => VmgsResource::Disk(policy),
                Some(ProvisionVmgs::OnFailure) => VmgsResource::ReprovisionOnFailure(policy),
                Some(ProvisionVmgs::True) => VmgsResource::Reprovision(policy),
            },
        ),
    )
}

/// Whether the firmware's variable store and runtime services are part of the
/// machine.
pub fn uses_uefi_device(uefi: bool, igvm: bool, pcat: bool, personality: Option<IgvmPersonality>) -> (
    b: bool)
    ensures
        b == (uefi && !igvm && !pcat || personality == Some(IgvmPersonality::Uefi)),
{
    let image_is_uefi = match personality {
        Some(IgvmPersonality::Uefi) => true,
        _ => false,
    };
    uefi && !igvm && !pcat || image_is_uefi
}

} // verus!
