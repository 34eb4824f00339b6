//! What holds of machines that are launched from the command line.

use vstd::prelude::*;

use crate::chipset::{IgvmPersonality, IsolationRequest};
use crate::config::{
    ArchTopologyConfig, Config, HostFile, HostOs, HypervisorConfig, IsolationType,
    LinuxIsolationConfig, LoadMode, MemoryConfig, NumaDistance, NumaTopology,
    ProcessorTopologyConfig, SmbiosConfig, VirtioBus, VmbusConfig, VmgsResource, VpAssignment,
};
use crate::console::VirtioConsoleAttachment;
use crate::create::ConsoleDisconnectPolicy;
use crate::launch::{
    console_disconnect_policy, finish_config, hypervisor_config, launch_numa,
    microvm_memory_capacity, needs_framebuffer, numa_refusal, place_virtio, processor_topology,
    requested_hypervisor, select_isolation, validate_snp_config, vmbus_configs, with_get,
    with_tier, ArchOption, FinishOptions, LateMapOption, MemoryOptions, NumaOptions, SmtOption,
    VirtioBusOption, VirtioPlace, VmbusOptions,
};
use crate::launch_boot::{
    appended, joined, linux_command_line, select_load_mode, select_vmgs, uses_uefi_device,
    BootOptions, ProvisionVmgs,
};
use crate::microvm::blank_joined;
use crate::microvm_laws::{all_words, lemma_words_blank, lemma_words_joined, lemma_words_of_word};
use crate::refusal::Refusal;
use crate::snapshot::SnapshotMachineContract;
use crate::text::{is_word, string_views, words};

verus! {

/// The machine boots a Linux kernel directly.
pub open spec fn boots_linux(opt: BootOptions) -> bool {
    !opt.microvm && !opt.restore_snapshot && !opt.igvm && !opt.pcat && !opt.uefi
}

proof fn lemma_appended(args: Seq<Seq<char>>)
    ensures
        appended(args) == blank_joined(args),
    decreases args.len(),
{
    reveal_strlit(" ");
    if args.len() > 0 {
        lemma_appended(args.drop_last());
        assert(" "@ =~= seq![' ']);
    }
}

/// A blank and one word, behind a text, is one more word.
proof fn lemma_one_more_word(line: Seq<char>, part: Seq<char>, word: Seq<char>)
    requires
        part == seq![' '] + word,
        is_word(word),
    ensures
        words(line + part) == words(line).push(word),
{
    assert(line + part =~= line + seq![' '] + word);
    lemma_words_blank(line, word);
    lemma_words_of_word(word);
    assert(words(line) + seq![word] =~= words(line).push(word));
}

/// The words that the host puts on the command line of a directly booted Linux.
pub open spec fn host_words(opt: BootOptions, console: Seq<char>) -> Seq<Seq<char>> {
    let all = words(linux_command_line(opt, console));
    all.take(all.len() - all_words(string_views(opt.cmdline@)).len())
}

/// A console that can be named on a command line, or none at all.
pub open spec fn console_name(console: Seq<char>) -> bool {
    console.len() == 0 || is_word(console)
}

proof fn lemma_literals()
    ensures
        "panic=-1 debug"@ == "panic=-1"@ + seq![' '] + "debug"@,
        " pci=off"@ == seq![' '] + "pci=off"@,
        " console=tty"@ == seq![' '] + "console=tty"@,
        " console="@ == seq![' '] + "console="@,
        is_word("panic=-1"@),
        is_word("debug"@),
        is_word("pci=off"@),
        is_word("console=tty"@),
        is_word("console="@),
        "pci=off"@.len() == 7 && "pci=off"@[0] == 'p',
        "debug"@.len() == 5,
        "panic=-1"@.len() == 8 && "panic=-1"@[0] == 'p',
        "console=tty"@[0] == 'c',
        "console="@.len() == 8 && "console="@[0] == 'c',
{
    reveal_strlit("panic=-1 debug");
    reveal_strlit("panic=-1");
    reveal_strlit("debug");
    reveal_strlit(" pci=off");
    reveal_strlit("pci=off");
    reveal_strlit(" console=tty");
    reveal_strlit("console=tty");
    reveal_strlit(" console=");
    reveal_strlit("console=");
    assert("panic=-1 debug"@ =~= "panic=-1"@ + seq![' '] + "debug"@);
    assert(" pci=off"@ =~= seq![' '] + "pci=off"@);
    assert(" console=tty"@ =~= seq![' '] + "console=tty"@);
    assert(" console="@ =~= seq![' '] + "console="@);
}

/// The words of the command line, part by part.
proof fn lemma_linux_words(opt: BootOptions, console: Seq<char>)
    requires
        console_name(console),
    ensures
        ({
            let start = seq!["panic=-1"@, "debug"@];
            let off = if opt.hv && !opt.has_root_complex {
                start.push("pci=off"@)
            } else {
                start
            };
            let named = if console.len() > 0 {
                off.push("console="@ + console)
            } else {
                off
            };
            let shown = if opt.gfx {
                named.push("console=tty"@)
            } else {
                named
            };
            words(linux_command_line(opt, console)) == shown + all_words(
                string_views(opt.cmdline@),
            ) && host_words(opt, console) == shown
        }),
{
    lemma_literals();
    let start = "panic=-1 debug"@;
    lemma_words_blank("panic=-1"@, "debug"@);
    lemma_words_of_word("panic=-1"@);
    lemma_words_of_word("debug"@);
    assert(words(start) =~= seq!["panic=-1"@, "debug"@]);
    let off = start + (if opt.hv && !opt.has_root_complex {
        " pci=off"@
    } else {
        Seq::empty()
    });
    if opt.hv && !opt.has_root_complex {
        lemma_one_more_word(start, " pci=off"@, "pci=off"@);
    } else {
        assert(off =~= start);
    }
    let named = off + (if console.len() != 0 {
        " console="@ + console
    } else {
        Seq::empty()
    });
    if console.len() != 0 {
        let word = "console="@ + console;
        assert forall|i: int| 0 <= i < word.len() implies !crate::text::is_space(
            #[trigger] word[i],
        ) by {
            if i < 8 {
                assert(word[i] == "console="@[i]);
            } else {
                assert(word[i] == console[i - 8]);
            }
        }
        assert(" console="@ + console =~= seq![' '] + word);
        lemma_one_more_word(off, " console="@ + console, word);
    } else {
        assert(named =~= off);
    }
    let shown = named + (if opt.gfx {
        " console=tty"@
    } else {
        Seq::empty()
    });
    if opt.gfx {
        lemma_one_more_word(named, " console=tty"@, "console=tty"@);
    } else {
        assert(shown =~= named);
    }
    let args = string_views(opt.cmdline@);
    lemma_appended(args);
    lemma_words_joined(shown, args);
    assert(linux_command_line(opt, console) == shown + blank_joined(args));
    let all = words(linux_command_line(opt, console));
    assert(all.take(all.len() - all_words(args).len()) =~= words(shown));
}

/// Among the words that the host puts on the command line of a directly booted Linux is
/// `pci=off` exactly where the machine has the hypervisor's enlightenments and no PCIe
/// root complex.
pub proof fn law_words_of_linux(opt: BootOptions, console: Seq<char>)
    requires
        console_name(console),
    ensures
        words(linux_command_line(opt, console)) == host_words(opt, console) + all_words(
            string_views(opt.cmdline@),
        ),
        host_words(opt, console).contains("pci=off"@) <==> opt.hv && !opt.has_root_complex,
{
    lemma_literals();
    lemma_linux_words(opt, console);
    let host = host_words(opt, console);
    let off = "pci=off"@;
    if console.len() > 0 {
        assert(("console="@ + console)[0] == 'c');
    }
    if opt.hv && !opt.has_root_complex {
        assert(host[2] == off);
    } else {
        assert forall|i: int| 0 <= i < host.len() implies host[i] != off by {
            assert(host[i] == "panic=-1"@ || host[i] == "debug"@ || host[i] == "console="@
                + console || host[i] == "console=tty"@);
        }
    }
}

/// PCI is switched off for a directly booted Linux only where it would look for a bus
/// that is not there: the word is among those that the host puts on the command
/// line exactly when the machine has the hypervisor's enlightenments and no PCIe
/// root complex. A machine without enlightenments never gets it from the host.
pub proof fn law_pci_is_off_only_where_there_is_none(
    opt: BootOptions,
    recorded: Option<String>,
    console: &str,
    image: HostFile,
    initrd: Option<HostFile>,
    smbios: SmbiosConfig,
    r: Result<(LoadMode, bool), Refusal>,
)
    requires
        call_ensures(select_load_mode, (&opt, recorded, console, image, initrd, smbios), r),
        boots_linux(opt),
        console_name(console@),
        r is Ok,
    ensures
        r->Ok_0.0 matches LoadMode::Linux { cmdline, .. } && {
            let all = words(cmdline@);
            let user = all_words(string_views(opt.cmdline@));
            let host = all.take(all.len() - user.len());
            &&& user.len() <= all.len()
            &&& host.contains("pci=off"@) <==> opt.hv && !opt.has_root_complex
            &&& !user.contains("pci=off"@) && !opt.hv ==> !all.contains("pci=off"@)
            &&& !user.contains("pci=off"@) && opt.has_root_complex ==> !all.contains("pci=off"@)
        },
{
    law_words_of_linux(opt, console@);
    let all = words(linux_command_line(opt, console@));
    let user = all_words(string_views(opt.cmdline@));
    let host = host_words(opt, console@);
    if all.contains("pci=off"@) {
        let i = choose|i: int| 0 <= i < all.len() && all[i] == "pci=off"@;
        if i < host.len() {
            assert(host[i] == "pci=off"@);
        } else {
            assert(user[i - host.len()] == "pci=off"@);
        }
    }
}

/// What the user says has the last word on the command line of a directly booted
/// Linux: the user's words come last, all of them and in their order. Before them
/// the kernel is told to reboot on a panic, and is given the machine's console
/// where it has one and the screen where there are graphics.
pub proof fn law_user_words_come_last(opt: BootOptions, console: Seq<char>)
    requires
        console_name(console),
    ensures
        ({
            let all = words(linux_command_line(opt, console));
            let user = all_words(string_views(opt.cmdline@));
            let host = host_words(opt, console);
            &&& all == host + user
            &&& host.len() >= 2 && host[0] == "panic=-1"@ && host[1] == "debug"@
            &&& console.len() > 0 ==> host.contains("console="@ + console)
            &&& opt.gfx ==> host.contains("console=tty"@)
            &&& !opt.gfx && console.len() == 0 ==> forall|i: int|
                0 <= i < host.len() ==> !crate::text::has_prefix(#[trigger] host[i], "console="@)
            &&& host.len() <= 5
        }),
{
    lemma_literals();
    lemma_linux_words(opt, console);
    let host = host_words(opt, console);
    let all = words(linux_command_line(opt, console));
    let user = all_words(string_views(opt.cmdline@));
    assert(all =~= host + user);
    let named = if opt.hv && !opt.has_root_complex {
        2int + 1
    } else {
        2int
    };
    if console.len() > 0 {
        assert(host[named] == "console="@ + console);
    }
    if opt.gfx {
        assert(host[host.len() - 1] == "console=tty"@);
    }
    if !opt.gfx && console.len() == 0 {
        assert forall|i: int| 0 <= i < host.len() implies !crate::text::has_prefix(
            #[trigger] host[i],
            "console="@,
        ) by {
            assert(host[i] == "panic=-1"@ || host[i] == "debug"@ || host[i] == "pci=off"@);
            if host[i] == "panic=-1"@ {
                assert("panic=-1"@.take(8)[0] == 'p');
            }
        }
    }
}

/// A directly booted Linux is the given kernel with the given initial file system and
/// identity; it speaks to serial ports where any is connected, is isolated exactly
/// where SNP is asked for, finds its hardware by a device tree exactly where one is
/// asked for, and has the enlightenments that are asked for.
pub proof fn law_linux_is_booted_as_asked(
    opt: BootOptions,
    recorded: Option<String>,
    console: &str,
    image: HostFile,
    initrd: Option<HostFile>,
    smbios: SmbiosConfig,
    r: Result<(LoadMode, bool), Refusal>,
)
    requires
        call_ensures(select_load_mode, (&opt, recorded, console, image, initrd, smbios), r),
        boots_linux(opt),
    ensures
        r is Ok <==> opt.kernel,
        r is Ok ==> r->Ok_0.1 == opt.hv && (r->Ok_0.0 matches LoadMode::Linux {
            kernel,
            initrd: i,
            enable_serial,
            isolation,
            boot_mode,
            smbios: s,
            ..
        } && {
            &&& kernel == image && i == initrd && s == smbios
            &&& enable_serial == opt.any_serial
            &&& isolation is Snp <==> opt.isolation == Some(IsolationRequest::Snp)
            &&& isolation matches LinuxIsolationConfig::Snp { restricted_injection }
                ==> restricted_injection == opt.snp_restricted_injection
            &&& boot_mode is DeviceTree <==> opt.device_tree
        }),
{
}

/// A microVM boots a PVH kernel on x86-64 without enlightenments, and nothing else: a
/// restored one has the recorded command line and no initial file system, and a
/// fresh one the initial file system that is given.
pub proof fn law_microvm_is_booted_by_pvh(
    opt: BootOptions,
    recorded: Option<String>,
    console: &str,
    image: HostFile,
    initrd: Option<HostFile>,
    smbios: SmbiosConfig,
    r: Result<(LoadMode, bool), Refusal>,
)
    requires
        call_ensures(select_load_mode, (&opt, recorded, console, image, initrd, smbios), r),
        opt.microvm,
    ensures
        r is Ok ==> {
            &&& opt.arch is X86_64 && !opt.igvm && !opt.pcat && !opt.uefi
            &&& !r->Ok_0.1
            &&& r->Ok_0.0 matches LoadMode::Pvh { kernel, initrd: i, cmdline } && {
                &&& kernel == image
                &&& recorded is Some ==> i is None && cmdline@ == recorded->0@
                &&& recorded is None ==> i == initrd && opt.kernel
            }
        },
        recorded is Some && opt.arch is X86_64 && !opt.igvm && !opt.pcat && !opt.uefi ==> r is Ok,
{
}

proof fn lemma_joined_words(args: Seq<Seq<char>>)
    ensures
        words(joined(args)) == all_words(args),
    decreases args.len(),
{
    if args.len() == 1 {
        assert(args.drop_last() =~= Seq::empty());
        assert(all_words(args) =~= words(args[0])) by {
            reveal_with_fuel(all_words, 2);
        }
    } else if args.len() > 1 {
        lemma_joined_words(args.drop_last());
        lemma_words_blank(joined(args.drop_last()), args.last());
    } else {
        assert(words(joined(args)) =~= all_words(args));
    }
}

/// A firmware is loaded as it is given, with the identity that is asked for. A UEFI
/// firmware has each of its options as it was set, and VMBus and enlightenments
/// unless they are turned off; a PCAT firmware boots from the devices in the order
/// that is asked for, or else from optical drives, hard drives, the network and
/// floppies in turn; an IGVM image takes the kernel arguments and the relocation
/// only with VTL2.
pub proof fn law_firmware_is_loaded_as_asked(
    opt: BootOptions,
    recorded: Option<String>,
    console: &str,
    image: HostFile,
    initrd: Option<HostFile>,
    smbios: SmbiosConfig,
    r: Result<(LoadMode, bool), Refusal>,
)
    requires
        call_ensures(select_load_mode, (&opt, recorded, console, image, initrd, smbios), r),
        !opt.microvm && !opt.restore_snapshot,
        r is Ok,
    ensures
        opt.igvm ==> (r->Ok_0.0 matches LoadMode::Igvm {
            file,
            cmdline,
            vtl2_base_address,
            com_serial,
        } && {
            &&& file == image && com_serial == opt.com3
            &&& words(cmdline@) == all_words(string_views(opt.cmdline@))
            &&& opt.vtl2 ==> vtl2_base_address == opt.igvm_vtl2_relocation
            &&& !opt.vtl2 ==> vtl2_base_address is File
        }),
        opt.igvm ==> (r->Ok_0.1 <==> opt.hv || opt.igvm_personality != Some(
            IgvmPersonality::LinuxDirect,
        )),
        opt.igvm && opt.smbios_requested ==> opt.with_get && r->Ok_0.1,
        !opt.igvm && opt.pcat ==> r->Ok_0.1 && opt.arch is X86_64 && (r->Ok_0.0 matches
            LoadMode::Pcat { firmware, boot_order, hibernation_enabled, smbios: s } && {
            &&& firmware == image && s == smbios && hibernation_enabled == opt.hibernation
            &&& opt.pcat_boot_order is Some ==> boot_order == opt.pcat_boot_order->0
            &&& opt.pcat_boot_order is None ==> boot_order@[0] is Optical && boot_order@[1]
                is HardDrive && boot_order@[2] is Network && boot_order@[3] is Floppy
        }),
        !opt.igvm && !opt.pcat && opt.uefi ==> r->Ok_0.1 == !opt.no_hv
            && opt.uefi_options.firmware && (r->Ok_0.0 matches LoadMode::Uefi {
            firmware,
            enable_debugging,
            enable_memory_protections,
            disable_frontpage,
            enable_tpm,
            enable_battery,
            enable_serial,
            enable_vpci_boot,
            uefi_console_mode,
            default_boot_always_attempt,
            enable_vmbus,
            force_dma_bounce,
            enable_hv,
            hibernation_enabled,
            smbios: s,
        } && {
            let u = opt.uefi_options;
            &&& firmware == image && s == smbios
            &&& enable_debugging == u.debug
            &&& enable_memory_protections == u.enable_memory_protections
            &&& disable_frontpage == u.disable_frontpage
            &&& enable_tpm == u.enable_tpm
            &&& enable_battery == u.enable_battery
            &&& enable_serial == opt.any_serial
            &&& !enable_vpci_boot
            &&& uefi_console_mode == u.console_mode
            &&& default_boot_always_attempt == u.default_boot_always_attempt
            &&& enable_vmbus == !u.no_vmbus
            &&& force_dma_bounce == u.force_dma_bounce
            &&& enable_hv == !opt.no_hv
            &&& hibernation_enabled == opt.hibernation
        }),
{
    lemma_joined_words(string_views(opt.cmdline@));
}

/// A standard machine that is restored loads nothing, and has enlightenments.
pub proof fn law_restored_machines_load_nothing(
    opt: BootOptions,
    recorded: Option<String>,
    console: &str,
    image: HostFile,
    initrd: Option<HostFile>,
    smbios: SmbiosConfig,
    r: Result<(LoadMode, bool), Refusal>,
)
    requires
        call_ensures(select_load_mode, (&opt, recorded, console, image, initrd, smbios), r),
        !opt.microvm && opt.restore_snapshot,
    ensures
        r is Ok && r->Ok_0.0 is Nothing && r->Ok_0.1,
{
}

/// A microVM keeps no guest state and refuses a file for it. Any other machine has
/// guest state that is lost at its end unless a file is given, and a file is made
/// anew as its options say; it is encrypted by an identifier only under test.
pub proof fn law_guest_state_is_kept_as_asked(
    microvm: bool,
    vmgs: Option<ProvisionVmgs>,
    test_gsp_by_id: bool,
    r: Result<Option<VmgsResource>, Refusal>,
)
    requires
        call_ensures(select_vmgs, (microvm, vmgs, test_gsp_by_id), r),
    ensures
        r is Err <==> microvm && vmgs is Some,
        r is Ok ==> (r->Ok_0 is None <==> microvm),
        r is Ok && !microvm ==> {
            let kept = r->Ok_0->0;
            &&& kept is Ephemeral <==> vmgs is None
            &&& kept is Disk <==> vmgs == Some(ProvisionVmgs::OnEmpty)
            &&& kept is ReprovisionOnFailure <==> vmgs == Some(ProvisionVmgs::OnFailure)
            &&& kept is Reprovision <==> vmgs == Some(ProvisionVmgs::True)
            &&& kept matches VmgsResource::Disk(policy) ==> (policy is GspById <==> test_gsp_by_id)
            &&& kept matches VmgsResource::Reprovision(policy) ==> (policy is GspById
                <==> test_gsp_by_id)
            &&& kept matches VmgsResource::ReprovisionOnFailure(policy) ==> (policy is GspById
                <==> test_gsp_by_id)
        },
{
}

/// The firmware's variable store is there for a UEFI firmware that is loaded as such,
/// and for an image that is one.
pub proof fn law_variable_store_goes_with_uefi(
    uefi: bool,
    igvm: bool,
    pcat: bool,
    personality: Option<IgvmPersonality>,
    b: bool,
)
    requires
        call_ensures(uses_uefi_device, (uefi, igvm, pcat, personality), b),
    ensures
        personality == Some(IgvmPersonality::Uefi) ==> b,
        personality != Some(IgvmPersonality::Uefi) ==> (b <==> uefi && !igvm && !pcat),
{
}

/// VBS isolation needs VTL2 and no alias map; any other isolation, or none, is granted
/// as it is asked for.
pub proof fn law_isolation_is_granted_as_asked(
    isolation: Option<IsolationRequest>,
    vtl2: bool,
    no_alias_map: bool,
    r: Result<Option<IsolationType>, Refusal>,
)
    requires
        call_ensures(select_isolation, (isolation, vtl2, no_alias_map), r),
    ensures
        r is Err <==> isolation is Some && isolation->0 is Vbs && !(vtl2 && no_alias_map),
        r is Ok ==> {
            &&& r->Ok_0 is Some <==> isolation is Some
            &&& isolation is Some ==> (r->Ok_0->0 is Vbs <==> isolation->0 is Vbs) && (
            r->Ok_0->0 is Snp <==> isolation->0 is Snp)
        },
{
}

/// A machine has the processors that are asked for. Those of a microVM share nothing:
/// they are in one socket, without multithreading and without extended interrupt
/// controllers; those of another machine are laid out as it is asked.
pub proof fn law_processors_are_laid_out_as_asked(
    processors: u32,
    vps_per_socket: Option<u32>,
    smt: SmtOption,
    arch: ArchOption,
    microvm: bool,
    r: ProcessorTopologyConfig,
)
    requires
        call_ensures(processor_topology, (processors, vps_per_socket, smt, arch, microvm), r),
    ensures
        r.proc_count == processors,
        microvm ==> r.vps_per_socket == Some(processors) && r.enable_smt == Some(false),
        !microvm ==> {
            &&& r.vps_per_socket == vps_per_socket
            &&& r.enable_smt is None <==> smt is Auto
            &&& r.enable_smt == Some(true) <==> smt is Force
        },
        arch matches ArchOption::X86 { apic_id_offset, x2apic } ==> (r.arch matches Some(
            ArchTopologyConfig::X86(x86),
        ) && {
            &&& microvm ==> x86.apic_id_offset == 0 && x86.x2apic is Unsupported
            &&& !microvm ==> x86.apic_id_offset == apic_id_offset && x86.x2apic == x2apic
        }),
        arch matches ArchOption::Aarch64 { gic_msi } ==> (r.arch matches Some(
            ArchTopologyConfig::Aarch64(arm),
        ) && {
            &&& arm.gic_config is None && arm.pmu_gsiv is Platform
            &&& arm.gic_msi is Auto <==> gic_msi is Auto
            &&& arm.gic_msi is Its <==> gic_msi is Its
        }),
{
}

/// The hypervisor's features are the ones that are asked for, and VTL2 is there exactly
/// where it is; VTL0 memory is aliased unless that is turned off.
pub proof fn law_hypervisor_features_are_the_asked_ones(
    with_hv: bool,
    vtl2: bool,
    no_alias_map: bool,
    late_map: LateMapOption,
    with_isolation: Option<IsolationType>,
    nested_virt: bool,
    r: HypervisorConfig,
)
    requires
        call_ensures(
            hypervisor_config,
            (with_hv, vtl2, no_alias_map, late_map, with_isolation, nested_virt),
            r,
        ),
    ensures
        r.with_hv == with_hv && r.nested_virt == nested_virt && r.with_isolation == with_isolation,
        r.with_vtl2 is Some <==> vtl2,
        r.with_vtl2 matches Some(v) ==> {
            &&& v.vtl0_alias_map <==> !no_alias_map
            &&& v.late_map_vtl0_memory is None <==> late_map is Off
            &&& late_map is Log ==> v.late_map_vtl0_memory->0 is Log
            &&& late_map is Halt ==> v.late_map_vtl0_memory->0 is Halt
            &&& late_map is Exception ==> v.late_map_vtl0_memory->0 is InjectException
        },
{
}

/// There is no VMBus without enlightenments, and none where it is turned off; the
/// paravisor's is there with VTL2. Each relays sockets exactly where its own path is
/// given, to that path; only the guest's is redirected or held to a version.
pub proof fn law_vmbus_needs_enlightenments(
    options: VmbusOptions,
    with_hv: bool,
    vtl2: bool,
    r: (Option<VmbusConfig>, Option<VmbusConfig>),
)
    requires
        call_ensures(vmbus_configs, (options, with_hv, vtl2), r),
    ensures
        !with_hv ==> r.0 is None && r.1 is None,
        with_hv ==> (r.0 is None <==> options.no_vmbus) && (r.1 is Some <==> vtl2),
        r.0 matches Some(guest) ==> {
            &&& guest.vsock_path == options.vsock_path
            &&& guest.vsock_listener <==> options.vsock_path is Some
            &&& guest.vtl2_redirect == options.vmbus_redirect
            &&& guest.vmbus_max_version == options.vmbus_max_version
        },
        r.1 matches Some(paravisor) ==> {
            &&& paravisor.vsock_path == options.vtl2_vsock_path
            &&& paravisor.vsock_listener <==> options.vtl2_vsock_path is Some
            &&& !paravisor.vtl2_redirect && paravisor.vmbus_max_version is None
        },
{
}

/// A virtio device that names a PCIe port is behind it, whatever bus is asked for; else
/// it is on the bus that is asked for. Without a wish it is on PCI, but with
/// enlightenments on Windows and macOS on a virtual bus of its own.
pub proof fn law_named_port_wins(
    port: Option<String>,
    bus: VirtioBusOption,
    with_hv: bool,
    host: HostOs,
    r: VirtioPlace,
)
    requires
        call_ensures(place_virtio, (port, bus, with_hv, host), r),
    ensures
        r is Port <==> port is Some,
        r matches VirtioPlace::Port(name) ==> name@ == port->0@,
        port is None ==> {
            &&& bus is Mmio ==> r == VirtioPlace::Bus(VirtioBus::Mmio)
            &&& bus is Pci ==> r == VirtioPlace::Bus(VirtioBus::Pci)
            &&& bus is Vpci ==> r is Vpci
            &&& bus is Auto && !with_hv ==> r == VirtioPlace::Bus(VirtioBus::Pci)
            &&& bus is Auto && host is Linux ==> r == VirtioPlace::Bus(VirtioBus::Pci)
            &&& bus is Auto && with_hv && (host is Windows || host is Macos) ==> r is Vpci
        },
{
}

/// Only a microVM keeps the output of its console while nobody is attached, and it does
/// so unless its attachment says to discard it.
pub proof fn law_microvm_console_keeps_its_output(
    microvm: bool,
    attachment: Option<&VirtioConsoleAttachment>,
    r: ConsoleDisconnectPolicy,
)
    requires
        call_ensures(console_disconnect_policy, (microvm, attachment), r),
    ensures
        !microvm ==> r is Discard,
        microvm && attachment is None ==> r is Retain,
        microvm && attachment is Some ==> (r is Discard <==> attachment->0.reconnect_policy
            is DiscardWhileDisconnected),
{
}

proof fn lemma_numa_refusal(nodes: Seq<NumaOptions>, from: int)
    requires
        0 <= from <= nodes.len(),
    ensures
        numa_refusal(nodes, from) is None <==> forall|i: int|
            from <= i < nodes.len() ==> !((#[trigger] nodes[i]).vps is Some && nodes[i].vps->0
                is Err),
    decreases nodes.len() - from,
{
    if from < nodes.len() {
        lemma_numa_refusal(nodes, from + 1);
        let first = nodes[from];
    }
}

/// The nodes of a launched machine are the described ones, each with its own memory and
/// processors; they are refused exactly where the processors of one could not be
/// made out. A machine without nodes has one, with all of its memory and processors
/// and no distances. Memory is shared unless that is turned off, and has large pages
/// made for it unless they are asked for outright or turned off.
pub proof fn law_launched_nodes_are_the_described_ones(
    nodes: Option<&Vec<NumaOptions>>,
    distances: Vec<NumaDistance>,
    memory: MemoryOptions,
    r: Result<NumaTopology, Refusal>,
    i: int,
)
    requires
        call_ensures(launch_numa, (nodes, &distances, &memory), r),
    ensures
        nodes is None ==> r is Ok && r->Ok_0.nodes@.len() == 1 && r->Ok_0.distances@.len() == 0
            && r->Ok_0.nodes@[0].vps is FromTopology && r->Ok_0.nodes@[0].mem is Some
            && holds_memory(r->Ok_0.nodes@[0].mem->0, memory),
        nodes matches Some(list) ==> {
            &&& r is Err <==> exists|k: int|
                0 <= k < list@.len() && (#[trigger] list@[k]).vps is Some && list@[k].vps->0 is Err
            &&& r is Ok ==> r->Ok_0.nodes@.len() == list@.len() && r->Ok_0.distances@ == distances@
            &&& r is Ok && 0 <= i < list@.len() ==> {
                let (node, asked) = (r->Ok_0.nodes@[i], list@[i]);
                &&& node.mem is Some && holds_memory(node.mem->0, asked.memory)
                &&& node.vps is FromTopology <==> asked.vps is None
                &&& node.vps is Empty <==> asked.vps is Some && asked.vps->0->Ok_0@.len() == 0
                &&& node.vps matches VpAssignment::Explicit(vps) ==> vps@ == asked.vps->0->Ok_0@
            }
        },
{
    if let Some(list) = nodes {
        lemma_numa_refusal(list@, 0);
        if r is Ok && 0 <= i < list@.len() {
            let node = r->Ok_0.nodes@[i];
        }
    }
}

/// The memory is as it is asked for.
pub open spec fn holds_memory(held: MemoryConfig, asked: MemoryOptions) -> bool {
    &&& held.mem_size == asked.size
    &&& held.prefetch_memory == asked.prefetch
    &&& held.private_memory <==> asked.shared is Some && !asked.shared->0
    &&& held.hugepages == asked.hugepages
    &&& held.hugepage_size == asked.hugepage_size
    &&& held.host_numa_node == asked.host_numa_node
    &&& asked.transparent_hugepages is Some ==> held.transparent_hugepages
        == asked.transparent_hugepages->0
    &&& asked.transparent_hugepages is None ==> (held.transparent_hugepages <==> !asked.hugepages)
}

/// How far memory can grow is fixed by the first launch: a snapshot that records it is
/// not overruled by what is asked for later.
pub proof fn law_recorded_capacity_stands(
    contract: Option<&SnapshotMachineContract>,
    requested: Option<u64>,
    r: Option<u64>,
)
    requires
        call_ensures(microvm_memory_capacity, (contract, requested), r),
    ensures
        contract is Some && contract->0.memory_expansion_version > 0 ==> r == Some(
            contract->0.memory_capacity_bytes,
        ),
        contract is None || contract->0.memory_expansion_version == 0 ==> r == requested,
{
}

/// A screen is there for whoever shows it, and a guest emulation channel wherever it is
/// asked for, and with VTL2 unless it is turned off.
pub proof fn law_screen_and_channel(
    gfx: bool,
    vtl2_gfx: bool,
    vnc: bool,
    pcat: bool,
    screen: bool,
    get: bool,
    vtl2: bool,
    no_get: bool,
    channel: bool,
)
    requires
        call_ensures(needs_framebuffer, (gfx, vtl2_gfx, vnc, pcat), screen),
        call_ensures(with_get, (get, vtl2, no_get), channel),
    ensures
        !screen <==> !gfx && !vtl2_gfx && !vnc && !pcat,
        get ==> channel,
        !get ==> (channel <==> vtl2 && !no_get),
{
}

/// The hypervisor's name ends where its parameters begin, at the first colon.
pub proof fn law_hypervisor_name_ends_at_the_colon(hypervisor: Option<&str>, r: Option<String>)
    requires
        call_ensures(requested_hypervisor, (hypervisor,), r),
    ensures
        r is Some <==> hypervisor is Some,
        r is Some ==> {
            let (name, text) = (r->0@, hypervisor->0@);
            &&& !name.contains(':')
            &&& name.len() <= text.len() && text.take(name.len() as int) == name
            &&& name.len() < text.len() ==> text[name.len() as int] == ':'
        },
{
    if hypervisor is Some {
        let (name, text) = (r->0@, hypervisor->0@);
        if text.contains(':') {
            text.index_of_first_ensures(':');
            let i = text.index_of_first(':')->0;
            if name.contains(':') {
                let k = choose|k: int| 0 <= k < name.len() && name[k] == ':';
                assert(text[k] == ':');
            }
        } else {
            assert(text.take(text.len() as int) =~= text);
        }
    }
}

/// An SNP machine boots Linux or an image, without enlightenments, VTL2, VMBus, screens
/// or debuggers, and only with virtio devices; a machine with any other isolation,
/// or none, is not held to this.
pub proof fn law_snp_machines_are_bare(config: Config, r: Result<(), Refusal>)
    requires
        call_ensures(validate_snp_config, (&config,), r),
    ensures
        config.hypervisor.with_isolation != Some(IsolationType::Snp) ==> r is Ok,
        config.hypervisor.with_isolation == Some(IsolationType::Snp) && r is Ok ==> {
            &&& config.load_mode is Linux || config.load_mode is Igvm
            &&& !config.hypervisor.with_hv && config.hypervisor.with_vtl2 is None
            &&& config.vmbus is None && config.vtl2_vmbus is None && config.vmbus_devices@.len()
                == 0
            &&& config.floppy_disks@.len() == 0 && config.ide_disks@.len() == 0
                && config.virtio_devices@.len() == 0 && config.vpci_devices@.len() == 0
                && config.pci_chipset_devices@.len() == 0
            &&& !config.framebuffer && !config.vga_firmware && !config.debugger_rpc
            &&& forall|i: int|
                0 <= i < config.pcie_devices@.len() ==> (
                #[trigger] config.pcie_devices@[i]).resource.id@ == "virtio"@
        },
{
}

/// Finishing a machine touches nothing but its command line, and that only on a fresh
/// microVM, where the kernel, its initial file system and every word that was there
/// stay in place: the machine's devices are announced behind them, and before those
/// the tier where there is one. What is finished keeps its machine contract and its
/// isolation.
pub proof fn law_finishing_only_adds_words(
    config: Config,
    options: FinishOptions,
    host: HostOs,
    r: Result<Config, Refusal>,
)
    requires
        call_ensures(finish_config, (config, &options, host), r),
        r is Ok,
    ensures
        ({
            let finished = r->Ok_0;
            &&& finished == (Config { load_mode: finished.load_mode, ..config })
            &&& config.machine_profile is Standard || options.restored ==> finished.load_mode
                == config.load_mode
            &&& config.machine_profile is Microvm && !options.restored ==> {
                &&& config.load_mode is Pvh && finished.load_mode is Pvh
                &&& finished.load_mode->Pvh_kernel == config.load_mode->Pvh_kernel
                &&& finished.load_mode->Pvh_initrd == config.load_mode->Pvh_initrd
                &&& config.load_mode->Pvh_cmdline@.len() <= finished.load_mode->Pvh_cmdline@.len()
                &&& finished.load_mode->Pvh_cmdline@.take(
                    config.load_mode->Pvh_cmdline@.len() as int,
                ) == config.load_mode->Pvh_cmdline@
            }
            &&& crate::machine::machine_refusal(
                finished,
                crate::launch::hypervisor_view(options),
                host,
            ) is None
            &&& crate::launch::snp_refusal(finished) is None
        }),
{
    let finished = r->Ok_0;
    if config.machine_profile is Microvm && !options.restored {
        let before = config.load_mode->Pvh_cmdline@;
        let after = finished.load_mode->Pvh_cmdline@;
        assert(config.load_mode is Pvh);
        assert(after.take(before.len() as int) =~= before);
    }
}

/// The tier is told to the guest in one word, behind all others, which stay as they
/// were.
pub proof fn law_tier_is_the_last_word(cmdline: Seq<char>, tier: Seq<char>)
    requires
        is_word("nvx_snapshot_tier="@ + tier),
    ensures
        words(with_tier(cmdline, tier)) == words(cmdline).push("nvx_snapshot_tier="@ + tier),
{
    let token = "nvx_snapshot_tier="@ + tier;
    lemma_words_of_word(token);
    if cmdline.len() == 0 {
        assert(with_tier(cmdline, tier) =~= token);
        assert(words(cmdline) =~= Seq::empty());
        assert(words(with_tier(cmdline, tier)) =~= words(cmdline).push(token));
    } else {
        assert(with_tier(cmdline, tier) =~= cmdline + seq![' '] + token);
        lemma_words_blank(cmdline, token);
        assert(words(cmdline) + seq![token] =~= words(cmdline).push(token));
    }
}

} // verus!
