//! The configuration of a launched machine, put together from its parts.

use vstd::prelude::*;

use crate::chipset::IsolationRequest;
use crate::config::{
    BaseChipsetManifest, ChipsetDeviceHandle, Config, DeviceResource, DeviceVtl, DiskConfig,
    HostFile, HostOs, HypervisorConfig, IsolationType, KernelVmNicConfig, LateMapVtl0MemoryPolicy,
    LayoutConfig, LoadMode, MachineProfile, MicrovmNetworkConfig, NumaTopology, PcieDeviceConfig,
    PcieGenericInitiatorConfig, PcieRootComplexConfig, PcieSwitchConfig, VirtioBus,
    VmChipsetCapabilities, VmgsResource, VpciDeviceConfig, Vtl2Config,
};
use crate::launch::{
    completes_command_line, completion_refusal, finish_config, hypervisor_config, hypervisor_view,
    is_finished, isolation_refusal, needs_framebuffer, processor_topology, select_isolation,
    snp_refusal, topology_of, vmbus_configs, ArchOption, FinishOptions, LateMapOption, SmtOption,
    VmbusOptions,
};
use crate::machine::machine_refusal;
use crate::microvm::pvh_command_line;
use crate::refusal::Refusal;

verus! {

/// The options and parts that a launched machine is put together from.
#[derive(Debug)]
pub struct LaunchParts {
    pub machine: MachineProfile,
    pub load_mode: LoadMode,
    /// Whether the machine has the hypervisor's enlightenments.
    pub with_hv: bool,
    /// Whether it has a guest emulation channel.
    pub with_get: bool,
    pub processors: u32,
    pub vps_per_socket: Option<u32>,
    pub smt: SmtOption,
    pub arch: ArchOption,
    pub vtl2: bool,
    pub no_alias_map: bool,
    pub late_map: LateMapOption,
    pub isolation: Option<IsolationRequest>,
    pub nested_virt: bool,
    pub vmbus: VmbusOptions,
    pub vmgs: Option<VmgsResource>,
    pub gfx: bool,
    pub vtl2_gfx: bool,
    pub vnc: bool,
    pub pcat: bool,
    pub numa: NumaTopology,
    pub floppy_disks: Vec<DiskConfig>,
    pub ide_disks: Vec<DiskConfig>,
    pub root_complexes: Vec<PcieRootComplexConfig>,
    pub ecam_below_4gb: bool,
    pub pcie_devices: Vec<PcieDeviceConfig>,
    pub switches: Vec<PcieSwitchConfig>,
    pub generic_initiators: Vec<PcieGenericInitiatorConfig>,
    pub vpci_devices: Vec<VpciDeviceConfig>,
    pub virtio_devices: Vec<(VirtioBus, DeviceResource)>,
    pub vmbus_devices: Vec<(DeviceVtl, DeviceResource)>,
    pub kernel_vmnics: Vec<KernelVmNicConfig>,
    pub vpci_resources: Vec<HostFile>,
    pub chipset: BaseChipsetManifest,
    pub chipset_devices: Vec<ChipsetDeviceHandle>,
    pub pci_chipset_devices: Vec<ChipsetDeviceHandle>,
    pub isa_dma_controller: Option<DeviceResource>,
    pub chipset_capabilities: VmChipsetCapabilities,
    pub layout: LayoutConfig,
    pub microvm_network: Option<MicrovmNetworkConfig>,
}

/// What happens where guest memory is touched before it is mapped.
pub open spec fn late_map_of(late_map: LateMapOption) -> Option<LateMapVtl0MemoryPolicy> {
    match late_map {
        LateMapOption::Off => None,
        LateMapOption::Log => Some(LateMapVtl0MemoryPolicy::Log),
        LateMapOption::Halt => Some(LateMapVtl0MemoryPolicy::Halt),
        LateMapOption::Exception => Some(LateMapVtl0MemoryPolicy::InjectException),
    }
}

/// The isolation that is asked for.
pub open spec fn isolation_of(isolation: Option<IsolationRequest>) -> Option<IsolationType> {
    match isolation {
        None => None,
        Some(IsolationRequest::Vbs) => Some(IsolationType::Vbs),
        Some(IsolationRequest::Snp) => Some(IsolationType::Snp),
    }
}

/// The hypervisor features of a machine.
pub open spec fn features_of(parts: LaunchParts) -> HypervisorConfig {
    HypervisorConfig {
        with_hv: parts.with_hv,
        with_vtl2: if parts.vtl2 {
            Some(
                Vtl2Config {
                    vtl0_alias_map: !parts.no_alias_map,
                    late_map_vtl0_memory: late_map_of(parts.late_map),
                },
            )
        } else {
            None
        },
        with_isolation: isolation_of(parts.isolation),
        nested_virt: parts.nested_virt,
    }
}

/// The configuration holds the parts, before it is finished. The guest emulation
/// channel takes over the guest state where there is one.
pub open spec fn holds_launch_parts(config: Config, parts: LaunchParts) -> bool {
    &&& config.machine_profile == parts.machine
    &&& config.load_mode == parts.load_mode
    &&& config.floppy_disks == parts.floppy_disks && config.ide_disks == parts.ide_disks
    &&& config.pcie_root_complexes == parts.root_complexes
    &&& config.pcie_ecam_below_4gb == parts.ecam_below_4gb
    &&& config.pcie_devices == parts.pcie_devices
    &&& config.pcie_switches == parts.switches
    &&& config.pcie_generic_initiators == parts.generic_initiators
    &&& config.vpci_devices == parts.vpci_devices
    &&& config.numa == parts.numa
    &&& config.processor_topology == topology_of(
        parts.processors,
        parts.vps_per_socket,
        parts.smt,
        parts.arch,
        parts.machine == MachineProfile::Microvm,
    )
    &&& config.hypervisor == features_of(parts)
    &&& config.chipset == parts.chipset
    &&& config.vmbus is Some <==> parts.with_hv && !parts.vmbus.no_vmbus
    &&& config.vmbus is Some ==> {
        let vmbus = config.vmbus->0;
        &&& vmbus.vsock_listener == (parts.vmbus.vsock_path is Some)
        &&& vmbus.vsock_path == parts.vmbus.vsock_path
        &&& vmbus.vtl2_redirect == parts.vmbus.vmbus_redirect
        &&& vmbus.vmbus_max_version == parts.vmbus.vmbus_max_version
    }
    &&& config.vtl2_vmbus is Some <==> parts.with_hv && parts.vtl2
    &&& config.vtl2_vmbus is Some ==> {
        let vmbus = config.vtl2_vmbus->0;
        &&& vmbus.vsock_listener == (parts.vmbus.vtl2_vsock_path is Some)
        &&& vmbus.vsock_path == parts.vmbus.vtl2_vsock_path
        &&& !vmbus.vtl2_redirect && vmbus.vmbus_max_version is None
    }
    &&& config.kernel_vmnics == parts.kernel_vmnics
    &&& config.framebuffer == (parts.gfx || parts.vtl2_gfx || parts.vnc || parts.pcat)
    &&& config.vga_firmware == parts.pcat
    &&& config.vtl2_gfx == parts.vtl2_gfx
    &&& config.virtio_devices == parts.virtio_devices
    &&& config.vpci_resources == parts.vpci_resources
    &&& config.vmgs == (if parts.with_get && parts.with_hv {
        None
    } else {
        parts.vmgs
    })
    &&& !config.firmware_event_send && !config.debugger_rpc
    &&& config.vmbus_devices == parts.vmbus_devices
    &&& config.chipset_devices == parts.chipset_devices
    &&& config.pci_chipset_devices == parts.pci_chipset_devices
    &&& config.isa_dma_controller == parts.isa_dma_controller
    &&& config.chipset_capabilities == parts.chipset_capabilities
    &&& config.layout == parts.layout
    &&& config.rtc_delta_milliseconds == 0
    &&& config.microvm_network == parts.microvm_network
}

fn put_launch_together(parts: LaunchParts, isolation: Option<IsolationType>) -> (config: Config)
    requires
        isolation == isolation_of(parts.isolation),
    ensures
        holds_launch_parts(config, parts),
{
    let microvm = parts.machine == MachineProfile::Microvm;
    let (vmbus, vtl2_vmbus) = vmbus_configs(parts.vmbus, parts.with_hv, parts.vtl2);
    let vmgs: Option<VmgsResource> = if parts.with_get && parts.with_hv {
        None
    } else {
        parts.vmgs
    };
    Config {
        load_mode: parts.load_mode,
        floppy_disks: parts.floppy_disks,
        ide_disks: parts.ide_disks,
        pcie_root_complexes: parts.root_complexes,
        pcie_ecam_below_4gb: parts.ecam_below_4gb,
        pcie_devices: parts.pcie_devices,
        pcie_switches: parts.switches,
        pcie_generic_initiators: parts.generic_initiators,
        vpci_devices: parts.vpci_devices,
        numa: parts.numa,
        processor_topology: processor_topology(
            parts.processors,
            parts.vps_per_socket,
            parts.smt,
            parts.arch,
            microvm,
        ),
        hypervisor: hypervisor_config(
            parts.with_hv,
            parts.vtl2,
            parts.no_alias_map,
            parts.late_map,
            isolation,
            parts.nested_virt,
        ),
        chipset: parts.chipset,
        vmbus,
        vtl2_vmbus,
        kernel_vmnics: parts.kernel_vmnics,
        framebuffer: needs_framebuffer(parts.gfx, parts.vtl2_gfx, parts.vnc, parts.pcat),
        vga_firmware: parts.pcat,
        vtl2_gfx: parts.vtl2_gfx,
        virtio_devices: parts.virtio_devices,
        vpci_resources: parts.vpci_resources,
        vmgs,
        firmware_event_send: false,
        debugger_rpc: false,
        vmbus_devices: parts.vmbus_devices,
        chipset_devices: parts.chipset_devices,
        pci_chipset_devices: parts.pci_chipset_devices,
        isa_dma_controller: parts.isa_dma_controller,
        chipset_capabilities: parts.chipset_capabilities,
        layout: parts.layout,
        rtc_delta_milliseconds: 0,
        machine_profile: parts.machine,
        microvm_network: parts.microvm_network,
    }
}

/// Why a machine that was put together is refused when it is finished, if it is.
pub open spec fn finishing_refusal(
    config: Config,
    finished: Config,
    options: FinishOptions,
    host: HostOs,
) -> Option<Seq<char>> {
    if completes_command_line(config, options) && completion_refusal(config, options, host)
        is Some {
        completion_refusal(config, options, host)
    } else if machine_refusal(finished, hypervisor_view(options), host) is Some {
        machine_refusal(finished, hypervisor_view(options), host)
    } else {
        snp_refusal(finished)
    }
}

/// Puts a launched machine together, finishes it, and holds it to its machine
/// contract and its isolation. A microVM is refused: see
/// [`law_launched_microvms_miss_the_first_contract`].
pub fn build_launch_config(parts: LaunchParts, options: &FinishOptions, host: HostOs) -> (r: Result<
    Config,
    Refusal,
>)
    ensures
        match r {
            Ok(finished) => {
                &&& isolation_refusal(parts.isolation, parts.vtl2, parts.no_alias_map) is None
                &&& exists|config: Config| #[trigger]
                    holds_launch_parts(config, parts) && is_finished(
                        finished,
                        config,
                        *options,
                        host,
                    ) && finishing_refusal(config, finished, *options, host) is None
            },
            Err(e) => if isolation_refusal(parts.isolation, parts.vtl2, parts.no_alias_map)
                is Some {
                isolation_refusal(parts.isolation, parts.vtl2, parts.no_alias_map) == Some(e@)
            } else {
                exists|config: Config, finished: Config| #[trigger]
                    holds_launch_parts(config, parts) && #[trigger] finishing_refusal(
                        config,
                        finished,
                        *options,
                        host,
                    ) == Some(e@) && (is_finished(finished, config, *options, host) || (
                    completes_command_line(config, *options) && completion_refusal(
                        config,
                        *options,
                        host,
                    ) is Some))
            },
        },
{
    let isolation: Option<IsolationType> = match select_isolation(
        parts.isolation,
        parts.vtl2,
        parts.no_alias_map,
    ) {
        Ok(isolation) => isolation,
        Err(e) => return Err(e),
    };
    let config = put_launch_together(parts, isolation);
    let ghost whole = config;
    match finish_config(config, options, host) {
        Ok(finished) => {
            assert(holds_launch_parts(whole, parts));
            assert(is_finished(finished, whole, *options, host));
            Ok(finished)
        },
        Err(e) => {
            proof {
                if !(completes_command_line(whole, *options) && completion_refusal(
                    whole,
                    *options,
                    host,
                ) is Some) {
                    let finished = choose|finished: Config|
                        is_finished(finished, whole, *options, host) && (if #[trigger] machine_refusal(
                            finished,
                            hypervisor_view(*options),
                            host,
                        ) is Some {
                            machine_refusal(finished, hypervisor_view(*options), host) == Some(e@)
                        } else {
                            snp_refusal(finished) == Some(e@)
                        });
                    assert(finishing_refusal(whole, finished, *options, host) == Some(e@));
                } else {
                    assert(finishing_refusal(whole, whole, *options, host) == Some(e@));
                }
            }
            Err(e)
        },
    }
}

/// The parts and the options of a machine decide whether it is accepted, and if
/// not, why: any two configurations that are put together from them and finished
/// are answered alike.
pub proof fn law_launch_parts_decide_acceptance(
    first: Config,
    second: Config,
    one: Config,
    other: Config,
    parts: LaunchParts,
    options: FinishOptions,
    host: HostOs,
)
    requires
        holds_launch_parts(first, parts),
        holds_launch_parts(second, parts),
        is_finished(one, first, options, host),
        is_finished(other, second, options, host),
    ensures
        first == second,
        finishing_refusal(first, one, options, host) == finishing_refusal(
            second,
            other,
            options,
            host,
        ),
        pvh_command_line(one.load_mode) == pvh_command_line(other.load_mode),
{
    assert(first.vmbus == second.vmbus);
    assert(first.vtl2_vmbus == second.vtl2_vmbus);
    assert(first == second);
}

/// A launched microVM does not meet the machine contract of its first version: that
/// leaves the socket and the interrupt controllers of its processor to the
/// platform, and a launch spells them out. So every one is refused when it is
/// finished; a microVM of a management request spells out nothing.
pub proof fn law_launched_microvms_miss_the_first_contract(
    config: Config,
    finished: Config,
    parts: LaunchParts,
    options: FinishOptions,
    host: HostOs,
)
    requires
        parts.machine == MachineProfile::Microvm,
        holds_launch_parts(config, parts),
        is_finished(finished, config, options, host),
    ensures
        finishing_refusal(config, finished, options, host) is Some,
{
    assert(finished.processor_topology.vps_per_socket is Some);
    assert(machine_refusal(finished, hypervisor_view(options), host) is Some);
}

/// An accepted machine with memory encryption has no enlightenments, no VMBus and
/// no graphics.
pub proof fn law_isolated_machines_have_no_vmbus(config: Config, parts: LaunchParts)
    requires
        holds_launch_parts(config, parts),
        parts.isolation == Some(IsolationRequest::Snp),
        snp_refusal(config) is None,
    ensures
        !parts.with_hv,
        config.vmbus is None && config.vtl2_vmbus is None,
        !config.framebuffer && !config.vga_firmware,
{
}

} // verus!
