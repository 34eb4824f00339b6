//! Validation of a whole machine configuration against its machine contract.

use vstd::prelude::*;

use crate::config::{
    ArchTopologyConfig, BaseChipsetManifest, ChipsetDeviceHandle, Config, DeviceResource, HostOs,
    LoadMode, MachineProfile, VirtioBus, X2ApicConfig, X86TopologyConfig,
};
use crate::microvm::{
    command_line_refusal, device_ids, pvh_command_line, validate_microvm_command_line,
    validate_microvm_virtio_reservations,
};
use crate::refusal::{refusal_of, refuse, text_view, Refusal};
use crate::text::same_text;

verus! {

/// The name and kind of each chipset device.
pub open spec fn chipset_ids(devices: Seq<ChipsetDeviceHandle>) -> Seq<(Seq<char>, Seq<char>)> {
    devices.map_values(|d: ChipsetDeviceHandle| (d.name@, d.resource.id@))
}

/// The chipset devices of a microVM, by name and kind.
pub open spec fn microvm_chipset_ids() -> Seq<(Seq<char>, Seq<char>)> {
    seq![
        ("ioapic"@, "generic-ioapic"@),
        ("microvm-portb"@, "microvm-portb"@),
        ("microvm-shutdown"@, "microvm-shutdown"@),
        ("microvm-snapshot-request"@, "microvm-snapshot-request"@),
        ("pic"@, "pic"@),
        ("pit"@, "pit"@),
    ]
}

/// The devices are exactly those of a microVM, in any order.
pub open spec fn microvm_inventory(devices: Seq<ChipsetDeviceHandle>) -> bool {
    &&& devices.len() == microvm_chipset_ids().len()
    &&& forall|i: int|
        0 <= i < microvm_chipset_ids().len() ==> chipset_ids(devices).contains(
            #[trigger] microvm_chipset_ids()[i],
        )
}

/// The device is one that a microVM may have, on the bus that it has.
pub open spec fn microvm_virtio_device(bus: VirtioBus, id: Seq<char>) -> bool {
    bus == VirtioBus::Mmio && (id == "virtio-blk"@ || id == "virtio-console"@ || id
        == "virtio-net"@)
}

pub open spec fn microvm_virtio_devices(devices: Seq<(VirtioBus, DeviceResource)>) -> bool {
    forall|i: int|
        0 <= i < devices.len() ==> microvm_virtio_device(
            (#[trigger] devices[i]).0,
            devices[i].1.id@,
        )
}

/// The processors are one virtual CPU with the fixed APIC topology.
pub open spec fn microvm_apic_topology(config: Config) -> bool {
    &&& config.processor_topology.vps_per_socket is None
    &&& config.processor_topology.enable_smt is None
    &&& config.processor_topology.arch == Some(
        ArchTopologyConfig::X86(
            X86TopologyConfig { apic_id_offset: 0, x2apic: X2ApicConfig::Auto },
        ),
    )
}

pub open spec fn microvm_capabilities(config: Config) -> bool {
    let c = config.chipset_capabilities;
    c.with_ioapic && c.with_pic && c.with_pit && !c.with_generic_isa_dma && !c.with_psp
        && !c.with_guest_watchdog && !c.with_i440bx_host_pci_bridge
}

pub open spec fn no_pci(config: Config) -> bool {
    &&& config.pcie_root_complexes@.len() == 0
    &&& config.pcie_devices@.len() == 0
    &&& config.pcie_switches@.len() == 0
    &&& config.pcie_generic_initiators@.len() == 0
    &&& config.vpci_devices@.len() == 0
    &&& config.pci_chipset_devices@.len() == 0
    &&& config.isa_dma_controller is None
}

/// Everything the microVM contract demands of a configuration besides its
/// command line.
pub open spec fn microvm_allowlist(config: Config, hypervisor: Option<Seq<char>>) -> bool {
    &&& hypervisor is Some ==> hypervisor == Some("kvm"@) || hypervisor == Some("whp"@)
    &&& config.processor_topology.proc_count == 1
    &&& microvm_apic_topology(config)
    &&& config.numa.nodes@.len() == 1 && config.numa.distances@.len() == 0
    &&& !config.hypervisor.with_hv && config.hypervisor.with_vtl2 is None
    &&& config.hypervisor.with_isolation is None && !config.hypervisor.nested_virt
    &&& config.chipset == (BaseChipsetManifest {
        with_generic_cmos_rtc: true,
        with_other_devices: false,
    })
    &&& microvm_capabilities(config)
    &&& microvm_inventory(config.chipset_devices@)
    &&& config.floppy_disks@.len() == 0 && config.ide_disks@.len() == 0
    &&& no_pci(config)
    &&& config.vmbus is None && config.vtl2_vmbus is None && config.vmbus_devices@.len() == 0
    &&& !config.framebuffer && !config.vga_firmware && !config.vtl2_gfx
    &&& config.vmgs is None
    &&& !config.firmware_event_send && !config.debugger_rpc
    &&& config.rtc_delta_milliseconds == 0
    &&& config.kernel_vmnics@.len() == 0 && config.vpci_resources@.len() == 0
    &&& config.virtio_devices@.len() <= 3
    &&& microvm_virtio_devices(config.virtio_devices@)
    &&& config.layout.chipset_low_mmio_size == 0x4000_0000
    &&& config.layout.chipset_high_mmio_size == 0
    &&& config.layout.vtl2_chipset_mmio_size == 0
}

/// Why a configuration breaks its machine contract, if it does. The rules are
/// tried in this order and the first broken one is reported.
pub open spec fn machine_refusal(
    config: Config,
    hypervisor: Option<Seq<char>>,
    host: HostOs,
) -> Option<Seq<char>> {
    let line = command_line_refusal(
        pvh_command_line(config.load_mode),
        device_ids(config.virtio_devices@),
        hypervisor,
        host,
    );
    if config.machine_profile == MachineProfile::Standard {
        if config.load_mode is Pvh {
            Some("PVH load mode requires the microVM profile"@)
        } else {
            None
        }
    } else if line is Some {
        line
    } else if hypervisor is Some && hypervisor != Some("kvm"@) && hypervisor != Some("whp"@) {
        Some("microVM ABI version 1 requires the KVM or WHP hypervisor"@)
    } else if config.processor_topology.proc_count != 1 {
        Some("microVM ABI version 1 requires exactly one vCPU"@)
    } else if !microvm_apic_topology(config) {
        Some("microVM ABI version 1 requires its fixed x86 APIC topology"@)
    } else if config.numa.nodes@.len() != 1 || config.numa.distances@.len() != 0 {
        Some("microVM ABI version 1 requires a single NUMA node"@)
    } else if config.hypervisor.with_hv || config.hypervisor.with_vtl2 is Some
        || config.hypervisor.with_isolation is Some || config.hypervisor.nested_virt {
        Some(
            "microVM ABI version 1 does not support Hyper-V enlightenments, VTL2, isolation, or nested virtualization"@,
        )
    } else if !config.chipset.with_generic_cmos_rtc || config.chipset.with_other_devices {
        Some("microVM ABI version 1 chipset is not the microVM allowlist"@)
    } else if !microvm_capabilities(config) {
        Some("microVM ABI version 1 chipset capabilities do not match the fixed profile"@)
    } else if !microvm_inventory(config.chipset_devices@) {
        Some("microVM ABI version 1 chipset-device inventory is not exact"@)
    } else if config.floppy_disks@.len() != 0 || config.ide_disks@.len() != 0 {
        Some("microVM ABI version 1 does not support floppy or IDE devices"@)
    } else if !no_pci(config) {
        Some("microVM ABI version 1 does not support PCI, PCIe, VPCI, or ISA DMA"@)
    } else if config.vmbus is Some || config.vtl2_vmbus is Some || config.vmbus_devices@.len()
        != 0 {
        Some("microVM ABI version 1 does not support VMBus"@)
    } else if config.framebuffer || config.vga_firmware || config.vtl2_gfx {
        Some("microVM ABI version 1 does not support graphics or VGA firmware"@)
    } else if config.vmgs is Some {
        Some("microVM ABI version 1 does not support VMGS"@)
    } else if config.firmware_event_send || config.debugger_rpc {
        Some("microVM ABI version 1 does not support firmware or debugger resources"@)
    } else if config.rtc_delta_milliseconds != 0 {
        Some("microVM ABI version 1 RTC must be anchored directly to UTC"@)
    } else if config.kernel_vmnics@.len() != 0 || config.vpci_resources@.len() != 0 {
        Some("microVM ABI version 1 does not support kernel NIC or VPCI resources"@)
    } else if config.virtio_devices@.len() > 3 {
        Some("microVM ABI version 1 permits at most one virtio-blk device"@)
    } else if !microvm_virtio_devices(config.virtio_devices@) {
        Some("microVM ABI version 1 permits only an MMIO virtio-blk device"@)
    } else if config.layout.chipset_low_mmio_size != 0x4000_0000
        || config.layout.chipset_high_mmio_size != 0 || config.layout.vtl2_chipset_mmio_size
        != 0 {
        Some("microVM ABI version 1 requires the fixed 3-GiB/4-GiB RAM split"@)
    } else {
        None
    }
}

/// A microVM configuration is accepted exactly when its command line is
/// canonical and everything else is on the allowlist; a standard one exactly
/// when it does not boot by PVH.
pub proof fn law_machine_contract(config: Config, hypervisor: Option<Seq<char>>, host: HostOs)
    ensures
        config.machine_profile == MachineProfile::Standard ==> (machine_refusal(
            config,
            hypervisor,
            host,
        ) is None <==> !(config.load_mode is Pvh)),
        config.machine_profile == MachineProfile::Microvm ==> (machine_refusal(
            config,
            hypervisor,
            host,
        ) is None <==> {
            &&& config.load_mode is Pvh
            &&& microvm_allowlist(config, hypervisor)
            &&& command_line_refusal(
                pvh_command_line(config.load_mode),
                device_ids(config.virtio_devices@),
                hypervisor,
                host,
            ) is None
        }),
{
}

fn has_chipset_device(devices: &Vec<ChipsetDeviceHandle>, name: &str, id: &str) -> (b: bool)
    ensures
        b == chipset_ids(devices@).contains((name@, id@)),
{
    let ghost ids = chipset_ids(devices@);
    let mut i: usize = 0;
    while i < devices.len()
        invariant
            i <= devices@.len(),
            ids == chipset_ids(devices@),
            forall|k: int| 0 <= k < i ==> #[trigger] ids[k] != (name@, id@),
        decreases devices@.len() - i,
    {
        if same_text(devices[i].name.as_str(), name) && same_text(
            devices[i].resource.id.as_str(),
            id,
        ) {
            assert(ids[i as int] == (name@, id@));
            return true;
        }
        i += 1;
    }
    false
}

fn exact_inventory(devices: &Vec<ChipsetDeviceHandle>) -> (b: bool)
    ensures
        b == microvm_inventory(devices@),
{
    let ioapic = has_chipset_device(devices, "ioapic", "generic-ioapic");
    let portb = has_chipset_device(devices, "microvm-portb", "microvm-portb");
    let shutdown = has_chipset_device(devices, "microvm-shutdown", "microvm-shutdown");
    let snapshot = has_chipset_device(
        devices,
        "microvm-snapshot-request",
        "microvm-snapshot-request",
    );
    let pic = has_chipset_device(devices, "pic", "pic");
    let pit = has_chipset_device(devices, "pit", "pit");
    proof {
        let expected = microvm_chipset_ids();
        let ids = chipset_ids(devices@);
        if microvm_inventory(devices@) {
            assert(ids.contains(expected[0]));
            assert(ids.contains(expected[1]));
            assert(ids.contains(expected[2]));
            assert(ids.contains(expected[3]));
            assert(ids.contains(expected[4]));
            assert(ids.contains(expected[5]));
        }
        if ioapic && portb && shutdown && snapshot && pic && pit {
            assert forall|i: int| 0 <= i < expected.len() implies ids.contains(
                #[trigger] expected[i],
            ) by {
                assert(i == 0 || i == 1 || i == 2 || i == 3 || i == 4 || i == 5);
            }
        }
    }
    devices.len() == 6 && ioapic && portb && shutdown && snapshot && pic && pit
}

fn allowed_virtio_devices(devices: &Vec<(VirtioBus, DeviceResource)>) -> (b: bool)
    ensures
        b == microvm_virtio_devices(devices@),
{
    let mut i: usize = 0;
    while i < devices.len()
        invariant
            i <= devices@.len(),
            forall|k: int|
                0 <= k < i ==> microvm_virtio_device((#[trigger] devices@[k]).0, devices@[k].1.id@),
        decreases devices@.len() - i,
    {
        let id = devices[i].1.id.as_str();
        if devices[i].0 != VirtioBus::Mmio || !(same_text(id, "virtio-blk") || same_text(
            id,
            "virtio-console",
        ) || same_text(id, "virtio-net")) {
            assert(!microvm_virtio_device(devices@[i as int].0, devices@[i as int].1.id@));
            return false;
        }
        i += 1;
    }
    true
}

/// Validates the microVM machine contract. Standard-machine configurations are
/// only held to not using the microVM's load mode.
pub fn validate_machine_config(
    config: &Config,
    hypervisor_id: Option<&str>,
    host: HostOs,
) -> (r: Result<(), Refusal>)
    ensures
        refusal_of(r) == machine_refusal(*config, text_view(hypervisor_id), host),
{
    let pvh: bool = match &config.load_mode {
        LoadMode::Pvh { .. } => true,
        _ => false,
    };
    if config.machine_profile == MachineProfile::Standard {
        if pvh {
            return Err(refuse("PVH load mode requires the microVM profile"));
        }
        return Ok(());
    }
    if let Err(e) = validate_microvm_virtio_reservations() {
        return Err(e);
    }
    if let Err(e) = validate_microvm_command_line(config, hypervisor_id, host) {
        return Err(e);
    }
    if let Some(id) = hypervisor_id {
        if !(same_text(id, "kvm") || same_text(id, "whp")) {
            return Err(refuse("microVM ABI version 1 requires the KVM or WHP hypervisor"));
        }
    }
    if config.processor_topology.proc_count != 1 {
        return Err(refuse("microVM ABI version 1 requires exactly one vCPU"));
    }
    let fixed_apic: bool = match config.processor_topology.arch {
        Some(ArchTopologyConfig::X86(x86)) => x86.apic_id_offset == 0 && x86.x2apic
            == X2ApicConfig::Auto,
        _ => false,
    };
    if config.processor_topology.vps_per_socket.is_some()
        || config.processor_topology.enable_smt.is_some() || !fixed_apic {
        return Err(refuse("microVM ABI version 1 requires its fixed x86 APIC topology"));
    }
    if config.numa.nodes.len() != 1 || config.numa.distances.len() != 0 {
        return Err(refuse("microVM ABI version 1 requires a single NUMA node"));
    }
    if config.hypervisor.with_hv || config.hypervisor.with_vtl2.is_some()
        || config.hypervisor.with_isolation.is_some() || config.hypervisor.nested_virt {
        return Err(
            refuse(
                "microVM ABI version 1 does not support Hyper-V enlightenments, VTL2, isolation, or nested virtualization",
            ),
        );
    }
    if config.chipset != (BaseChipsetManifest {
        with_generic_cmos_rtc: true,
        with_other_devices: false,
    }) {
        return Err(refuse("microVM ABI version 1 chipset is not the microVM allowlist"));
    }
    let c = &config.chipset_capabilities;
    if !(c.with_ioapic && c.with_pic && c.with_pit && !c.with_generic_isa_dma && !c.with_psp
        && !c.with_guest_watchdog && !c.with_i440bx_host_pci_bridge) {
        return Err(
            refuse("microVM ABI version 1 chipset capabilities do not match the fixed profile"),
        );
    }
    if !exact_inventory(&config.chipset_devices) {
        return Err(refuse("microVM ABI version 1 chipset-device inventory is not exact"));
    }
    if config.floppy_disks.len() != 0 || config.ide_disks.len() != 0 {
        return Err(refuse("microVM ABI version 1 does not support floppy or IDE devices"));
    }
    if config.pcie_root_complexes.len() != 0 || config.pcie_devices.len() != 0
        || config.pcie_switches.len() != 0 || config.pcie_generic_initiators.len() != 0
        || config.vpci_devices.len() != 0 || config.pci_chipset_devices.len() != 0
        || config.isa_dma_controller.is_some() {
        return Err(
            refuse("microVM ABI version 1 does not support PCI, PCIe, VPCI, or ISA DMA"),
        );
    }
    if config.vmbus.is_some() || config.vtl2_vmbus.is_some() || config.vmbus_devices.len() != 0 {
        return Err(refuse("microVM ABI version 1 does not support VMBus"));
    }
    if config.framebuffer || config.vga_firmware || config.vtl2_gfx {
        return Err(refuse("microVM ABI version 1 does not support graphics or VGA firmware"));
    }
    if config.vmgs.is_some() {
        return Err(refuse("microVM ABI version 1 does not support VMGS"));
    }
    if config.firmware_event_send || config.debugger_rpc {
        return Err(
            refuse("microVM ABI version 1 does not support firmware or debugger resources"),
        );
    }
    if config.rtc_delta_milliseconds != 0 {
        return Err(refuse("microVM ABI version 1 RTC must be anchored directly to UTC"));
    }
    if config.kernel_vmnics.len() != 0 || config.vpci_resources.len() != 0 {
        return Err(
            refuse("microVM ABI version 1 does not support kernel NIC or VPCI resources"),
        );
    }
    if config.virtio_devices.len() > 3 {
        return Err(refuse("microVM ABI version 1 permits at most one virtio-blk device"));
    }
    if !allowed_virtio_devices(&config.virtio_devices) {
        return Err(refuse("microVM ABI version 1 permits only an MMIO virtio-blk device"));
    }
    if config.layout.chipset_low_mmio_size != 1024 * 1024 * 1024
        || config.layout.chipset_high_mmio_size != 0 || config.layout.vtl2_chipset_mmio_size
        != 0 {
        return Err(refuse("microVM ABI version 1 requires the fixed 3-GiB/4-GiB RAM split"));
    }
    Ok(())
}

} // verus!
