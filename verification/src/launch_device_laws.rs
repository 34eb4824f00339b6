//! What holds of the devices of launched machines.

use vstd::prelude::*;

use crate::chipset::IgvmPersonality;
use crate::config::{
    Config, DeviceVtl, GuestArch, Guid, HostOs, MemoryRange, SmbiosConfig, VmgsResource,
};
use crate::console::{SerialConfigCli, SerialEndpoint};
use crate::launch::VirtioBusOption;
use crate::launch_config::{holds_launch_parts, LaunchParts};
use crate::launch_devices::{
    device_if, listed, on_buses, on_ports, on_vpci, paravisor_vtl, relay_bus, virtio_slots,
    vmbus_devices, vmbus_if, vmbus_nics, NicOffer, VirtioClass, VirtioKind, VirtioOptions,
    VirtioSlot, VmbusDeviceOptions, VmbusKind,
};
use crate::launch_firmware::{
    chipset_features, default_window_title, guest_emulation, microvm_filesystem_slot, plan_tpm,
    port_identity_from_random, serial_opening, ChipsetFeatures, FirmwareOptions,
    GuestEmulationPlan, GuestFirmware, SerialDevice, SerialOpening, TpmPlan, TpmVersion,
};
use crate::launch_lists::{
    memory_ranges, mounts_at_boot, pcie_list, vpci_device_list, PcieKind, PciePorts,
    VpciKind,
};
use crate::refusal::{string_view, Refusal};
use crate::snapshot::{SnapshotMachineContract, SnapshotMemoryExpansionRange};
use crate::text::has_suffix;

verus! {

/// A launched machine is made of its parts: each list of devices as it was put
/// together, VMBus only with enlightenments, a screen for whoever shows it, and the
/// guest state kept here unless the guest emulation channel takes it over.
pub proof fn law_launched_machine_is_its_parts(config: Config, parts: LaunchParts)
    requires
        holds_launch_parts(config, parts),
    ensures
        config.machine_profile == parts.machine && config.load_mode == parts.load_mode,
        config.numa == parts.numa && config.processor_topology.proc_count == parts.processors,
        config.floppy_disks == parts.floppy_disks && config.ide_disks == parts.ide_disks,
        config.virtio_devices == parts.virtio_devices && config.vpci_devices == parts.vpci_devices
            && config.vmbus_devices == parts.vmbus_devices && config.pcie_devices
            == parts.pcie_devices && config.kernel_vmnics == parts.kernel_vmnics,
        config.pcie_root_complexes == parts.root_complexes && config.pcie_switches
            == parts.switches && config.pcie_generic_initiators == parts.generic_initiators
            && config.pcie_ecam_below_4gb == parts.ecam_below_4gb,
        config.chipset == parts.chipset && config.chipset_devices == parts.chipset_devices
            && config.pci_chipset_devices == parts.pci_chipset_devices
            && config.isa_dma_controller == parts.isa_dma_controller
            && config.chipset_capabilities == parts.chipset_capabilities && config.layout
            == parts.layout,
        config.microvm_network == parts.microvm_network,
        config.vpci_resources == parts.vpci_resources,
        config.hypervisor.with_hv == parts.with_hv && config.hypervisor.nested_virt
            == parts.nested_virt,
        config.hypervisor.with_vtl2 is Some <==> parts.vtl2,
        config.hypervisor.with_isolation is Some <==> parts.isolation is Some,
        config.vmbus is Some ==> parts.with_hv && config.vmbus->0.vsock_path
            == parts.vmbus.vsock_path,
        parts.with_hv && !parts.vmbus.no_vmbus ==> config.vmbus is Some,
        config.vtl2_vmbus is Some <==> parts.with_hv && parts.vtl2,
        !config.framebuffer <==> !parts.gfx && !parts.vtl2_gfx && !parts.vnc && !parts.pcat,
        config.vga_firmware == parts.pcat && config.vtl2_gfx == parts.vtl2_gfx,
        parts.with_get && parts.with_hv ==> config.vmgs is None,
        !(parts.with_get && parts.with_hv) ==> config.vmgs == parts.vmgs,
        config.rtc_delta_milliseconds == 0 && !config.debugger_rpc && !config.firmware_event_send,
{
}

/// The bus and the port that a listed device is asked to be on.
pub open spec fn listed_ports(opt: VirtioOptions, class: VirtioClass) -> Seq<Option<String>> {
    match class {
        VirtioClass::Net => opt.net@,
        VirtioClass::HostFs => opt.host_fs@,
        VirtioClass::SharedMemoryFs => opt.shared_memory_fs@,
        VirtioClass::Plan9 => opt.plan9@,
        VirtioClass::VhostUser => opt.vhost_user@,
    }
}

proof fn lemma_listed(
    class: VirtioClass,
    ports: Seq<Option<String>>,
    bus: VirtioBusOption,
    slot: VirtioSlot,
)
    ensures
        listed(class, ports, bus).contains(slot) <==> exists|i: int|
            0 <= i < ports.len() && slot == (VirtioSlot {
                kind: VirtioKind::Listed(class, i as usize),
                pcie_port: string_view(#[trigger] ports[i]),
                bus,
            }),
{
    let list = listed(class, ports, bus);
    if list.contains(slot) {
        let i = choose|i: int| 0 <= i < list.len() && list[i] == slot;
        let port = ports[i];
    }
    if exists|i: int|
        0 <= i < ports.len() && slot == (VirtioSlot {
            kind: VirtioKind::Listed(class, i as usize),
            pcie_port: string_view(#[trigger] ports[i]),
            bus,
        }) {
        let i = choose|i: int|
            0 <= i < ports.len() && slot == (VirtioSlot {
                kind: VirtioKind::Listed(class, i as usize),
                pcie_port: string_view(#[trigger] ports[i]),
                bus,
            });
        assert(list[i] == slot);
    }
}

proof fn lemma_device_if(
    condition: bool,
    kind: VirtioKind,
    port: Option<Seq<char>>,
    bus: VirtioBusOption,
    slot: VirtioSlot,
)
    ensures
        device_if(condition, kind, port, bus).contains(slot) <==> condition && slot == (VirtioSlot {
            kind,
            pcie_port: port,
            bus,
        }),
{
    let list = device_if(condition, kind, port, bus);
    if condition {
        assert(list[0] == (VirtioSlot { kind, pcie_port: port, bus }));
    }
}

/// Every virtio device of a launched machine was asked for, and is asked to be where its
/// options say. What only the Linux kernel provides is there only on Linux, and what
/// belongs to a microVM is mapped in memory and behind no port.
pub proof fn law_virtio_devices_were_asked_for(opt: VirtioOptions, host: HostOs, slot: VirtioSlot)
    requires
        virtio_slots(opt, host).contains(slot),
    ensures
        slot.kind is MicrovmNet ==> opt.microvm_network && slot.pcie_port is None && slot.bus
            is Mmio,
        slot.kind matches VirtioKind::MicrovmFs { dormant } ==> opt.microvm_filesystem_slot && (
        dormant <==> !opt.microvm_filesystem_mounted) && slot.pcie_port is None && slot.bus is Mmio,
        slot.kind matches VirtioKind::Listed(class, index) ==> {
            &&& exists|i: int|
                0 <= i < listed_ports(opt, class).len() && i as usize == index && slot.pcie_port
                    == string_view(#[trigger] listed_ports(opt, class)[i])
            &&& class is HostFs || class is SharedMemoryFs ==> slot.bus == opt.fs_bus
            &&& class is Net || class is Plan9 || class is VhostUser ==> slot.bus is Auto
            &&& class is VhostUser ==> host is Linux
        },
        slot.kind is PersistentMemory ==> opt.persistent_memory && slot.pcie_port == string_view(
            opt.persistent_memory_port,
        ) && slot.bus is Auto,
        slot.kind is Entropy ==> opt.entropy && slot.pcie_port == string_view(opt.entropy_port)
            && slot.bus == opt.entropy_bus,
        slot.kind is Console ==> opt.console,
        slot.kind is Console && opt.microvm ==> slot.pcie_port is None && slot.bus is Mmio,
        slot.kind is Console && !opt.microvm ==> slot.pcie_port == string_view(opt.console_port)
            && slot.bus is Auto,
        slot.kind is Vsock ==> opt.vsock && slot.pcie_port is None,
        slot.kind matches VirtioKind::VhostVsock { guest_cid } ==> host is Linux
            && opt.vhost_vsock_cid == Some(guest_cid) && slot.pcie_port is None,
        slot.kind is Vsock || slot.kind is VhostVsock ==> (if opt.vsock_bus is Some {
            slot.bus == opt.vsock_bus->0
        } else {
            slot.bus is Auto
        }),
{
    lemma_virtio_slots(opt, host, slot);
    if let VirtioKind::Listed(class, index) = slot.kind {
        let ports = listed_ports(opt, class);
        assert(listed(class, ports, slot.bus).contains(slot));
        lemma_listed(class, ports, slot.bus, slot);
    }
}

/// What the list of virtio devices holds, part by part.
proof fn lemma_virtio_slots(opt: VirtioOptions, host: HostOs, slot: VirtioSlot)
    ensures
        virtio_slots(opt, host).contains(slot) <==> {
            let auto = VirtioBusOption::Auto;
            let mmio = VirtioBusOption::Mmio;
            ||| device_if(opt.microvm_network, VirtioKind::MicrovmNet, None, mmio).contains(slot)
            ||| device_if(
                opt.microvm_filesystem_slot,
                VirtioKind::MicrovmFs { dormant: !opt.microvm_filesystem_mounted },
                None,
                mmio,
            ).contains(slot)
            ||| listed(VirtioClass::Net, opt.net@, auto).contains(slot)
            ||| listed(VirtioClass::HostFs, opt.host_fs@, opt.fs_bus).contains(slot)
            ||| listed(VirtioClass::SharedMemoryFs, opt.shared_memory_fs@, opt.fs_bus).contains(
                slot,
            )
            ||| listed(VirtioClass::Plan9, opt.plan9@, auto).contains(slot)
            ||| device_if(
                opt.persistent_memory,
                VirtioKind::PersistentMemory,
                string_view(opt.persistent_memory_port),
                auto,
            ).contains(slot)
            ||| device_if(
                opt.entropy,
                VirtioKind::Entropy,
                string_view(opt.entropy_port),
                opt.entropy_bus,
            ).contains(slot)
            ||| device_if(
                opt.console,
                VirtioKind::Console,
                if opt.microvm {
                    None
                } else {
                    string_view(opt.console_port)
                },
                if opt.microvm {
                    mmio
                } else {
                    auto
                },
            ).contains(slot)
            ||| host is Linux && listed(VirtioClass::VhostUser, opt.vhost_user@, auto).contains(
                slot,
            )
            ||| device_if(opt.vsock, VirtioKind::Vsock, None, relay_bus(opt)).contains(slot)
            ||| device_if(
                host is Linux && opt.vhost_vsock_cid is Some,
                VirtioKind::VhostVsock { guest_cid: opt.vhost_vsock_cid->0 },
                None,
                relay_bus(opt),
            ).contains(slot)
        },
        forall|class: VirtioClass, ports: Seq<Option<String>>, bus: VirtioBusOption|
            (#[trigger] listed(class, ports, bus)).contains(slot) <==> exists|i: int|
                0 <= i < ports.len() && slot == (VirtioSlot {
                    kind: VirtioKind::Listed(class, i as usize),
                    pcie_port: string_view(#[trigger] ports[i]),
                    bus,
                }),
        forall|condition: bool, kind: VirtioKind, port: Option<Seq<char>>, bus: VirtioBusOption|
            (#[trigger] device_if(condition, kind, port, bus)).contains(slot) <==> condition && slot
                == (VirtioSlot { kind, pcie_port: port, bus }),
{
    broadcast use vstd::seq_lib::lemma_seq_concat_contains_all_elements;

    assert forall|class: VirtioClass, ports: Seq<Option<String>>, bus: VirtioBusOption|
        (#[trigger] listed(class, ports, bus)).contains(slot) <==> exists|i: int|
            0 <= i < ports.len() && slot == (VirtioSlot {
                kind: VirtioKind::Listed(class, i as usize),
                pcie_port: string_view(#[trigger] ports[i]),
                bus,
            }) by {
        lemma_listed(class, ports, bus, slot);
    }
    assert forall|condition: bool, kind: VirtioKind, port: Option<Seq<char>>, bus: VirtioBusOption|
        (#[trigger] device_if(condition, kind, port, bus)).contains(slot) <==> condition && slot == (
        VirtioSlot { kind, pcie_port: port, bus }) by {
        lemma_device_if(condition, kind, port, bus, slot);
    }
    assert(!Seq::<VirtioSlot>::empty().contains(slot));
}

/// Whatever is asked for is there: the network and the exported directory of a microVM,
/// each listed device under its own index, memory, entropy, the console and the
/// relays.
pub proof fn law_asked_virtio_devices_are_there(
    opt: VirtioOptions,
    host: HostOs,
    class: VirtioClass,
    i: int,
)
    requires
        0 <= i < listed_ports(opt, class).len(),
    ensures
        opt.microvm_network ==> has_kind(opt, host, VirtioKind::MicrovmNet),
        opt.microvm_filesystem_slot ==> has_kind(
            opt,
            host,
            VirtioKind::MicrovmFs { dormant: !opt.microvm_filesystem_mounted },
        ),
        class is VhostUser ==> host is Linux ==> has_kind(
            opt,
            host,
            VirtioKind::Listed(class, i as usize),
        ),
        !(class is VhostUser) ==> has_kind(opt, host, VirtioKind::Listed(class, i as usize)),
        opt.persistent_memory ==> has_kind(opt, host, VirtioKind::PersistentMemory),
        opt.entropy ==> has_kind(opt, host, VirtioKind::Entropy),
        opt.console ==> has_kind(opt, host, VirtioKind::Console),
        opt.vsock ==> has_kind(opt, host, VirtioKind::Vsock),
        host is Linux && opt.vhost_vsock_cid is Some ==> has_kind(
            opt,
            host,
            VirtioKind::VhostVsock { guest_cid: opt.vhost_vsock_cid->0 },
        ),
{
    let auto = VirtioBusOption::Auto;
    let mmio = VirtioBusOption::Mmio;
    let net = VirtioSlot { kind: VirtioKind::MicrovmNet, pcie_port: None, bus: mmio };
    lemma_virtio_slots(opt, host, net);
    let fs = VirtioSlot {
        kind: VirtioKind::MicrovmFs { dormant: !opt.microvm_filesystem_mounted },
        pcie_port: None,
        bus: mmio,
    };
    lemma_virtio_slots(opt, host, fs);
    let one = VirtioSlot {
        kind: VirtioKind::Listed(class, i as usize),
        pcie_port: string_view(listed_ports(opt, class)[i]),
        bus: if class is HostFs || class is SharedMemoryFs {
            opt.fs_bus
        } else {
            auto
        },
    };
    lemma_virtio_slots(opt, host, one);
    lemma_listed(class, listed_ports(opt, class), one.bus, one);
    let memory = VirtioSlot {
        kind: VirtioKind::PersistentMemory,
        pcie_port: string_view(opt.persistent_memory_port),
        bus: auto,
    };
    lemma_virtio_slots(opt, host, memory);
    let entropy = VirtioSlot {
        kind: VirtioKind::Entropy,
        pcie_port: string_view(opt.entropy_port),
        bus: opt.entropy_bus,
    };
    lemma_virtio_slots(opt, host, entropy);
    let console = VirtioSlot {
        kind: VirtioKind::Console,
        pcie_port: if opt.microvm {
            None
        } else {
            string_view(opt.console_port)
        },
        bus: if opt.microvm {
            mmio
        } else {
            auto
        },
    };
    lemma_virtio_slots(opt, host, console);
    let vsock = VirtioSlot { kind: VirtioKind::Vsock, pcie_port: None, bus: relay_bus(opt) };
    lemma_virtio_slots(opt, host, vsock);
    let vhost = VirtioSlot {
        kind: VirtioKind::VhostVsock { guest_cid: opt.vhost_vsock_cid->0 },
        pcie_port: None,
        bus: relay_bus(opt),
    };
    lemma_virtio_slots(opt, host, vhost);
}

/// Some virtio device of the machine is of a kind.
pub open spec fn has_kind(opt: VirtioOptions, host: HostOs, kind: VirtioKind) -> bool {
    exists|slot: VirtioSlot| #[trigger]
        virtio_slots(opt, host).contains(slot) && slot.kind == kind
}

/// A device that names a port is behind it and nowhere else, in the order of the
/// requests; a device that names none is behind no port.
pub proof fn law_devices_are_behind_their_ports(
    requests: Seq<VirtioSlot>,
    with_hv: bool,
    host: HostOs,
    n: int,
    k: int,
)
    requires
        0 <= k < n <= requests.len(),
    ensures
        requests[k].pcie_port is Some ==> on_ports(requests, n).contains(
            (requests[k].pcie_port->0, requests[k].kind),
        ),
        requests[k].pcie_port is None && requests[k].bus is Mmio ==> on_buses(
            requests,
            with_hv,
            host,
            n,
        ).contains((crate::config::VirtioBus::Mmio, requests[k].kind)),
        requests[k].pcie_port is None && requests[k].bus is Pci ==> on_buses(
            requests,
            with_hv,
            host,
            n,
        ).contains((crate::config::VirtioBus::Pci, requests[k].kind)),
        requests[k].pcie_port is None && requests[k].bus is Vpci ==> on_vpci(
            requests,
            with_hv,
            host,
            n,
        ).contains(requests[k].kind),
    decreases n,
{
    let ports = on_ports(requests, n - 1);
    let buses = on_buses(requests, with_hv, host, n - 1);
    let vpci = on_vpci(requests, with_hv, host, n - 1);
    let last = requests[n - 1];
    if k < n - 1 {
        law_devices_are_behind_their_ports(requests, with_hv, host, n - 1, k);
        assert(forall|x: (Seq<char>, VirtioKind), y: (Seq<char>, VirtioKind)|
            ports.contains(x) ==> #[trigger] ports.push(y).contains(x)) by {
            broadcast use vstd::seq_lib::group_seq_properties;

        }
        assert(forall|x: (crate::config::VirtioBus, VirtioKind), y: (
            crate::config::VirtioBus,
            VirtioKind,
        )| buses.contains(x) ==> #[trigger] buses.push(y).contains(x)) by {
            broadcast use vstd::seq_lib::group_seq_properties;

        }
        assert(forall|x: VirtioKind, y: VirtioKind|
            vpci.contains(x) ==> #[trigger] vpci.push(y).contains(x)) by {
            broadcast use vstd::seq_lib::group_seq_properties;

        }
    } else {
        if last.pcie_port is Some {
            let new = (last.pcie_port->0, last.kind);
            assert(ports.push(new)[ports.len() as int] == new);
        } else if last.bus is Mmio {
            let new = (crate::config::VirtioBus::Mmio, last.kind);
            assert(buses.push(new)[buses.len() as int] == new);
        } else if last.bus is Pci {
            let new = (crate::config::VirtioBus::Pci, last.kind);
            assert(buses.push(new)[buses.len() as int] == new);
        } else if last.bus is Vpci {
            assert(vpci.push(last.kind)[vpci.len() as int] == last.kind);
        }
    }
}

/// The paravisor's own devices are offered to it where there is one, and to the guest
/// where there is none.
pub proof fn law_paravisor_level(vtl2: bool, r: DeviceVtl)
    requires
        call_ensures(paravisor_vtl, (vtl2,), r),
    ensures
        r is Vtl2 <==> vtl2,
        r is Vtl0 <==> !vtl2,
{
}

proof fn lemma_vmbus_nics(nics: Seq<NicOffer>, n: int, vtl: DeviceVtl, index: int)
    requires
        0 <= n <= nics.len() <= usize::MAX,
        0 <= index,
    ensures
        vmbus_nics(nics, n).contains((vtl, VmbusKind::Nic(index as usize))) && index <= usize::MAX
            <==> index < n && !nics[index].underhill && nics[index].vtl == vtl,
        forall|x: (DeviceVtl, VmbusKind)| #[trigger]
            vmbus_nics(nics, n).contains(x) ==> x.1 is Nic,
    decreases n,
{
    let wanted = (vtl, VmbusKind::Nic(index as usize));
    if n > 0 {
        lemma_vmbus_nics(nics, n - 1, vtl, index);
        let before = vmbus_nics(nics, n - 1);
        let all = vmbus_nics(nics, n);
        if !nics[n - 1].underhill {
            let new = (nics[n - 1].vtl, VmbusKind::Nic((n - 1) as usize));
            assert(all == before.push(new));
            assert(all[n as int - n + before.len()] == new);
            assert forall|x: (DeviceVtl, VmbusKind)| all.contains(x) <==> before.contains(x) || x
                == new by {
                if all.contains(x) {
                    let j = choose|j: int| 0 <= j < all.len() && all[j] == x;
                    if j < before.len() {
                        assert(before[j] == x);
                    }
                }
                if before.contains(x) {
                    let j = choose|j: int| 0 <= j < before.len() && before[j] == x;
                    assert(all[j] == x);
                }
                if x == new {
                    assert(all[before.len() as int] == x);
                }
            }
            if index <= usize::MAX && wanted == new {
                assert(index as usize == index);
            }
        }
    }
}

/// A listed network device is on VMBus exactly when the paravisor does not offer it
/// instead, at the trust level that it names; a microVM has none there.
pub proof fn law_nics_are_offered_once(
    opt: VmbusDeviceOptions,
    out: Vec<(DeviceVtl, VmbusKind)>,
    index: int,
    vtl: DeviceVtl,
)
    requires
        call_ensures(vmbus_devices, (&opt,), out),
        0 <= index < opt.nics@.len() <= usize::MAX,
    ensures
        out@.contains((vtl, VmbusKind::Nic(index as usize))) <==> !opt.microvm
            && !opt.nics@[index].underhill && opt.nics@[index].vtl == vtl,
{
    lemma_vmbus_nics(opt.nics@, opt.nics@.len() as int, vtl, index);
    lemma_vmbus_list(opt, (vtl, VmbusKind::Nic(index as usize)));
}

proof fn lemma_no_offer(wanted: (DeviceVtl, VmbusKind))
    ensures
        forall|condition: bool, vtl: DeviceVtl, kind: VmbusKind|
            (#[trigger] vmbus_if(condition, vtl, kind)).contains(wanted) <==> condition && wanted
                == (vtl, kind),
{
    assert forall|condition: bool, vtl: DeviceVtl, kind: VmbusKind|
        (#[trigger] vmbus_if(condition, vtl, kind)).contains(wanted) <==> condition && wanted == (
        vtl,
        kind,
    ) by {
        if condition {
            assert(vmbus_if(condition, vtl, kind)[0] == (vtl, kind));
        }
    }
}

/// The machine has a device on VMBus, at a trust level.
pub open spec fn offers(opt: VmbusDeviceOptions, wanted: (DeviceVtl, VmbusKind)) -> bool {
    let own = if opt.vtl2 {
        DeviceVtl::Vtl2
    } else {
        DeviceVtl::Vtl0
    };
    let guest = DeviceVtl::Vtl0;
    let get = opt.with_get && opt.with_hv;
    let integration = opt.with_hv && !opt.no_vmbus;
    ||| opt.serial1 && wanted == (own, VmbusKind::Serial1)
    ||| opt.serial2 && wanted == (own, VmbusKind::Serial2)
    ||| !opt.microvm && vmbus_nics(opt.nics@, opt.nics@.len() as int).contains(wanted)
    ||| opt.default_nic && wanted == (guest, VmbusKind::DefaultNic)
    ||| get && wanted == (own, VmbusKind::GuestEmulationLog)
    ||| get && wanted == (own, VmbusKind::GuestEmulationDevice)
    ||| opt.gfx && wanted == (guest, VmbusKind::Video)
    ||| opt.gfx && wanted == (guest, VmbusKind::Keyboard)
    ||| opt.gfx && wanted == (guest, VmbusKind::Mouse)
    ||| opt.crash_dump && wanted == (own, VmbusKind::CrashDump)
    ||| integration && wanted == (guest, VmbusKind::ShutdownIc)
    ||| integration && wanted == (guest, VmbusKind::KeyValueIc)
    ||| integration && wanted == (guest, VmbusKind::TimeSyncIc)
    ||| opt.configuration_hive && wanted == (guest, VmbusKind::ConfigurationHive)
}

/// What the list of VMBus devices holds, part by part.
proof fn lemma_vmbus_list(opt: VmbusDeviceOptions, wanted: (DeviceVtl, VmbusKind))
    ensures
        crate::launch_devices::vmbus_list(opt).contains(wanted) <==> offers(opt, wanted),
{
    broadcast use vstd::seq_lib::lemma_seq_concat_contains_all_elements;

    lemma_no_offer(wanted);
    assert(!Seq::<(DeviceVtl, VmbusKind)>::empty().contains(wanted));
}

/// The same device, seen from its kind.
pub open spec fn was_asked_for(opt: VmbusDeviceOptions, vtl: DeviceVtl, kind: VmbusKind) -> bool {
    let paravisor = kind is Serial1 || kind is Serial2 || kind is GuestEmulationLog || kind
        is GuestEmulationDevice || kind is CrashDump;
    &&& paravisor && opt.vtl2 ==> vtl is Vtl2
    &&& !(paravisor && opt.vtl2) ==> vtl is Vtl0
    &&& kind is Serial1 ==> opt.serial1
    &&& kind is Serial2 ==> opt.serial2
    &&& kind is DefaultNic ==> opt.default_nic
    &&& kind is GuestEmulationLog || kind is GuestEmulationDevice ==> opt.with_get && opt.with_hv
    &&& kind is Video || kind is Keyboard || kind is Mouse ==> opt.gfx
    &&& kind is CrashDump ==> opt.crash_dump
    &&& kind is ShutdownIc || kind is KeyValueIc || kind is TimeSyncIc ==> opt.with_hv
        && !opt.no_vmbus
    &&& kind is ConfigurationHive ==> opt.configuration_hive
}

proof fn lemma_offers(opt: VmbusDeviceOptions, vtl: DeviceVtl, kind: VmbusKind)
    requires
        !(kind is Nic),
        opt.nics@.len() <= usize::MAX,
    ensures
        offers(opt, (vtl, kind)) <==> was_asked_for(opt, vtl, kind),
{
    lemma_vmbus_nics(opt.nics@, opt.nics@.len() as int, vtl, 0);
}

pub proof fn lemma_offered(opt: VmbusDeviceOptions, vtl: DeviceVtl, kind: VmbusKind)
    requires
        !(kind is Nic),
        opt.nics@.len() <= usize::MAX,
    ensures
        crate::launch_devices::vmbus_list(opt).contains((vtl, kind)) <==> was_asked_for(
            opt,
            vtl,
            kind,
        ),
{
    lemma_vmbus_list(opt, (vtl, kind));
    lemma_offers(opt, vtl, kind);
}

/// Each other device on VMBus is there exactly when it is asked for: serial ports and
/// crash dumps for the paravisor where there is one, the guest emulation device and
/// its log with a channel and enlightenments, the screen and its input with graphics,
/// and the integration services wherever the guest has VMBus.
pub proof fn law_vmbus_devices_were_asked_for(
    opt: VmbusDeviceOptions,
    out: Vec<(DeviceVtl, VmbusKind)>,
    vtl: DeviceVtl,
    kind: VmbusKind,
)
    requires
        call_ensures(vmbus_devices, (&opt,), out),
        !(kind is Nic),
        opt.nics@.len() <= usize::MAX,
    ensures
        out@.contains((vtl, kind)) <==> was_asked_for(opt, vtl, kind),
{
    lemma_offered(opt, vtl, kind);
}

/// A trusted platform module is the asked version, bound to this machine's identifier,
/// and kept where guest state is kept; a machine with a paravisor leaves it to the
/// paravisor.
pub proof fn law_tpm_is_bound_to_its_machine(
    tpm: Option<TpmVersion>,
    vtl2: bool,
    vmgs: bool,
    arch: GuestArch,
    bios_guid: Guid,
    r: Option<TpmPlan>,
)
    requires
        call_ensures(plan_tpm, (tpm, vtl2, vmgs, arch, bios_guid), r),
    ensures
        r is Some <==> tpm is Some && !vtl2,
        r matches Some(plan) ==> {
            &&& Some(plan.version) == tpm && plan.bios_guid == bios_guid
            &&& plan.persistent <==> vmgs
            &&& plan.register_layout is IoPort <==> arch is X86_64
        },
{
}

/// What is added to a chipset is what its options ask for: serial ports where any is
/// connected, a screen where it is shown, and the firmware's variables exactly for a
/// UEFI firmware, with the template of this architecture unless they start bare.
pub proof fn law_chipset_has_what_is_asked(opt: FirmwareOptions, r: ChipsetFeatures)
    requires
        call_ensures(chipset_features, (&opt,), r),
    ensures
        !r.framebuffer <==> !opt.gfx && !opt.vtl2_gfx && !opt.vnc && !opt.pcat,
        r.guest_watchdog == opt.guest_watchdog && r.battery == opt.battery && r.without_vmbus
            == opt.no_vmbus && r.debugcon == opt.debugcon && r.serial_debugger
            == opt.serial_debugger,
        r.serial is None <==> !opt.serial[0] && !opt.serial[1] && !opt.serial[2] && !opt.serial[3],
        r.serial is Some ==> r.serial->0 == opt.serial,
        r.variables is Some <==> (opt.igvm_personality == Some(IgvmPersonality::Uefi) || opt.uefi
            && !opt.igvm && !opt.pcat),
        r.variables matches Some(store) ==> {
            &&& store.secure_boot == opt.secure_boot && store.custom_variables
                == opt.custom_variables
            &&& store.persistent <==> opt.vmgs
            &&& store.template is None <==> opt.secure_boot_template is Bare
            &&& store.template matches Some((arch, template)) ==> arch == opt.arch && template
                == opt.secure_boot_template
            &&& opt.log_level is Some ==> store.log_level == opt.log_level->0
            &&& opt.log_level is None ==> store.log_level is Default
        },
{
}

/// A paravisor is told what the options say: which firmware boots and how, the guest
/// state that it takes over, and each device and setting under its own name. It never
/// keeps secrets of its own.
pub proof fn law_paravisor_is_told_the_options(
    opt: FirmwareOptions,
    vmgs: Option<VmgsResource>,
    has_nvme: bool,
    smbios: SmbiosConfig,
    r: GuestEmulationPlan,
)
    requires
        call_ensures(guest_emulation, (&opt, vmgs, has_nvme, smbios), r),
    ensures
        r.firmware is Pcat <==> opt.pcat,
        r.firmware matches GuestFirmware::Pcat { boot_order } ==> {
            &&& opt.pcat_boot_order is Some ==> boot_order == opt.pcat_boot_order->0
            &&& opt.pcat_boot_order is None ==> boot_order@[0] is Optical && boot_order@[1]
                is HardDrive && boot_order@[2] is Network && boot_order@[3] is Floppy
        },
        r.firmware matches GuestFirmware::Uefi {
            enable_vpci_boot,
            firmware_debug,
            disable_frontpage,
            console_mode,
            default_boot_always_attempt,
        } ==> {
            &&& enable_vpci_boot == has_nvme && firmware_debug == opt.uefi_debug
            &&& disable_frontpage == opt.disable_frontpage && default_boot_always_attempt
                == opt.default_boot_always_attempt
            &&& opt.uefi_console_mode is Some ==> console_mode == opt.uefi_console_mode->0
            &&& opt.uefi_console_mode is None ==> console_mode is Default
        },
        r.vmgs == vmgs && r.smbios == smbios && r.tpm == opt.tpm,
        r.com1 == opt.vmbus_serial1 && r.com2 == opt.vmbus_serial2 && r.serial_tx_only
            == opt.serial_tx_only,
        r.vmbus_redirection == opt.vmbus_redirect && r.framebuffer == opt.vtl2_gfx,
        r.secure_boot == opt.secure_boot && r.secure_boot_template == opt.secure_boot_template,
        r.battery == opt.battery && r.hibernation == opt.hibernation && r.force_dma_bounce
            == opt.force_dma_bounce && r.test_gsp_by_id == opt.test_gsp_by_id,
        r.no_persistent_secrets,
        opt.log_level is Some ==> r.log_level == opt.log_level->0,
        opt.log_level is None ==> r.log_level is Default,
{
}

/// The generation identifier that a guest is shown is the start of the entropy that it
/// is given: whoever reads the packet can tell which generation it belongs to. A
/// guest that is given neither entropy nor memory gets no packet.
pub proof fn law_generation_is_the_start_of_the_entropy(
    entropy: bool,
    memory_target: bool,
    processors: Option<u32>,
    ranges: &[SnapshotMemoryExpansionRange],
    bytes: Option<Vec<u8>>,
    r: Result<([u8; 16], Vec<u8>), Refusal>,
)
    requires
        call_ensures(
            port_identity_from_random,
            (entropy, memory_target, processors, ranges, bytes),
            r,
        ),
    ensures
        bytes is None ==> r is Err,
        r is Ok ==> r->Ok_0.0@ == bytes->0@.take(16),
        r is Ok && !entropy && !memory_target ==> r->Ok_0.1@.len() == 0,
        bytes is Some && !entropy && !memory_target ==> r is Ok,
{
}

/// Every fresh microVM has the slot of an exported directory, and a restored one exactly
/// where its snapshot has; no other machine has it. A fresh one mounts it where
/// something is mounted, a restored one where it already did.
pub proof fn law_directory_slot(
    microvm: bool,
    contract: Option<&SnapshotMachineContract>,
    r: Result<bool, Refusal>,
    mounted: bool,
    at_boot: bool,
)
    requires
        call_ensures(microvm_filesystem_slot, (microvm, contract), r),
        call_ensures(mounts_at_boot, (contract, mounted), at_boot),
    ensures
        !microvm ==> r is Ok && !r->Ok_0,
        microvm && contract is None ==> r is Ok && r->Ok_0,
        microvm && contract is Some && r is Ok ==> (r->Ok_0 <==> crate::snapshot::has_device(
            contract->0.devices@,
            "fs:microvm0"@,
        )),
        contract is None ==> (at_boot <==> mounted),
        contract is Some ==> (at_boot <==> contract->0.microvm_filesystem is Some),
{
}

/// A serial device is opened where its endpoint says. Only the console of a microVM is
/// there while nothing is connected, leaves a socket that is in its way alone, and
/// takes its own away at the end.
pub proof fn law_serial_devices_are_opened_as_named(
    config: SerialConfigCli,
    console: bool,
    device: SerialDevice,
    r: SerialOpening,
)
    requires
        call_ensures(serial_opening, (config, console, device), r),
    ensures
        config@ is Disconnected ==> (r is Disconnected <==> console) && (r is Nothing
            <==> !console),
        !(config@ is Disconnected) ==> !(r is Nothing) && !(r is Disconnected),
        config@ is Console <==> r is Terminal,
        config@ is Stderr <==> r is Diagnostics,
        config@ matches SerialEndpoint::File(path) ==> (r matches SerialOpening::CreateFile(p) && p@
            == path),
        config@ matches SerialEndpoint::Pipe(path) ==> (r matches SerialOpening::Listen {
            path: p,
            clear,
            remove,
        } && p@ == path && (clear <==> !console) && (remove <==> console)),
        config@ matches SerialEndpoint::Tcp(address) ==> (r matches SerialOpening::ListenTcp(a)
            && a@ == address),
        config@ matches SerialEndpoint::ConnectPipe(path) ==> (r matches SerialOpening::Connect {
            path: p,
            timeout_ms,
        } && p@ == path && timeout_ms == 5000),
        config@ matches SerialEndpoint::ConnectTcp(address) ==> (r matches
            SerialOpening::ConnectTcp { address: a, timeout_ms } && a@ == address && timeout_ms
            == 5000),
        config@ matches SerialEndpoint::NewConsole(app, title) ==> (r matches SerialOpening::Window {
            app: a,
            title: t,
        } && string_view(a) == app && (title is Some ==> t@ == title->0)),
{
}

/// A window that was asked for without a title is titled by its device, in capital letters and
/// with the program behind it.
pub proof fn law_untitled_windows_name_their_device(name: Seq<char>, i: int)
    ensures
        has_suffix(default_window_title(name), " [OpenVMM]"@),
        default_window_title(name).len() == name.len() + " [OpenVMM]"@.len(),
        0 <= i < name.len() ==> {
            let shown = default_window_title(name)[i];
            &&& 'a' <= name[i] <= 'z' ==> shown as nat == name[i] as nat - 32
            &&& !('a' <= name[i] <= 'z') ==> shown == name[i]
        },
{
    let title = default_window_title(name);
    let tail = " [OpenVMM]"@;
    assert(title.skip(title.len() - tail.len()) =~= tail);
}

/// Each PCIe device is behind the port that names it: the device at an index of a group
/// is listed with the port at that index. Host devices are assigned on Linux only,
/// and there all of them.
pub proof fn law_pcie_devices_are_behind_their_ports(ports: PciePorts, host: HostOs, i: int)
    ensures
        0 <= i < ports.remote@.len() ==> pcie_list(ports, host).contains(
            (ports.remote@[i]@, PcieKind::Remote(i as usize)),
        ),
        0 <= i < ports.adapters@.len() ==> pcie_list(ports, host).contains(
            (ports.adapters@[i]@, PcieKind::Adapter(i as usize)),
        ),
        0 <= i < ports.cxl_test@.len() ==> pcie_list(ports, host).contains(
            (ports.cxl_test@[i]@, PcieKind::CxlTest(i as usize)),
        ),
        0 <= i < ports.virtio@.len() ==> pcie_list(ports, host).contains(
            (ports.virtio@[i].0@, PcieKind::Virtio(ports.virtio@[i].1)),
        ),
        0 <= i < ports.assigned@.len() && host is Linux ==> pcie_list(ports, host).contains(
            (ports.assigned@[i]@, PcieKind::Assigned(i as usize)),
        ),
        pcie_list(ports, host).len() == ports.remote@.len() + ports.adapters@.len()
            + ports.cxl_test@.len() + ports.virtio@.len() + (if host is Linux {
            ports.assigned@.len()
        } else {
            0
        }),
{
    let list = pcie_list(ports, host);
    let a = ports.remote@.len() as int;
    let b = a + ports.adapters@.len();
    let c = b + ports.cxl_test@.len();
    let d = c + ports.virtio@.len();
    if 0 <= i < ports.remote@.len() {
        assert(list[i] == (ports.remote@[i]@, PcieKind::Remote(i as usize)));
    }
    if 0 <= i < ports.adapters@.len() {
        assert(list[a + i] == (ports.adapters@[i]@, PcieKind::Adapter(i as usize)));
    }
    if 0 <= i < ports.cxl_test@.len() {
        assert(list[b + i] == (ports.cxl_test@[i]@, PcieKind::CxlTest(i as usize)));
    }
    if 0 <= i < ports.virtio@.len() {
        assert(list[c + i] == (ports.virtio@[i].0@, PcieKind::Virtio(ports.virtio@[i].1)));
    }
    if 0 <= i < ports.assigned@.len() && host is Linux {
        assert(list[d + i] == (ports.assigned@[i]@, PcieKind::Assigned(i as usize)));
    }
}

/// The virtual PCI buses hold the emulated adapter of each trust level that has one,
/// under that level, and every virtio device for the guest; and nothing else.
pub proof fn law_virtual_buses_hold_their_devices(
    adapters: [bool; 3],
    virtio: Vec<VirtioKind>,
    out: Vec<(DeviceVtl, VpciKind)>,
    i: int,
)
    requires
        call_ensures(vpci_device_list, (adapters, &virtio), out),
    ensures
        out@.contains((DeviceVtl::Vtl0, VpciKind::Adapter)) <==> adapters[0],
        out@.contains((DeviceVtl::Vtl1, VpciKind::Adapter)) <==> adapters[1],
        out@.contains((DeviceVtl::Vtl2, VpciKind::Adapter)) <==> adapters[2],
        0 <= i < virtio@.len() ==> out@.contains(
            (DeviceVtl::Vtl0, VpciKind::Virtio(virtio@[i])),
        ),
        out@.len() >= virtio@.len(),
{
    broadcast use vstd::seq_lib::lemma_seq_concat_contains_all_elements;

    let tail = virtio@.map_values(|kind: VirtioKind| (DeviceVtl::Vtl0, VpciKind::Virtio(kind)));
    assert forall|vtl: DeviceVtl| !tail.contains((vtl, VpciKind::Adapter)) by {
        if tail.contains((vtl, VpciKind::Adapter)) {
            let j = choose|j: int| 0 <= j < tail.len() && tail[j] == (vtl, VpciKind::Adapter);
            assert(tail[j].1 is Virtio);
        }
    }
    assert forall|present: bool, level: DeviceVtl, vtl: DeviceVtl|
        #[trigger] crate::launch_lists::adapter_if(present, level).contains(
            (vtl, VpciKind::Adapter),
        ) <==> present && vtl == level by {
        if present {
            assert(crate::launch_lists::adapter_if(present, level)[0] == (level, VpciKind::Adapter));
        }
    }
    if 0 <= i < virtio@.len() {
        assert(tail[i] == (DeviceVtl::Vtl0, VpciKind::Virtio(virtio@[i])));
    }
}

/// A recorded range of memory is taken up as it was recorded: it starts where it did and
/// is as long as it was.
pub proof fn law_recorded_ranges_keep_their_place(
    ranges: &[SnapshotMemoryExpansionRange],
    out: Vec<MemoryRange>,
    i: int,
)
    requires
        call_ensures(memory_ranges, (ranges,), out),
        0 <= i < ranges@.len(),
        ranges@[i].gpa_start + ranges@[i].length <= u64::MAX,
    ensures
        out@.len() == ranges@.len(),
        out@[i].start == ranges@[i].gpa_start,
        out@[i].end - out@[i].start == ranges@[i].length,
{
}

} // verus!
