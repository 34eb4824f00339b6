//! What the parts of a PCIe topology say of each other.

use vstd::prelude::*;

use crate::config::{PcieMmioRangeConfig, PcieRootComplexConfig, PcieSwitchConfig};
use crate::pcie::{
    build_pcie_topology, build_switch_list, pcie_mmio_range_config, port_of, port_views,
    ports_refusal, switch_views, walk, walk_complexes, walk_ports, walk_root_ports,
    BuiltPcieTopology, Flat, GenericPcieSwitchCli, PcieAttachmentKind, PcieDeviceRef,
    PciePortRequest, PcieRootComplexRequest, PcieTopologyRequest,
};
use crate::refusal::Refusal;

verus! {

/// A switch of the command line keeps its name and its parent, and has as many ports as it
/// is asked for. All of them have the properties of the switch, and none is given a place or
/// made a CXL port.
pub proof fn law_switches_are_the_described_ones(
    all: &[GenericPcieSwitchCli],
    r: Vec<PcieSwitchConfig>,
    i: int,
    j: int,
)
    requires
        call_ensures(build_switch_list, (all,), r),
        0 <= i < all@.len(),
    ensures
        r@.len() == all@.len(),
        r@[i].name@ == all@[i].name@,
        r@[i].parent_port@ == all@[i].port_name@,
        r@[i].ports@.len() == all@[i].num_downstream_ports,
        0 <= j < r@[i].ports@.len() ==> ({
            let port = r@[i].ports@[j];
            &&& port.hotplug == all@[i].hotplug
            &&& port.acs_capabilities_supported == all@[i].acs_capabilities_supported
            &&& port.pasid == all@[i].pasid
            &&& port.devfn is None
            &&& !port.cxl
            &&& all@[i].name@.is_prefix_of(port.name@)
        }),
{
    assert(switch_views(r@).len() == all@.len());
    assert(switch_views(r@)[i] == r@[i]@);
    assert(r@[i]@.ports.len() == all@[i].num_downstream_ports);
    if 0 <= j < r@[i].ports@.len() {
        assert(port_views(r@[i].ports@)[j] == r@[i].ports@[j]@);
        let name = r@[i].ports@[j].name@;
        assert(all@[i].name@ =~= name.subrange(0, all@[i].name@.len() as int));
    }
}

/// A window has the size that is asked for, and stands where it is asked for; without a
/// place it may stand anywhere, whatever its size. A window that does not fit below the
/// end of memory or is not made of whole pages is refused.
pub proof fn law_windows_are_as_large_as_asked(
    size: u64,
    base: Option<u64>,
    r: Result<PcieMmioRangeConfig, Refusal>,
)
    requires
        call_ensures(pcie_mmio_range_config, (size, base), r),
    ensures
        base is None ==> r is Ok && r->Ok_0 == (PcieMmioRangeConfig::Dynamic { size }),
        base is Some && r is Ok ==> {
            &&& r->Ok_0 matches PcieMmioRangeConfig::Fixed(range)
            &&& range.start == base->0
            &&& range.end - range.start == size
        },
        base is Some ==> (r is Ok <==> base->0 + size <= u64::MAX && base->0 % 4096 == 0 && (base->0
            + size) % 4096 == 0),
{
}

/// A device of a request stands behind a port with a name: behind the port itself, or
/// behind a port of the switch that stands there.
pub open spec fn stands_behind(
    port: Seq<char>,
    kind: PcieAttachmentKind,
    name: Seq<char>,
    device: PcieDeviceRef,
) -> bool
    decreases kind,
{
    match kind {
        PcieAttachmentKind::Device(d) => name == port && device == d,
        PcieAttachmentKind::Switch { name: _, downstream_ports } => exists|i: int|
            0 <= i < downstream_ports@.len() && (match (#[trigger] downstream_ports@[i]).attached {
                Some(Some(below)) => stands_behind(
                    downstream_ports@[i].name@,
                    *below,
                    name,
                    device,
                ),
                _ => false,
            }),
    }
}

/// A device of a request stands behind one of the first ports of a list.
pub open spec fn stands_behind_ports(
    ports: Seq<PciePortRequest>,
    n: nat,
    name: Seq<char>,
    device: PcieDeviceRef,
) -> bool {
    exists|i: int|
        0 <= i < n && (match (#[trigger] ports[i]).attached {
            Some(Some(below)) => stands_behind(ports[i].name@, *below, name, device),
            _ => false,
        })
}

/// A walk behind a port lists the devices that stand there, each by the name of its own port,
/// and no others.
pub proof fn law_walk_lists_the_devices(
    port: Seq<char>,
    kind: PcieAttachmentKind,
    name: Seq<char>,
    device: PcieDeviceRef,
)
    requires
        walk(port, kind) is Ok,
    ensures
        walk(port, kind)->Ok_0.devices.contains((name, device)) <==> stands_behind(
            port,
            kind,
            name,
            device,
        ),
    decreases kind, 0nat,
{
    match kind {
        PcieAttachmentKind::Device(d) => {
            let devices = walk(port, kind)->Ok_0.devices;
            assert(devices[0] == (port, d));
            if devices.contains((name, device)) {
                assert(devices[0] == (name, device));
            }
        },
        PcieAttachmentKind::Switch { name: _, downstream_ports } => {
            let ports = downstream_ports@;
            lemma_walk_ports_devices(ports, ports.len(), name, device);
            let below = walk_ports(ports, ports.len())->Ok_0;
            assert(walk(port, kind)->Ok_0.devices =~= below.devices);
        },
    }
}

proof fn lemma_contains_concat<T>(a: Seq<T>, b: Seq<T>, x: T)
    ensures
        (a + b).contains(x) <==> a.contains(x) || b.contains(x),
{
    if a.contains(x) {
        let i = choose|i: int| 0 <= i < a.len() && a[i] == x;
        assert((a + b)[i] == x);
    }
    if b.contains(x) {
        let i = choose|i: int| 0 <= i < b.len() && b[i] == x;
        assert((a + b)[a.len() + i] == x);
    }
}

proof fn lemma_walk_ports_devices(
    ports: Seq<PciePortRequest>,
    n: nat,
    name: Seq<char>,
    device: PcieDeviceRef,
)
    requires
        walk_ports(ports, n) is Ok,
        n <= ports.len(),
    ensures
        walk_ports(ports, n)->Ok_0.devices.contains((name, device)) <==> stands_behind_ports(
            ports,
            n,
            name,
            device,
        ),
    decreases ports, n,
{
    if n > 0 {
        let m = (n - 1) as nat;
        lemma_walk_ports_devices(ports, m, name, device);
        let before = walk_ports(ports, m)->Ok_0;
        let p = ports[n - 1];
        if let Some(Some(kind)) = p.attached {
            law_walk_lists_the_devices(p.name@, *kind, name, device);
            lemma_contains_concat(
                before.devices,
                walk(p.name@, *kind)->Ok_0.devices,
                (name, device),
            );
            if stands_behind(p.name@, *kind, name, device) {
                assert(ports[n - 1].attached is Some);
            }
        }
        if stands_behind_ports(ports, m, name, device) {
            let i = choose|i: int|
                0 <= i < m && (match (#[trigger] ports[i]).attached {
                    Some(Some(below)) => stands_behind(ports[i].name@, *below, name, device),
                    _ => false,
                });
            assert(ports[i].attached is Some);
        }
    }
}

proof fn lemma_walk_root_ports_devices(
    ports: Seq<PciePortRequest>,
    n: nat,
    name: Seq<char>,
    device: PcieDeviceRef,
)
    requires
        walk_root_ports(ports, n) is Ok,
        n <= ports.len(),
    ensures
        walk_root_ports(ports, n)->Ok_0.devices.contains((name, device)) <==> stands_behind_ports(
            ports,
            n,
            name,
            device,
        ),
        forall|i: int|
            0 <= i < n ==> {
                &&& (#[trigger] ports[i]).devfn is Some ==> ports[i].devfn->0 <= 255
                &&& ports[i].acs_capabilities_supported is Some
                    ==> ports[i].acs_capabilities_supported->0 <= 65535
                &&& ports[i].attached is Some ==> ports[i].attached->0 is Some
            },
    decreases n,
{
    if n > 0 {
        let m = (n - 1) as nat;
        lemma_walk_root_ports_devices(ports, m, name, device);
        let before = walk_root_ports(ports, m)->Ok_0;
        let p = ports[n - 1];
        if let Some(Some(kind)) = p.attached {
            law_walk_lists_the_devices(p.name@, *kind, name, device);
            lemma_contains_concat(
                before.devices,
                walk(p.name@, *kind)->Ok_0.devices,
                (name, device),
            );
            if stands_behind(p.name@, *kind, name, device) {
                assert(ports[n - 1].attached is Some);
            }
        }
        if stands_behind_ports(ports, m, name, device) {
            let i = choose|i: int|
                0 <= i < m && (match (#[trigger] ports[i]).attached {
                    Some(Some(below)) => stands_behind(ports[i].name@, *below, name, device),
                    _ => false,
                });
            assert(ports[i].attached is Some);
        }
    }
}

/// A device of a request stands behind a port of one of the first root complexes.
pub open spec fn stands_in(
    list: Seq<PcieRootComplexRequest>,
    n: nat,
    name: Seq<char>,
    device: PcieDeviceRef,
) -> bool {
    exists|i: int|
        0 <= i < n && stands_behind_ports(
            (#[trigger] list[i]).root_ports@,
            list[i].root_ports@.len(),
            name,
            device,
        )
}

proof fn lemma_walk_complexes_devices(
    list: Seq<PcieRootComplexRequest>,
    n: nat,
    name: Seq<char>,
    device: PcieDeviceRef,
)
    requires
        walk_complexes(list, n) is Ok,
        n <= list.len(),
    ensures
        walk_complexes(list, n)->Ok_0.devices.contains((name, device)) <==> stands_in(
            list,
            n,
            name,
            device,
        ),
        forall|i: int|
            0 <= i < n ==> {
                &&& (#[trigger] list[i]).segment <= 65535
                &&& list[i].start_bus <= 255
                &&& list[i].end_bus <= 255
                &&& list[i].low_mmio_base is Some ==> list[i].low_mmio_base->0 + list[i].low_mmio
                    <= u64::MAX
                &&& list[i].high_mmio_base is Some ==> list[i].high_mmio_base->0
                    + list[i].high_mmio <= u64::MAX
            },
    decreases n,
{
    if n > 0 {
        let m = (n - 1) as nat;
        lemma_walk_complexes_devices(list, m, name, device);
        let before = walk_complexes(list, m)->Ok_0;
        let rc = list[n - 1];
        let ports = rc.root_ports@;
        lemma_walk_root_ports_devices(ports, ports.len(), name, device);
        lemma_contains_concat(
            before.devices,
            walk_root_ports(ports, ports.len())->Ok_0.devices,
            (name, device),
        );
        if stands_behind_ports(ports, ports.len(), name, device) {
            assert(list[n - 1].root_ports@ == ports);
        }
        if stands_in(list, m, name, device) {
            let i = choose|i: int|
                0 <= i < m && stands_behind_ports(
                    (#[trigger] list[i]).root_ports@,
                    list[i].root_ports@.len(),
                    name,
                    device,
                );
            assert(0 <= i < n);
        }
    }
}

/// A topology that is built lists a device by the name of a port exactly where the request
/// has the device behind that port, and passes the generic initiators on.
pub proof fn law_built_topology_has_the_requested_devices(
    topology: PcieTopologyRequest,
    r: Result<BuiltPcieTopology, Refusal>,
    name: Seq<char>,
    device: PcieDeviceRef,
)
    requires
        call_ensures(build_pcie_topology, (topology,), r),
        r is Ok,
    ensures
        (exists|i: int|
            0 <= i < r->Ok_0.devices@.len() && (#[trigger] r->Ok_0.devices@[i]).0@ == name
                && r->Ok_0.devices@[i].1 == device) <==> stands_in(
            topology.root_complexes@,
            topology.root_complexes@.len(),
            name,
            device,
        ),
        r->Ok_0.generic_initiators@ == topology.generic_initiators@,
{
    let list = topology.root_complexes@;
    lemma_walk_complexes_devices(list, list.len(), name, device);
    let devices = walk_complexes(list, list.len())->Ok_0.devices;
    let built = r->Ok_0.devices@;
    assert(devices.len() == built.len());
    assert(forall|i: int|
        0 <= i < devices.len() ==> #[trigger] devices[i] == ((#[trigger] built[i]).0@, built[i].1));
    if devices.contains((name, device)) {
        let i = choose|i: int| 0 <= i < devices.len() && devices[i] == (name, device);
        assert(built[i].0@ == name && built[i].1 == device);
    }
    if exists|i: int|
        0 <= i < built.len() && (#[trigger] built[i]).0@ == name && built[i].1 == device {
        let i = choose|i: int|
            0 <= i < built.len() && (#[trigger] built[i]).0@ == name && built[i].1 == device;
        assert(devices[i] == (name, device));
    }
}

/// Each root complex of a topology that is built has the name, the buses, the windows, the node
/// and the ports of its request, in the order of the requests, and numbers that do not fit
/// were refused.
pub proof fn law_built_root_complexes_are_the_requested_ones(
    topology: PcieTopologyRequest,
    r: Result<BuiltPcieTopology, Refusal>,
    i: int,
    j: int,
)
    requires
        call_ensures(build_pcie_topology, (topology,), r),
        r is Ok,
        0 <= i < topology.root_complexes@.len() <= u32::MAX,
    ensures
        r->Ok_0.root_complexes@.len() == topology.root_complexes@.len(),
        ({
            let built = r->Ok_0.root_complexes@[i];
            let rc = topology.root_complexes@[i];
            &&& built.index == i
            &&& built.name@ == rc.name@
            &&& built.segment == rc.segment
            &&& built.start_bus == rc.start_bus && built.end_bus == rc.end_bus
            &&& built.vnode == rc.node
            &&& built.preserve_bars == rc.preserve_bars
            &&& built.cxl is None && built.iommu is None
            &&& built.low_mmio matches PcieMmioRangeConfig::Dynamic { size } ==> size
                == rc.low_mmio && rc.low_mmio_base is None
            &&& built.high_mmio matches PcieMmioRangeConfig::Dynamic { size } ==> size
                == rc.high_mmio && rc.high_mmio_base is None
            &&& built.low_mmio matches PcieMmioRangeConfig::Fixed(range) ==> rc.low_mmio_base
                == Some(range.start) && range.end - range.start == rc.low_mmio
            &&& built.high_mmio matches PcieMmioRangeConfig::Fixed(range) ==> rc.high_mmio_base
                == Some(range.start) && range.end - range.start == rc.high_mmio
            &&& built.ports@.len() == rc.root_ports@.len()
        }),
{
    let list = topology.root_complexes@;
    lemma_walk_complexes_devices(list, list.len(), Seq::empty(), PcieDeviceRef { index: 0 });
    let built = r->Ok_0.root_complexes@[i];
    assert(port_views(built.ports@).len() == built.ports@.len());
}

/// A root port of a topology that is built has the name and the properties of its request.
pub proof fn law_built_root_ports_are_the_requested_ones(
    built: PcieRootComplexConfig,
    topology: PcieTopologyRequest,
    r: Result<BuiltPcieTopology, Refusal>,
    i: int,
    j: int,
)
    requires
        call_ensures(build_pcie_topology, (topology,), r),
        r is Ok,
        0 <= i < topology.root_complexes@.len(),
        0 <= j < topology.root_complexes@[i].root_ports@.len(),
        built == r->Ok_0.root_complexes@[i],
    ensures
        ({
            let port = built.ports@[j];
            let asked = topology.root_complexes@[i].root_ports@[j];
            &&& port.name@ == asked.name@
            &&& port.hotplug == asked.hotplug
            &&& port.devfn is Some <==> asked.devfn is Some
            &&& port.devfn is Some ==> port.devfn->0 == asked.devfn->0
            &&& port.acs_capabilities_supported is Some
                <==> asked.acs_capabilities_supported is Some
            &&& port.acs_capabilities_supported is Some ==> port.acs_capabilities_supported->0
                == asked.acs_capabilities_supported->0
        }),
{
    let list = topology.root_complexes@;
    let none = PcieDeviceRef { index: 0 };
    lemma_complex_was_walked(list, list.len(), i);
    let ports = list[i].root_ports@;
    lemma_walk_root_ports_devices(ports, ports.len(), Seq::empty(), none);
    assert(port_views(built.ports@) == ports.map_values(|p: PciePortRequest| port_of(p)));
    assert(port_views(built.ports@).len() == ports.len());
    assert(port_views(built.ports@)[j] == built.ports@[j]@);
}

proof fn lemma_complex_was_walked(list: Seq<PcieRootComplexRequest>, n: nat, i: int)
    requires
        walk_complexes(list, n) is Ok,
        0 <= i < n <= list.len(),
    ensures
        walk_root_ports(list[i].root_ports@, list[i].root_ports@.len()) is Ok,
    decreases n,
{
    if i < n - 1 {
        lemma_complex_was_walked(list, (n - 1) as nat, i);
    }
}

/// A walk behind a port with a switch lists that switch first, under that port, with
/// the ports that it is asked for.
pub proof fn law_switch_is_listed_before_what_stands_behind_it(
    port: Seq<char>,
    name: String,
    downstream_ports: Vec<PciePortRequest>,
    flat: Flat,
)
    requires
        walk(port, PcieAttachmentKind::Switch { name, downstream_ports }) == Ok::<
            Flat,
            Seq<char>,
        >(flat),
    ensures
        flat.switches.len() > 0,
        flat.switches[0].name == name@,
        flat.switches[0].parent_port == port,
        flat.switches[0].ports.len() == downstream_ports@.len(),
        forall|i: int|
            0 <= i < downstream_ports@.len() ==> {
                &&& (#[trigger] flat.switches[0].ports[i]).name == downstream_ports@[i].name@
                &&& flat.switches[0].ports[i].hotplug == downstream_ports@[i].hotplug
                &&& flat.switches[0].ports[i].devfn is Some <==> downstream_ports@[i].devfn is Some
                &&& flat.switches[0].ports[i].devfn is Some ==> flat.switches[0].ports[i].devfn->0
                    == downstream_ports@[i].devfn->0
            },
{
    let ports = downstream_ports@;
    lemma_ports_fit(ports, ports.len());
}

proof fn lemma_ports_fit(ports: Seq<PciePortRequest>, n: nat)
    requires
        ports_refusal(ports, n) is None,
        n <= ports.len(),
    ensures
        forall|i: int|
            0 <= i < n && (#[trigger] ports[i]).devfn is Some ==> ports[i].devfn->0 <= 255,
    decreases n,
{
    if n > 0 {
        lemma_ports_fit(ports, (n - 1) as nat);
    }
}

} // verus!
