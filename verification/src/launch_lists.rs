//! The lists in the configuration of a launched machine: its PCIe devices, its
//! virtual PCI devices and its memory ranges, in order.

use vstd::prelude::*;

use crate::config::{DeviceVtl, HostOs, MemoryRange};
use crate::launch_devices::{port_views, VirtioKind};
use crate::snapshot::{SnapshotMachineContract, SnapshotMemoryExpansionRange};
use crate::text::string_views;

verus! {

/// A device behind a PCIe port.
#[derive(Clone, Copy, Debug, PartialEq, Eq, Structural)]
pub enum PcieKind {
    /// The device of another process at an index of the options.
    Remote(usize),
    /// The emulated adapter at an index of the adapters behind PCIe ports.
    Adapter(usize),
    /// The CXL test device at an index of the options.
    CxlTest(usize),
    Virtio(VirtioKind),
    /// The host device at an index of the options.
    Assigned(usize),
}

/// The devices behind PCIe ports that options name, by their ports.
#[derive(Debug)]
pub struct PciePorts {
    pub remote: Vec<String>,
    pub adapters: Vec<String>,
    pub cxl_test: Vec<String>,
    pub virtio: Vec<(String, VirtioKind)>,
    pub assigned: Vec<String>,
}

/// The view of a list of devices.
pub open spec fn pcie_views(list: Seq<(String, PcieKind)>) -> Seq<(Seq<char>, PcieKind)> {
    list.map_values(|d: (String, PcieKind)| (d.0@, d.1))
}

/// One device for each port, with its index.
pub open spec fn numbered(
    ports: Seq<Seq<char>>,
    kind: spec_fn(usize) -> PcieKind,
) -> Seq<(Seq<char>, PcieKind)> {
    Seq::new(ports.len(), |i: int| (ports[i], kind(i as usize)))
}

/// The virtio devices among the devices behind PCIe ports.
pub open spec fn virtio_behind(list: Seq<(Seq<char>, VirtioKind)>) -> Seq<(Seq<char>, PcieKind)> {
    list.map_values(|d: (Seq<char>, VirtioKind)| (d.0, PcieKind::Virtio(d.1)))
}

/// The devices behind PCIe ports, in order. Devices of the host are assigned only
/// on Linux.
pub open spec fn pcie_list(ports: PciePorts, host: HostOs) -> Seq<(Seq<char>, PcieKind)> {
    numbered(string_views(ports.remote@), |i: usize| PcieKind::Remote(i)) + numbered(
        string_views(ports.adapters@),
        |i: usize| PcieKind::Adapter(i),
    ) + numbered(string_views(ports.cxl_test@), |i: usize| PcieKind::CxlTest(i)) + virtio_behind(
        port_views(ports.virtio@),
    ) + (if host == HostOs::Linux {
        numbered(string_views(ports.assigned@), |i: usize| PcieKind::Assigned(i))
    } else {
        Seq::empty()
    })
}

/// Which group a device that is listed by its index belongs to.
#[derive(Clone, Copy, Debug, PartialEq, Eq, Structural)]
enum PcieGroup {
    Remote,
    Adapter,
    CxlTest,
    Assigned,
}

spec fn member(group: PcieGroup) -> spec_fn(usize) -> PcieKind {
    match group {
        PcieGroup::Remote => |i: usize| PcieKind::Remote(i),
        PcieGroup::Adapter => |i: usize| PcieKind::Adapter(i),
        PcieGroup::CxlTest => |i: usize| PcieKind::CxlTest(i),
        PcieGroup::Assigned => |i: usize| PcieKind::Assigned(i),
    }
}

fn add_numbered(out: &mut Vec<(String, PcieKind)>, ports: &Vec<String>, group: PcieGroup)
    ensures
        pcie_views(final(out)@) == pcie_views(old(out)@) + numbered(
            string_views(ports@),
            member(group),
        ),
{
    let ghost before = pcie_views(out@);
    let ghost all = numbered(string_views(ports@), member(group));
    let mut i: usize = 0;
    assert(before =~= before + all.take(0));
    while i < ports.len()
        invariant
            i <= ports@.len(),
            all == numbered(string_views(ports@), member(group)),
            pcie_views(out@) == before + all.take(i as int),
        decreases ports@.len() - i,
    {
        let kind = match group {
            PcieGroup::Remote => PcieKind::Remote(i),
            PcieGroup::Adapter => PcieKind::Adapter(i),
            PcieGroup::CxlTest => PcieKind::CxlTest(i),
            PcieGroup::Assigned => PcieKind::Assigned(i),
        };
        let ghost earlier = out@;
        out.push((ports[i].as_str().to_owned(), kind));
        proof {
            assert(all[i as int] == (string_views(ports@)[i as int], kind));
            assert(pcie_views(out@) =~= pcie_views(earlier).push(all[i as int]));
            assert(pcie_views(out@) =~= before + all.take(i + 1));
        }
        i += 1;
    }
    assert(all.take(i as int) =~= all);
}

fn add_virtio(out: &mut Vec<(String, PcieKind)>, devices: &Vec<(String, VirtioKind)>)
    ensures
        pcie_views(final(out)@) == pcie_views(old(out)@) + virtio_behind(port_views(devices@)),
{
    let ghost before = pcie_views(out@);
    let ghost all = virtio_behind(port_views(devices@));
    let mut i: usize = 0;
    assert(before =~= before + all.take(0));
    while i < devices.len()
        invariant
            i <= devices@.len(),
            all == virtio_behind(port_views(devices@)),
            pcie_views(out@) == before + all.take(i as int),
        decreases devices@.len() - i,
    {
        let ghost earlier = out@;
        out.push((devices[i].0.as_str().to_owned(), PcieKind::Virtio(devices[i].1)));
        proof {
            assert(pcie_views(out@) =~= pcie_views(earlier).push(all[i as int]));
            assert(pcie_views(out@) =~= before + all.take(i + 1));
        }
        i += 1;
    }
    assert(all.take(i as int) =~= all);
}

/// Lists the devices behind PCIe ports, before storage is added.
pub fn pcie_device_list(ports: &PciePorts, host: HostOs) -> (out: Vec<(String, PcieKind)>)
    ensures
        pcie_views(out@) == pcie_list(*ports, host),
{
    let mut out: Vec<(String, PcieKind)> = Vec::new();
    add_numbered(&mut out, &ports.remote, PcieGroup::Remote);
    add_numbered(&mut out, &ports.adapters, PcieGroup::Adapter);
    add_numbered(&mut out, &ports.cxl_test, PcieGroup::CxlTest);
    add_virtio(&mut out, &ports.virtio);
    if host == HostOs::Linux {
        add_numbered(&mut out, &ports.assigned, PcieGroup::Assigned);
    }
    proof {
        assert(member(PcieGroup::Remote) =~= |i: usize| PcieKind::Remote(i));
        assert(member(PcieGroup::Adapter) =~= |i: usize| PcieKind::Adapter(i));
        assert(member(PcieGroup::CxlTest) =~= |i: usize| PcieKind::CxlTest(i));
        assert(member(PcieGroup::Assigned) =~= |i: usize| PcieKind::Assigned(i));
        assert(pcie_views(out@) =~= pcie_list(*ports, host));
    }
    out
}

/// A device on a virtual PCI bus of its own.
#[derive(Clone, Copy, Debug, PartialEq, Eq, Structural)]
pub enum VpciKind {
    /// The emulated adapter of a trust level.
    Adapter,
    Virtio(VirtioKind),
}

/// The emulated adapter of a trust level, where it has one.
pub open spec fn adapter_if(present: bool, vtl: DeviceVtl) -> Seq<(DeviceVtl, VpciKind)> {
    if present {
        seq![(vtl, VpciKind::Adapter)]
    } else {
        Seq::empty()
    }
}

/// The devices on virtual PCI buses, in order.
pub open spec fn vpci_list(adapters: [bool; 3], virtio: Seq<VirtioKind>) -> Seq<
    (DeviceVtl, VpciKind),
> {
    adapter_if(adapters[0], DeviceVtl::Vtl0) + adapter_if(adapters[1], DeviceVtl::Vtl1)
        + adapter_if(adapters[2], DeviceVtl::Vtl2) + virtio.map_values(
        |kind: VirtioKind| (DeviceVtl::Vtl0, VpciKind::Virtio(kind)),
    )
}

/// Lists the devices on virtual PCI buses, before storage is added: the emulated
/// adapter of each trust level that has one, and then the virtio devices.
pub fn vpci_device_list(adapters: [bool; 3], virtio: &Vec<VirtioKind>) -> (out: Vec<
    (DeviceVtl, VpciKind),
>)
    ensures
        out@ == vpci_list(adapters, virtio@),
{
    let mut out: Vec<(DeviceVtl, VpciKind)> = Vec::new();
    if adapters[0] {
        out.push((DeviceVtl::Vtl0, VpciKind::Adapter));
    }
    if adapters[1] {
        out.push((DeviceVtl::Vtl1, VpciKind::Adapter));
    }
    if adapters[2] {
        out.push((DeviceVtl::Vtl2, VpciKind::Adapter));
    }
    let ghost before = adapter_if(adapters[0], DeviceVtl::Vtl0) + adapter_if(
        adapters[1],
        DeviceVtl::Vtl1,
    ) + adapter_if(adapters[2], DeviceVtl::Vtl2);
    let ghost all = virtio@.map_values(
        |kind: VirtioKind| (DeviceVtl::Vtl0, VpciKind::Virtio(kind)),
    );
    let mut i: usize = 0;
    assert(out@ =~= before + all.take(0));
    while i < virtio.len()
        invariant
            i <= virtio@.len(),
            all == virtio@.map_values(
                |kind: VirtioKind| (DeviceVtl::Vtl0, VpciKind::Virtio(kind)),
            ),
            out@ == before + all.take(i as int),
        decreases virtio@.len() - i,
    {
        out.push((DeviceVtl::Vtl0, VpciKind::Virtio(virtio[i])));
        assert(out@ =~= before + all.take(i + 1));
        i += 1;
    }
    assert(all.take(i as int) =~= all);
    out
}

/// A recorded range, as a range of memory.
pub open spec fn range_of(range: SnapshotMemoryExpansionRange) -> MemoryRange {
    MemoryRange { start: range.gpa_start, end: (range.gpa_start + range.length) as u64 }
}

/// A recorded range is a range of memory.
pub open spec fn is_memory_range(range: SnapshotMemoryExpansionRange) -> bool {
    range.gpa_start + range.length <= u64::MAX && range_of(range).wf()
}

/// Lists recorded ranges as ranges of memory.
pub fn memory_ranges(ranges: &[SnapshotMemoryExpansionRange]) -> (out: Vec<MemoryRange>)
    requires
        forall|i: int| 0 <= i < ranges@.len() ==> is_memory_range(#[trigger] ranges@[i]),
    ensures
        out@ == ranges@.map_values(|r: SnapshotMemoryExpansionRange| range_of(r)),
{
    let ghost all = ranges@.map_values(|r: SnapshotMemoryExpansionRange| range_of(r));
    let mut out: Vec<MemoryRange> = Vec::new();
    let mut i: usize = 0;
    assert(out@ =~= all.take(0));
    while i < ranges.len()
        invariant
            i <= ranges@.len(),
            forall|k: int| 0 <= k < ranges@.len() ==> is_memory_range(#[trigger] ranges@[k]),
            all == ranges@.map_values(|r: SnapshotMemoryExpansionRange| range_of(r)),
            out@ == all.take(i as int),
        decreases ranges@.len() - i,
    {
        let range = ranges[i];
        assert(is_memory_range(ranges@[i as int]));
        out.push(MemoryRange { start: range.gpa_start, end: range.gpa_start + range.length });
        assert(out@ =~= all.take(i + 1));
        i += 1;
    }
    assert(all.take(i as int) =~= all);
    out
}

/// Whether a microVM mounts its exported directory while it boots: a restored one
/// where it already did, a new one where something is mounted.
pub fn mounts_at_boot(contract: Option<&SnapshotMachineContract>, mounted: bool) -> (b: bool)
    ensures
        b == (match contract {
            Some(contract) => contract.microvm_filesystem is Some,
            None => mounted,
        }),
{
    match contract {
        Some(contract) => contract.microvm_filesystem.is_some(),
        None => mounted,
    }
}

} // verus!
