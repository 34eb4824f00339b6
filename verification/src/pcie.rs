//! PCIe topologies: flattening a nested description into root complexes,
//! switches, and devices.

use vstd::prelude::*;

use crate::config::{
    MemoryRange, PcieGenericInitiatorConfig, PcieMmioRangeConfig, PciePortConfig,
    PcieRootComplexConfig, PcieSwitchConfig,
};
use crate::numeral::{decimal, push_decimal};
use crate::refusal::{refusal_of, refuse, Refusal};
use crate::text::push_text;

verus! {

/// The mathematical value of a [`PciePortConfig`].
pub struct Port {
    pub name: Seq<char>,
    pub devfn: Option<u8>,
    pub hotplug: bool,
    pub acs_capabilities_supported: Option<u16>,
    pub cxl: bool,
    pub pasid: bool,
}

impl View for PciePortConfig {
    type V = Port;

    open spec fn view(&self) -> Port {
        Port {
            name: self.name@,
            devfn: self.devfn,
            hotplug: self.hotplug,
            acs_capabilities_supported: self.acs_capabilities_supported,
            cxl: self.cxl,
            pasid: self.pasid,
        }
    }
}

pub open spec fn port_views(ports: Seq<PciePortConfig>) -> Seq<Port> {
    ports.map_values(|p: PciePortConfig| p@)
}

/// The mathematical value of a [`PcieSwitchConfig`].
pub struct Switch {
    pub name: Seq<char>,
    pub parent_port: Seq<char>,
    pub ports: Seq<Port>,
}

impl View for PcieSwitchConfig {
    type V = Switch;

    open spec fn view(&self) -> Switch {
        Switch { name: self.name@, parent_port: self.parent_port@, ports: port_views(self.ports@) }
    }
}

pub open spec fn switch_views(switches: Seq<PcieSwitchConfig>) -> Seq<Switch> {
    switches.map_values(|s: PcieSwitchConfig| s@)
}

/// A switch of the command line.
#[derive(Debug)]
pub struct GenericPcieSwitchCli {
    pub name: String,
    pub port_name: String,
    pub num_downstream_ports: u8,
    pub hotplug: bool,
    pub acs_capabilities_supported: Option<u16>,
    pub pasid: bool,
}

/// A downstream port of a switch of the command line.
pub open spec fn cli_port(s: GenericPcieSwitchCli, i: nat) -> Port {
    Port {
        name: s.name@ + "-downstream-"@ + decimal(i),
        devfn: None,
        hotplug: s.hotplug,
        acs_capabilities_supported: s.acs_capabilities_supported,
        cxl: false,
        pasid: s.pasid,
    }
}

/// A switch of the command line with its ports named and its parent assigned.
pub open spec fn cli_switch(s: GenericPcieSwitchCli) -> Switch {
    Switch {
        name: s.name@,
        parent_port: s.port_name@,
        ports: Seq::new(s.num_downstream_ports as nat, |i: int| cli_port(s, i as nat)),
    }
}

fn build_cli_switch(s: &GenericPcieSwitchCli) -> (r: PcieSwitchConfig)
    ensures
        r@ == cli_switch(*s),
{
    let mut ports: Vec<PciePortConfig> = Vec::new();
    let mut i: u8 = 0;
    while i < s.num_downstream_ports
        invariant
            i <= s.num_downstream_ports,
            ports@.len() == i,
            forall|k: int| 0 <= k < i ==> (#[trigger] ports@[k])@ == cli_port(*s, k as nat),
        decreases s.num_downstream_ports - i,
    {
        let mut name = s.name.clone();
        push_text(&mut name, "-downstream-");
        push_decimal(&mut name, i as u128);
        ports.push(
            PciePortConfig {
                name,
                devfn: None,
                hotplug: s.hotplug,
                acs_capabilities_supported: s.acs_capabilities_supported,
                cxl: false,
                pasid: s.pasid,
            },
        );
        i += 1;
    }
    assert(port_views(ports@) =~= cli_switch(*s).ports);
    PcieSwitchConfig { name: s.name.clone(), parent_port: s.port_name.clone(), ports }
}

/// Build a flat list of switches with their parent port assignments.
///
/// Each switch specifies its parent port directly.
pub fn build_switch_list(all_switches: &[GenericPcieSwitchCli]) -> (r: Vec<PcieSwitchConfig>)
    ensures
        switch_views(r@) == all_switches@.map_values(|s: GenericPcieSwitchCli| cli_switch(s)),
{
    let mut out: Vec<PcieSwitchConfig> = Vec::new();
    let mut i: usize = 0;
    while i < all_switches.len()
        invariant
            i <= all_switches@.len(),
            out@.len() == i,
            forall|k: int| 0 <= k < i ==> (#[trigger] out@[k])@ == cli_switch(all_switches@[k]),
        decreases all_switches@.len() - i,
    {
        out.push(build_cli_switch(&all_switches[i]));
        i += 1;
    }
    assert(switch_views(out@) =~= all_switches@.map_values(
        |s: GenericPcieSwitchCli| cli_switch(s),
    ));
    out
}

/// A requested device function, by its index among the request's devices. How it is
/// built is decided once the topology is walked.
#[derive(Clone, Copy, Debug, PartialEq, Eq, Structural)]
pub struct PcieDeviceRef {
    pub index: u32,
}

/// What stands behind a port.
#[derive(Debug)]
pub enum PcieAttachmentKind {
    Device(PcieDeviceRef),
    Switch { name: String, downstream_ports: Vec<PciePortRequest> },
}

/// A port as it is requested.
#[derive(Debug)]
pub struct PciePortRequest {
    pub name: String,
    pub hotplug: bool,
    /// What stands behind the port, if anything; a description without a kind is
    /// incomplete.
    pub attached: Option<Option<Box<PcieAttachmentKind>>>,
    pub devfn: Option<u32>,
    pub acs_capabilities_supported: Option<u32>,
}

/// A root complex as it is requested.
#[derive(Debug)]
pub struct PcieRootComplexRequest {
    pub name: String,
    pub segment: u32,
    pub start_bus: u32,
    pub end_bus: u32,
    pub low_mmio: u64,
    pub high_mmio: u64,
    pub low_mmio_base: Option<u64>,
    pub high_mmio_base: Option<u64>,
    pub preserve_bars: bool,
    pub node: Option<u32>,
    pub root_ports: Vec<PciePortRequest>,
}

/// A whole topology as it is requested.
#[derive(Debug)]
pub struct PcieTopologyRequest {
    pub root_complexes: Vec<PcieRootComplexRequest>,
    pub generic_initiators: Vec<PcieGenericInitiatorConfig>,
}

/// Why a port is refused, if it is.
pub open spec fn port_refusal(p: PciePortRequest) -> Option<Seq<char>> {
    if p.devfn is Some && p.devfn->0 > 255 {
        Some("devfn out of range"@)
    } else if p.acs_capabilities_supported is Some && p.acs_capabilities_supported->0 > 65535 {
        Some("ACS capability mask out of range"@)
    } else {
        None
    }
}

/// The port that a request describes.
pub open spec fn port_of(p: PciePortRequest) -> Port {
    Port {
        name: p.name@,
        devfn: match p.devfn {
            Some(d) => Some(d as u8),
            None => None,
        },
        hotplug: p.hotplug,
        acs_capabilities_supported: match p.acs_capabilities_supported {
            Some(a) => Some(a as u16),
            None => None,
        },
        cxl: false,
        pasid: false,
    }
}

fn build_port(p: &PciePortRequest) -> (r: Result<PciePortConfig, Refusal>)
    ensures
        refusal_of(r) == port_refusal(*p),
        r is Ok ==> r->Ok_0@ == port_of(*p),
{
    let devfn: Option<u8> = match p.devfn {
        Some(d) => {
            if d > 255 {
                return Err(refuse("devfn out of range"));
            }
            Some(d as u8)
        },
        None => None,
    };
    let acs: Option<u16> = match p.acs_capabilities_supported {
        Some(a) => {
            if a > 65535 {
                return Err(refuse("ACS capability mask out of range"));
            }
            Some(a as u16)
        },
        None => None,
    };
    Ok(
        PciePortConfig {
            name: p.name.clone(),
            devfn,
            hotplug: p.hotplug,
            acs_capabilities_supported: acs,
            cxl: false,
            pasid: false,
        },
    )
}

/// The first refusal among the first `n` ports of a switch.
pub open spec fn ports_refusal(ports: Seq<PciePortRequest>, n: nat) -> Option<Seq<char>>
    decreases n,
{
    if n == 0 {
        None
    } else if ports_refusal(ports, (n - 1) as nat) is Some {
        ports_refusal(ports, (n - 1) as nat)
    } else {
        port_refusal(ports[n - 1])
    }
}

/// Switches and devices in the order in which a walk meets them.
pub struct Flat {
    pub switches: Seq<Switch>,
    pub devices: Seq<(Seq<char>, PcieDeviceRef)>,
}

pub open spec fn flat_empty() -> Flat {
    Flat { switches: Seq::empty(), devices: Seq::empty() }
}

pub open spec fn flat_concat(a: Flat, b: Flat) -> Flat {
    Flat { switches: a.switches + b.switches, devices: a.devices + b.devices }
}

/// The switches and devices behind a port: the device, or the switch and then
/// what stands behind each of its ports in turn.
pub open spec fn walk(port: Seq<char>, kind: PcieAttachmentKind) -> Result<Flat, Seq<char>>
    decreases kind, 0nat,
{
    match kind {
        PcieAttachmentKind::Device(device) => Ok(
            Flat { switches: Seq::empty(), devices: seq![(port, device)] },
        ),
        PcieAttachmentKind::Switch { name, downstream_ports } => {
            let ports = downstream_ports@;
            let n = ports.len();
            match ports_refusal(ports, n) {
                Some(text) => Err(text),
                None => match walk_ports(ports, n) {
                    Err(text) => Err(text),
                    Ok(below) => Ok(
                        flat_concat(
                            Flat {
                                switches: seq![
                                    Switch {
                                        name: name@,
                                        parent_port: port,
                                        ports: ports.map_values(
                                            |p: PciePortRequest| port_of(p),
                                        ),
                                    },
                                ],
                                devices: Seq::empty(),
                            },
                            below,
                        ),
                    ),
                },
            }
        },
    }
}

/// The switches and devices behind the first `n` of a list of ports.
pub open spec fn walk_ports(ports: Seq<PciePortRequest>, n: nat) -> Result<Flat, Seq<char>>
    decreases ports, n,
{
    if n == 0 || n > ports.len() {
        Ok(flat_empty())
    } else {
        match walk_ports(ports, (n - 1) as nat) {
            Err(text) => Err(text),
            Ok(before) => {
                let p = ports[n - 1];
                match p.attached {
                    None => Ok(before),
                    Some(None) => Err("missing attachment kind"@),
                    Some(Some(kind)) => match walk(p.name@, *kind) {
                        Err(text) => Err(text),
                        Ok(behind) => Ok(flat_concat(before, behind)),
                    },
                }
            },
        }
    }
}

/// What a walk behind a port lists before it ends or is refused.
pub open spec fn walked(port: Seq<char>, kind: PcieAttachmentKind) -> Flat
    decreases kind, 0nat,
{
    match kind {
        PcieAttachmentKind::Device(device) => Flat {
            switches: Seq::empty(),
            devices: seq![(port, device)],
        },
        PcieAttachmentKind::Switch { name, downstream_ports } => {
            let ports = downstream_ports@;
            let n = ports.len();
            if ports_refusal(ports, n) is Some {
                flat_empty()
            } else {
                flat_concat(
                    Flat {
                        switches: seq![
                            Switch {
                                name: name@,
                                parent_port: port,
                                ports: ports.map_values(|p: PciePortRequest| port_of(p)),
                            },
                        ],
                        devices: Seq::empty(),
                    },
                    walked_ports(ports, n),
                )
            }
        },
    }
}

/// What a walk behind the first `n` of a list of ports lists before it ends or is
/// refused.
pub open spec fn walked_ports(ports: Seq<PciePortRequest>, n: nat) -> Flat
    decreases ports, n,
{
    if n == 0 || n > ports.len() {
        flat_empty()
    } else {
        let before = walked_ports(ports, (n - 1) as nat);
        let p = ports[n - 1];
        if walk_ports(ports, (n - 1) as nat) is Err {
            before
        } else {
            match p.attached {
                Some(Some(kind)) => flat_concat(before, walked(p.name@, *kind)),
                _ => before,
            }
        }
    }
}

/// A walk that is not refused lists everything.
proof fn lemma_walked(port: Seq<char>, kind: PcieAttachmentKind)
    ensures
        walk(port, kind) is Ok ==> walked(port, kind) == walk(port, kind)->Ok_0,
    decreases kind, 0nat,
{
    match kind {
        PcieAttachmentKind::Switch { name, downstream_ports } => {
            lemma_walked_ports(downstream_ports@, downstream_ports@.len());
        },
        _ => {},
    }
}

proof fn lemma_walked_ports(ports: Seq<PciePortRequest>, n: nat)
    ensures
        walk_ports(ports, n) is Ok ==> walked_ports(ports, n) == walk_ports(ports, n)->Ok_0,
    decreases ports, n,
{
    if 0 < n <= ports.len() {
        lemma_walked_ports(ports, (n - 1) as nat);
        let p = ports[n - 1];
        match p.attached {
            Some(Some(kind)) => {
                lemma_walked(p.name@, *kind);
            },
            _ => {},
        }
    }
}

/// Nothing behind a port that was refused is listed.
proof fn lemma_walked_ports_stop(ports: Seq<PciePortRequest>, k: nat, n: nat)
    requires
        k <= n <= ports.len(),
        walk_ports(ports, k) is Err,
    ensures
        walked_ports(ports, n) == walked_ports(ports, k),
    decreases n,
{
    if k < n {
        lemma_walked_ports_stop(ports, k, (n - 1) as nat);
        lemma_walk_ports_refusal(ports, k, (n - 1) as nat);
    }
}

pub open spec fn device_views(devices: Seq<(String, PcieDeviceRef)>) -> Seq<
    (Seq<char>, PcieDeviceRef),
> {
    devices.map_values(|d: (String, PcieDeviceRef)| (d.0@, d.1))
}

/// Walks what stands behind one port: either an endpoint device, which is queued,
/// or a switch, which is listed before what stands behind its own ports. What was
/// listed before a refusal stays listed.
pub fn walk_pcie_attachment(
    port_name: &str,
    kind: &PcieAttachmentKind,
    switches: &mut Vec<PcieSwitchConfig>,
    pending_devices: &mut Vec<(String, PcieDeviceRef)>,
) -> (r: Result<(), Refusal>)
    ensures
        match walk(port_name@, *kind) {
            Err(text) => {
                &&& refusal_of(r) == Some(text)
                &&& switch_views(final(switches)@) == switch_views(old(switches)@) + walked(
                    port_name@,
                    *kind,
                ).switches
                &&& device_views(final(pending_devices)@) == device_views(old(pending_devices)@)
                    + walked(port_name@, *kind).devices
            },
            Ok(flat) => {
                &&& r is Ok
                &&& switch_views(final(switches)@) == switch_views(old(switches)@) + flat.switches
                &&& device_views(final(pending_devices)@) == device_views(old(pending_devices)@)
                    + flat.devices
            },
        },
    decreases kind,
{
    let ghost switches0 = switch_views(switches@);
    let ghost devices0 = device_views(pending_devices@);
    match kind {
        PcieAttachmentKind::Device(device) => {
            pending_devices.push((port_name.to_owned(), *device));
            assert(device_views(pending_devices@) =~= devices0 + seq![(port_name@, *device)]);
            assert(switch_views(switches@) =~= switches0 + Seq::empty());
            Ok(())
        },
        PcieAttachmentKind::Switch { name, downstream_ports } => {
            let ghost requested = downstream_ports@;
            let mut ports: Vec<PciePortConfig> = Vec::new();
            let mut i: usize = 0;
            while i < downstream_ports.len()
                invariant
                    i <= downstream_ports@.len(),
                    requested == downstream_ports@,
                    switches0 == switch_views(old(switches)@),
                    devices0 == device_views(old(pending_devices)@),
                    switches@ == old(switches)@,
                    pending_devices@ == old(pending_devices)@,
                    ports@.len() == i,
                    ports_refusal(requested, i as nat) is None,
                    forall|k: int| 0 <= k < i ==> (#[trigger] ports@[k])@ == port_of(requested[k]),
                    *kind == (PcieAttachmentKind::Switch {
                        name: *name,
                        downstream_ports: *downstream_ports,
                    }),
                decreases downstream_ports@.len() - i,
            {
                match build_port(&downstream_ports[i]) {
                    Ok(port) => {
                        ports.push(port);
                    },
                    Err(e) => {
                        proof {
                            lemma_ports_refusal(requested, (i + 1) as nat, requested.len());
                            assert(switches0 + flat_empty().switches =~= switches0);
                            assert(devices0 + flat_empty().devices =~= devices0);
                        }
                        return Err(e);
                    },
                }
                i += 1;
            }
            let ghost here = Switch {
                name: name@,
                parent_port: port_name@,
                ports: requested.map_values(|p: PciePortRequest| port_of(p)),
            };
            assert(port_views(ports@) =~= here.ports);
            switches.push(
                PcieSwitchConfig { name: name.clone(), parent_port: port_name.to_owned(), ports },
            );
            assert(switch_views(switches@) =~= switches0.push(here));
            let mut j: usize = 0;
            assert(switch_views(switches@) =~= switches0.push(here) + flat_empty().switches);
            assert(device_views(pending_devices@) =~= devices0 + flat_empty().devices);
            while j < downstream_ports.len()
                invariant
                    j <= downstream_ports@.len(),
                    requested == downstream_ports@,
                    switches0 == switch_views(old(switches)@),
                    devices0 == device_views(old(pending_devices)@),
                    here == (Switch {
                        name: name@,
                        parent_port: port_name@,
                        ports: requested.map_values(|p: PciePortRequest| port_of(p)),
                    }),
                    ports_refusal(requested, requested.len()) is None,
                    *kind == (PcieAttachmentKind::Switch {
                        name: *name,
                        downstream_ports: *downstream_ports,
                    }),
                    walk_ports(requested, j as nat) is Ok,
                    switch_views(switches@) == switches0.push(here) + walk_ports(
                        requested,
                        j as nat,
                    )->Ok_0.switches,
                    device_views(pending_devices@) == devices0 + walk_ports(
                        requested,
                        j as nat,
                    )->Ok_0.devices,
                decreases downstream_ports@.len() - j,
            {
                let ghost before = walk_ports(requested, j as nat)->Ok_0;
                proof {
                    lemma_walk_ports_refusal(requested, (j + 1) as nat, requested.len());
                }
                let port = &downstream_ports[j];
                assert(*port == requested[j as int]);
                match &port.attached {
                    None => {},
                    Some(None) => {
                        proof {
                            lemma_walked_ports(requested, j as nat);
                            lemma_walked_ports_stop(requested, (j + 1) as nat, requested.len());
                            let below = walked_ports(requested, requested.len());
                            assert(below == before);
                            assert(switches0 + (seq![here] + below.switches)
                                =~= switches0.push(here) + below.switches);
                            assert(devices0 + (Seq::<(Seq<char>, PcieDeviceRef)>::empty()
                                + below.devices) =~= devices0 + below.devices);
                        }
                        return Err(refuse("missing attachment kind"));
                    },
                    Some(Some(below)) => {
                        assert(decreases_to!(*kind => *downstream_ports));
                        match walk_pcie_attachment(
                            port.name.as_str(),
                            below,
                            switches,
                            pending_devices,
                        ) {
                            Ok(()) => {
                                proof {
                                    let behind = walk(port.name@, **below)->Ok_0;
                                    let after = flat_concat(before, behind);
                                    assert(walk_ports(requested, (j + 1) as nat) == Ok::<
                                        Flat,
                                        Seq<char>,
                                    >(after));
                                    assert(switch_views(switches@) =~= switches0.push(here)
                                        + after.switches);
                                    assert(device_views(pending_devices@) =~= devices0
                                        + after.devices);
                                }
                            },
                            Err(e) => {
                                proof {
                                    lemma_walked_ports(requested, j as nat);
                                    lemma_walked_ports_stop(
                                        requested,
                                        (j + 1) as nat,
                                        requested.len(),
                                    );
                                    let behind = walked(port.name@, **below);
                                    let listed = walked_ports(requested, requested.len());
                                    assert(listed == flat_concat(before, behind));
                                    assert(switches0 + (seq![here] + listed.switches)
                                        =~= switches0.push(here) + before.switches
                                        + behind.switches);
                                    assert(devices0 + (Seq::<(Seq<char>, PcieDeviceRef)>::empty()
                                        + listed.devices) =~= devices0 + before.devices
                                        + behind.devices);
                                }
                                return Err(e);
                            },
                        }
                    },
                }
                j += 1;
            }
            proof {
                let below = walk_ports(requested, requested.len())->Ok_0;
                assert(switches0 + (seq![here] + below.switches) =~= switches0.push(here)
                    + below.switches);
                assert(devices0 + (Seq::<(Seq<char>, PcieDeviceRef)>::empty() + below.devices)
                    =~= devices0 + below.devices);
            }
            Ok(())
        },
    }
}

proof fn lemma_ports_refusal(ports: Seq<PciePortRequest>, k: nat, n: nat)
    requires
        k <= n,
        ports_refusal(ports, k) is Some,
    ensures
        ports_refusal(ports, n) == ports_refusal(ports, k),
    decreases n,
{
    if k < n {
        lemma_ports_refusal(ports, k, (n - 1) as nat);
    }
}

/// A refusal behind an earlier port is the refusal of the whole list.
proof fn lemma_walk_ports_refusal(ports: Seq<PciePortRequest>, k: nat, n: nat)
    requires
        k <= n <= ports.len(),
    ensures
        walk_ports(ports, k) is Err ==> walk_ports(ports, n) == walk_ports(ports, k),
    decreases n,
{
    if k < n {
        lemma_walk_ports_refusal(ports, k, (n - 1) as nat);
    }
}

/// Why an MMIO window is refused, if it is.
pub open spec fn mmio_refusal(size: u64, base: Option<u64>) -> Option<Seq<char>> {
    match base {
        None => None,
        Some(base) => if base + size > u64::MAX {
            Some("MMIO base + size overflows"@)
        } else if !(MemoryRange { start: base, end: (base + size) as u64 }).wf() {
            Some("invalid MMIO range"@)
        } else {
            None
        },
    }
}

/// The MMIO window that a request describes.
pub open spec fn mmio_of(size: u64, base: Option<u64>) -> PcieMmioRangeConfig {
    match base {
        None => PcieMmioRangeConfig::Dynamic { size },
        Some(base) => PcieMmioRangeConfig::Fixed(
            MemoryRange { start: base, end: (base + size) as u64 },
        ),
    }
}

/// Converts an MMIO window (a size plus an optional pinned base).
pub fn pcie_mmio_range_config(size: u64, base: Option<u64>) -> (r: Result<
    PcieMmioRangeConfig,
    Refusal,
>)
    ensures
        refusal_of(r) == mmio_refusal(size, base),
        r is Ok ==> r->Ok_0 == mmio_of(size, base),
{
    match base {
        None => Ok(PcieMmioRangeConfig::Dynamic { size }),
        Some(base) => {
            let end: u64 = match base.checked_add(size) {
                Some(end) => end,
                None => return Err(refuse("MMIO base + size overflows")),
            };
            match MemoryRange::try_new(base, end) {
                Some(range) => Ok(PcieMmioRangeConfig::Fixed(range)),
                None => Err(refuse("invalid MMIO range")),
            }
        },
    }
}

/// A flattened topology.
#[derive(Debug)]
pub struct BuiltPcieTopology {
    pub root_complexes: Vec<PcieRootComplexConfig>,
    pub switches: Vec<PcieSwitchConfig>,
    pub devices: Vec<(String, PcieDeviceRef)>,
    pub generic_initiators: Vec<PcieGenericInitiatorConfig>,
}

/// What the first `n` root ports of a root complex contribute, or the first
/// refusal: a port's own, or one behind it.
pub open spec fn walk_root_ports(ports: Seq<PciePortRequest>, n: nat) -> Result<Flat, Seq<char>>
    decreases n,
{
    if n == 0 || n > ports.len() {
        Ok(flat_empty())
    } else {
        match walk_root_ports(ports, (n - 1) as nat) {
            Err(text) => Err(text),
            Ok(before) => {
                let p = ports[n - 1];
                match port_refusal(p) {
                    Some(text) => Err(text),
                    None => match p.attached {
                        None => Ok(before),
                        Some(None) => Err("missing attachment kind"@),
                        Some(Some(kind)) => match walk(p.name@, *kind) {
                            Err(text) => Err(text),
                            Ok(behind) => Ok(flat_concat(before, behind)),
                        },
                    },
                }
            },
        }
    }
}

/// Why the numbers of a root complex are refused, if they are.
pub open spec fn complex_refusal(rc: PcieRootComplexRequest) -> Option<Seq<char>> {
    if rc.segment > 65535 {
        Some("segment out of range"@)
    } else if rc.start_bus > 255 {
        Some("start_bus out of range"@)
    } else if rc.end_bus > 255 {
        Some("end_bus out of range"@)
    } else if mmio_refusal(rc.low_mmio, rc.low_mmio_base) is Some {
        mmio_refusal(rc.low_mmio, rc.low_mmio_base)
    } else {
        mmio_refusal(rc.high_mmio, rc.high_mmio_base)
    }
}

/// The root complex is the one that a request describes.
pub open spec fn is_complex(
    built: PcieRootComplexConfig,
    rc: PcieRootComplexRequest,
    index: u32,
) -> bool {
    &&& built.index == index
    &&& built.name@ == rc.name@
    &&& built.segment == rc.segment
    &&& built.start_bus == rc.start_bus
    &&& built.end_bus == rc.end_bus
    &&& built.low_mmio == mmio_of(rc.low_mmio, rc.low_mmio_base)
    &&& built.high_mmio == mmio_of(rc.high_mmio, rc.high_mmio_base)
    &&& port_views(built.ports@) == rc.root_ports@.map_values(|p: PciePortRequest| port_of(p))
    &&& built.cxl is None
    &&& built.iommu is None
    &&& built.vnode == rc.node
    &&& built.preserve_bars == rc.preserve_bars
}

/// What the first `n` root complexes contribute, or the first refusal.
pub open spec fn walk_complexes(list: Seq<PcieRootComplexRequest>, n: nat) -> Result<
    Flat,
    Seq<char>,
>
    decreases n,
{
    if n == 0 || n > list.len() {
        Ok(flat_empty())
    } else {
        match walk_complexes(list, (n - 1) as nat) {
            Err(text) => Err(text),
            Ok(before) => {
                let rc = list[n - 1];
                match walk_root_ports(rc.root_ports@, rc.root_ports@.len()) {
                    Err(text) => Err(text),
                    Ok(behind) => match complex_refusal(rc) {
                        Some(text) => Err(text),
                        None => Ok(flat_concat(before, behind)),
                    },
                }
            },
        }
    }
}

proof fn lemma_walk_root_ports_refusal(ports: Seq<PciePortRequest>, k: nat, n: nat)
    requires
        k <= n <= ports.len(),
    ensures
        walk_root_ports(ports, k) is Err ==> walk_root_ports(ports, n) == walk_root_ports(
            ports,
            k,
        ),
    decreases n,
{
    if k < n {
        lemma_walk_root_ports_refusal(ports, k, (n - 1) as nat);
    }
}

proof fn lemma_walk_complexes_refusal(list: Seq<PcieRootComplexRequest>, k: nat, n: nat)
    requires
        k <= n <= list.len(),
    ensures
        walk_complexes(list, k) is Err ==> walk_complexes(list, n) == walk_complexes(list, k),
    decreases n,
{
    if k < n {
        lemma_walk_complexes_refusal(list, k, (n - 1) as nat);
    }
}

fn build_root_ports(
    root_ports: &Vec<PciePortRequest>,
    switches: &mut Vec<PcieSwitchConfig>,
    devices: &mut Vec<(String, PcieDeviceRef)>,
) -> (r: Result<Vec<PciePortConfig>, Refusal>)
    ensures
        match walk_root_ports(root_ports@, root_ports@.len()) {
            Err(text) => refusal_of(r) == Some(text),
            Ok(flat) => {
                &&& r is Ok
                &&& port_views(r->Ok_0@) == root_ports@.map_values(|p: PciePortRequest| port_of(p))
                &&& switch_views(final(switches)@) == switch_views(old(switches)@) + flat.switches
                &&& device_views(final(devices)@) == device_views(old(devices)@) + flat.devices
            },
        },
{
    let ghost requested = root_ports@;
    let ghost switches0 = switch_views(switches@);
    let ghost devices0 = device_views(devices@);
    let mut ports: Vec<PciePortConfig> = Vec::new();
    let mut i: usize = 0;
    assert(switches0 + flat_empty().switches =~= switches0);
    assert(devices0 + flat_empty().devices =~= devices0);
    while i < root_ports.len()
        invariant
            i <= root_ports@.len(),
            requested == root_ports@,
            ports@.len() == i,
            forall|k: int| 0 <= k < i ==> (#[trigger] ports@[k])@ == port_of(requested[k]),
            walk_root_ports(requested, i as nat) is Ok,
            switch_views(switches@) == switches0 + walk_root_ports(
                requested,
                i as nat,
            )->Ok_0.switches,
            device_views(devices@) == devices0 + walk_root_ports(requested, i as nat)->Ok_0.devices,
        decreases root_ports@.len() - i,
    {
        let ghost before = walk_root_ports(requested, i as nat)->Ok_0;
        proof {
            lemma_walk_root_ports_refusal(requested, (i + 1) as nat, requested.len());
        }
        let request = &root_ports[i];
        assert(*request == requested[i as int]);
        match build_port(request) {
            Ok(port) => {
                ports.push(port);
            },
            Err(e) => return Err(e),
        }
        match &request.attached {
            None => {},
            Some(None) => {
                return Err(refuse("missing attachment kind"));
            },
            Some(Some(kind)) => match walk_pcie_attachment(
                request.name.as_str(),
                kind,
                switches,
                devices,
            ) {
                Ok(()) => {
                    proof {
                        let behind = walk(request.name@, **kind)->Ok_0;
                        let after = flat_concat(before, behind);
                        assert(switch_views(switches@) =~= switches0 + after.switches);
                        assert(device_views(devices@) =~= devices0 + after.devices);
                    }
                },
                Err(e) => return Err(e),
            },
        }
        i += 1;
    }
    assert(port_views(ports@) =~= requested.map_values(|p: PciePortRequest| port_of(p)));
    Ok(ports)
}

fn build_complex(
    rc: &PcieRootComplexRequest,
    index: u32,
    ports: Vec<PciePortConfig>,
) -> (r: Result<PcieRootComplexConfig, Refusal>)
    requires
        port_views(ports@) == rc.root_ports@.map_values(|p: PciePortRequest| port_of(p)),
    ensures
        refusal_of(r) == complex_refusal(*rc),
        r is Ok ==> is_complex(r->Ok_0, *rc, index),
{
    if rc.segment > 65535 {
        return Err(refuse("segment out of range"));
    }
    if rc.start_bus > 255 {
        return Err(refuse("start_bus out of range"));
    }
    if rc.end_bus > 255 {
        return Err(refuse("end_bus out of range"));
    }
    let low_mmio = match pcie_mmio_range_config(rc.low_mmio, rc.low_mmio_base) {
        Ok(range) => range,
        Err(e) => return Err(e),
    };
    let high_mmio = match pcie_mmio_range_config(rc.high_mmio, rc.high_mmio_base) {
        Ok(range) => range,
        Err(e) => return Err(e),
    };
    Ok(
        PcieRootComplexConfig {
            index,
            name: rc.name.clone(),
            segment: rc.segment as u16,
            start_bus: rc.start_bus as u8,
            end_bus: rc.end_bus as u8,
            low_mmio,
            high_mmio,
            ports,
            cxl: None,
            iommu: None,
            vnode: rc.node,
            preserve_bars: rc.preserve_bars,
        },
    )
}

/// Flattens a nested topology: a list of root complexes (each carrying its root
/// ports), a list of switches (each referencing its parent port), and a list of
/// devices (each referencing the port it sits behind).
pub fn build_pcie_topology(topology: PcieTopologyRequest) -> (r: Result<BuiltPcieTopology, Refusal>)
    ensures
        ({
            let list = topology.root_complexes@;
            match walk_complexes(list, list.len()) {
                Err(text) => refusal_of(r) == Some(text),
                Ok(flat) => {
                    &&& r is Ok
                    &&& switch_views(r->Ok_0.switches@) == flat.switches
                    &&& device_views(r->Ok_0.devices@) == flat.devices
                    &&& r->Ok_0.root_complexes@.len() == list.len()
                    &&& forall|i: int|
                        0 <= i < list.len() ==> is_complex(
                            #[trigger] r->Ok_0.root_complexes@[i],
                            list[i],
                            i as u32,
                        )
                    &&& r->Ok_0.generic_initiators@ == topology.generic_initiators@
                },
            }
        }),
{
    let ghost list = topology.root_complexes@;
    let mut root_complexes: Vec<PcieRootComplexConfig> = Vec::new();
    let mut switches: Vec<PcieSwitchConfig> = Vec::new();
    let mut devices: Vec<(String, PcieDeviceRef)> = Vec::new();
    let mut i: usize = 0;
    assert(switch_views(switches@) =~= flat_empty().switches);
    assert(device_views(devices@) =~= flat_empty().devices);
    while i < topology.root_complexes.len()
        invariant
            i <= list.len(),
            list == topology.root_complexes@,
            root_complexes@.len() == i,
            forall|k: int|
                0 <= k < i ==> is_complex(#[trigger] root_complexes@[k], list[k], k as u32),
            walk_complexes(list, i as nat) is Ok,
            switch_views(switches@) == walk_complexes(list, i as nat)->Ok_0.switches,
            device_views(devices@) == walk_complexes(list, i as nat)->Ok_0.devices,
        decreases list.len() - i,
    {
        proof {
            lemma_walk_complexes_refusal(list, (i + 1) as nat, list.len());
        }
        let rc = &topology.root_complexes[i];
        assert(*rc == list[i as int]);
        let ports = match build_root_ports(&rc.root_ports, &mut switches, &mut devices) {
            Ok(ports) => ports,
            Err(e) => return Err(e),
        };
        match build_complex(rc, i as u32, ports) {
            Ok(built) => {
                root_complexes.push(built);
            },
            Err(e) => return Err(e),
        }
        i += 1;
    }
    Ok(
        BuiltPcieTopology {
            root_complexes,
            switches,
            devices,
            generic_initiators: topology.generic_initiators,
        },
    )
}

/// The name is that of a port of one of some switches.
pub open spec fn is_switch_port(switches: Seq<Switch>, name: Seq<char>) -> bool {
    exists|i: int, j: int|
        0 <= i < switches.len() && 0 <= j < switches[i].ports.len() && (#[trigger] switches[i].ports[j]).name
            == name
}

/// The name is that of one of some requested ports.
pub open spec fn is_requested_port(ports: Seq<PciePortRequest>, name: Seq<char>) -> bool {
    exists|i: int| 0 <= i < ports.len() && (#[trigger] ports[i]).name@ == name
}

/// Every switch and every device hangs off a port that exists: one of `roots`,
/// or a port of a listed switch.
pub open spec fn anchored(flat: Flat, roots: spec_fn(Seq<char>) -> bool) -> bool {
    &&& forall|i: int|
        0 <= i < flat.switches.len() ==> roots((#[trigger] flat.switches[i]).parent_port)
            || is_switch_port(flat.switches, flat.switches[i].parent_port)
    &&& forall|i: int|
        0 <= i < flat.devices.len() ==> roots((#[trigger] flat.devices[i]).0) || is_switch_port(
            flat.switches,
            flat.devices[i].0,
        )
}

proof fn lemma_switch_port_grows(a: Seq<Switch>, b: Seq<Switch>, name: Seq<char>)
    ensures
        is_switch_port(a, name) ==> is_switch_port(a + b, name),
        is_switch_port(b, name) ==> is_switch_port(a + b, name),
{
    if is_switch_port(a, name) {
        let (i, j) = choose|i: int, j: int|
            0 <= i < a.len() && 0 <= j < a[i].ports.len() && (#[trigger] a[i].ports[j]).name
                == name;
        assert((a + b)[i] == a[i]);
        assert((a + b)[i].ports[j].name == name);
    }
    if is_switch_port(b, name) {
        let (i, j) = choose|i: int, j: int|
            0 <= i < b.len() && 0 <= j < b[i].ports.len() && (#[trigger] b[i].ports[j]).name
                == name;
        assert((a + b)[a.len() + i] == b[i]);
        assert((a + b)[a.len() + i].ports[j].name == name);
    }
}

proof fn lemma_anchored_concat(a: Flat, b: Flat, roots: spec_fn(Seq<char>) -> bool)
    requires
        anchored(a, roots),
        anchored(b, roots),
    ensures
        anchored(flat_concat(a, b), roots),
{
    let ab = flat_concat(a, b);
    assert forall|i: int| 0 <= i < ab.switches.len() implies roots(
        (#[trigger] ab.switches[i]).parent_port,
    ) || is_switch_port(ab.switches, ab.switches[i].parent_port) by {
        let name = ab.switches[i].parent_port;
        lemma_switch_port_grows(a.switches, b.switches, name);
        if i < a.switches.len() {
            assert(ab.switches[i] == a.switches[i]);
        } else {
            assert(ab.switches[i] == b.switches[i - a.switches.len()]);
        }
    }
    assert forall|i: int| 0 <= i < ab.devices.len() implies roots((#[trigger] ab.devices[i]).0)
        || is_switch_port(ab.switches, ab.devices[i].0) by {
        let name = ab.devices[i].0;
        lemma_switch_port_grows(a.switches, b.switches, name);
        if i < a.devices.len() {
            assert(ab.devices[i] == a.devices[i]);
        } else {
            assert(ab.devices[i] == b.devices[i - a.devices.len()]);
        }
    }
}

/// What is anchored with more ports at hand is anchored once those ports are
/// listed.
proof fn lemma_anchored_under_switch(
    below: Flat,
    head: Switch,
    roots: spec_fn(Seq<char>) -> bool,
    inner: spec_fn(Seq<char>) -> bool,
)
    requires
        anchored(below, inner),
        roots(head.parent_port),
        forall|name: Seq<char>| #[trigger] inner(name) ==> is_switch_port(seq![head], name),
    ensures
        anchored(
            flat_concat(Flat { switches: seq![head], devices: Seq::empty() }, below),
            roots,
        ),
{
    let all = flat_concat(Flat { switches: seq![head], devices: Seq::empty() }, below);
    assert forall|i: int| 0 <= i < all.switches.len() implies roots(
        (#[trigger] all.switches[i]).parent_port,
    ) || is_switch_port(all.switches, all.switches[i].parent_port) by {
        let name = all.switches[i].parent_port;
        lemma_switch_port_grows(seq![head], below.switches, name);
        if i > 0 {
            assert(all.switches[i] == below.switches[i - 1]);
            assert(inner(name) || is_switch_port(below.switches, name));
        }
    }
    assert forall|i: int| 0 <= i < all.devices.len() implies roots((#[trigger] all.devices[i]).0)
        || is_switch_port(all.switches, all.devices[i].0) by {
        let name = all.devices[i].0;
        lemma_switch_port_grows(seq![head], below.switches, name);
        assert(all.devices[i] == below.devices[i]);
        assert(inner(name) || is_switch_port(below.switches, name));
    }
}

/// What a walk finds behind a port hangs off that port, or off a switch that the
/// walk found.
pub proof fn law_walk_is_anchored(port: Seq<char>, kind: PcieAttachmentKind)
    requires
        walk(port, kind) is Ok,
    ensures
        anchored(walk(port, kind)->Ok_0, |name: Seq<char>| name == port),
    decreases kind, 0nat,
{
    let roots = |name: Seq<char>| name == port;
    match kind {
        PcieAttachmentKind::Device(device) => {
            assert(roots(port));
        },
        PcieAttachmentKind::Switch { name, downstream_ports } => {
            let ports = downstream_ports@;
            lemma_walk_ports_anchored(ports, ports.len());
            let below = walk_ports(ports, ports.len())->Ok_0;
            let inner = |n: Seq<char>| is_requested_port(ports, n);
            let head = Switch {
                name: name@,
                parent_port: port,
                ports: ports.map_values(|p: PciePortRequest| port_of(p)),
            };
            assert(roots(head.parent_port));
            assert forall|n: Seq<char>| #[trigger] inner(n) implies is_switch_port(
                seq![head],
                n,
            ) by {
                let j = choose|j: int| 0 <= j < ports.len() && (#[trigger] ports[j]).name@ == n;
                assert(seq![head][0] == head);
                assert(seq![head][0].ports[j].name == n);
            }
            lemma_anchored_under_switch(below, head, roots, inner);
        },
    }
}

proof fn lemma_walk_ports_anchored(ports: Seq<PciePortRequest>, n: nat)
    requires
        walk_ports(ports, n) is Ok,
        n <= ports.len(),
    ensures
        anchored(walk_ports(ports, n)->Ok_0, |name: Seq<char>| is_requested_port(ports, name)),
    decreases ports, n,
{
    let roots = |name: Seq<char>| is_requested_port(ports, name);
    if n > 0 {
        lemma_walk_ports_anchored(ports, (n - 1) as nat);
        let before = walk_ports(ports, (n - 1) as nat)->Ok_0;
        let p = ports[n - 1];
        if let Some(Some(kind)) = p.attached {
            law_walk_is_anchored(p.name@, *kind);
            let behind = walk(p.name@, *kind)->Ok_0;
            let own = |name: Seq<char>| name == p.name@;
            assert(roots(p.name@));
            assert(anchored(behind, roots)) by {
                assert forall|i: int| 0 <= i < behind.switches.len() implies roots(
                    (#[trigger] behind.switches[i]).parent_port,
                ) || is_switch_port(behind.switches, behind.switches[i].parent_port) by {
                    assert(own(behind.switches[i].parent_port) || is_switch_port(
                        behind.switches,
                        behind.switches[i].parent_port,
                    ));
                }
                assert forall|i: int| 0 <= i < behind.devices.len() implies roots(
                    (#[trigger] behind.devices[i]).0,
                ) || is_switch_port(behind.switches, behind.devices[i].0) by {
                    assert(own(behind.devices[i].0) || is_switch_port(
                        behind.switches,
                        behind.devices[i].0,
                    ));
                }
            }
            lemma_anchored_concat(before, behind, roots);
        }
    }
}

} // verus!
