//! The devices of a launched machine, in the order in which the guest meets them.

use vstd::prelude::*;

use crate::config::{DeviceVtl, HostOs, VirtioBus};
use crate::launch::{place_virtio, virtio_bus_of, VirtioBusOption, VirtioPlace};
use crate::refusal::string_view;

verus! {

/// A group of virtio devices that options list.
#[derive(Clone, Copy, Debug, PartialEq, Eq, Structural)]
pub enum VirtioClass {
    Net,
    HostFs,
    SharedMemoryFs,
    Plan9,
    VhostUser,
}

/// A virtio device of a machine.
#[derive(Clone, Copy, Debug, PartialEq, Eq, Structural)]
pub enum VirtioKind {
    /// The network of a microVM.
    MicrovmNet,
    /// The exported directory of a microVM, or its slot while nothing is mounted.
    MicrovmFs { dormant: bool },
    /// The device of a group at an index of the options.
    Listed(VirtioClass, usize),
    PersistentMemory,
    Entropy,
    Console,
    /// A socket relay of this process.
    Vsock,
    /// A socket relay of the host's kernel.
    VhostVsock { guest_cid: u64 },
}

/// The virtio devices that options ask for.
#[derive(Debug)]
pub struct VirtioOptions {
    pub microvm: bool,
    pub microvm_network: bool,
    /// Whether a microVM has the slot of an exported directory, and whether
    /// something is mounted there.
    pub microvm_filesystem_slot: bool,
    pub microvm_filesystem_mounted: bool,
    /// The PCIe ports of the listed devices.
    pub net: Vec<Option<String>>,
    pub host_fs: Vec<Option<String>>,
    pub shared_memory_fs: Vec<Option<String>>,
    pub plan9: Vec<Option<String>>,
    pub vhost_user: Vec<Option<String>>,
    pub fs_bus: VirtioBusOption,
    pub persistent_memory: bool,
    pub persistent_memory_port: Option<String>,
    pub entropy: bool,
    pub entropy_bus: VirtioBusOption,
    pub entropy_port: Option<String>,
    pub console: bool,
    pub console_port: Option<String>,
    pub vsock: bool,
    pub vsock_bus: Option<VirtioBusOption>,
    pub vhost_vsock_cid: Option<u64>,
}

/// A virtio device and where it is asked to be.
#[derive(Debug)]
pub struct VirtioRequest {
    pub kind: VirtioKind,
    pub pcie_port: Option<String>,
    pub bus: VirtioBusOption,
}

/// The mathematical value of a [`VirtioRequest`].
pub struct VirtioSlot {
    pub kind: VirtioKind,
    pub pcie_port: Option<Seq<char>>,
    pub bus: VirtioBusOption,
}

impl View for VirtioRequest {
    type V = VirtioSlot;

    open spec fn view(&self) -> VirtioSlot {
        VirtioSlot { kind: self.kind, pcie_port: string_view(self.pcie_port), bus: self.bus }
    }
}

pub open spec fn slots(requests: Seq<VirtioRequest>) -> Seq<VirtioSlot> {
    requests.map_values(|r: VirtioRequest| r@)
}

/// The devices of a group, one for each port that is listed.
pub open spec fn listed(
    class: VirtioClass,
    ports: Seq<Option<String>>,
    bus: VirtioBusOption,
) -> Seq<VirtioSlot> {
    Seq::new(
        ports.len(),
        |i: int|
            VirtioSlot {
                kind: VirtioKind::Listed(class, i as usize),
                pcie_port: string_view(ports[i]),
                bus,
            },
    )
}

/// One device, where a condition holds.
pub open spec fn device_if(
    condition: bool,
    kind: VirtioKind,
    pcie_port: Option<Seq<char>>,
    bus: VirtioBusOption,
) -> Seq<VirtioSlot> {
    if condition {
        seq![VirtioSlot { kind, pcie_port, bus }]
    } else {
        Seq::empty()
    }
}

/// The bus of the socket relays.
pub open spec fn relay_bus(opt: VirtioOptions) -> VirtioBusOption {
    match opt.vsock_bus {
        Some(bus) => bus,
        None => VirtioBusOption::Auto,
    }
}

/// The virtio devices that options describe, in order. Devices that need the
/// Linux kernel are left out on other hosts. The console of a microVM has a fixed
/// place.
pub open spec fn virtio_slots(opt: VirtioOptions, host: HostOs) -> Seq<VirtioSlot> {
    let linux = host == HostOs::Linux;
    let auto = VirtioBusOption::Auto;
    device_if(opt.microvm_network, VirtioKind::MicrovmNet, None, VirtioBusOption::Mmio)
        + device_if(
        opt.microvm_filesystem_slot,
        VirtioKind::MicrovmFs { dormant: !opt.microvm_filesystem_mounted },
        None,
        VirtioBusOption::Mmio,
    ) + listed(VirtioClass::Net, opt.net@, auto) + listed(
        VirtioClass::HostFs,
        opt.host_fs@,
        opt.fs_bus,
    ) + listed(VirtioClass::SharedMemoryFs, opt.shared_memory_fs@, opt.fs_bus) + listed(
        VirtioClass::Plan9,
        opt.plan9@,
        auto,
    ) + device_if(
        opt.persistent_memory,
        VirtioKind::PersistentMemory,
        string_view(opt.persistent_memory_port),
        auto,
    ) + device_if(
        opt.entropy,
        VirtioKind::Entropy,
        string_view(opt.entropy_port),
        opt.entropy_bus,
    ) + device_if(
        opt.console,
        VirtioKind::Console,
        if opt.microvm {
            None
        } else {
            string_view(opt.console_port)
        },
        if opt.microvm {
            VirtioBusOption::Mmio
        } else {
            auto
        },
    ) + (if linux {
        listed(VirtioClass::VhostUser, opt.vhost_user@, auto)
    } else {
        Seq::empty()
    }) + device_if(opt.vsock, VirtioKind::Vsock, None, relay_bus(opt)) + device_if(
        linux && opt.vhost_vsock_cid is Some,
        VirtioKind::VhostVsock { guest_cid: opt.vhost_vsock_cid->0 },
        None,
        relay_bus(opt),
    )
}

fn copy_port(port: &Option<String>) -> (r: Option<String>)
    ensures
        string_view(r) == string_view(*port),
{
    match port {
        Some(port) => Some(port.as_str().to_owned()),
        None => None,
    }
}

fn add_if(
    out: &mut Vec<VirtioRequest>,
    condition: bool,
    kind: VirtioKind,
    pcie_port: Option<String>,
    bus: VirtioBusOption,
)
    ensures
        slots(final(out)@) == slots(old(out)@) + device_if(
            condition,
            kind,
            string_view(pcie_port),
            bus,
        ),
{
    if condition {
        out.push(VirtioRequest { kind, pcie_port, bus });
    }
    assert(slots(out@) =~= slots(old(out)@) + device_if(
        condition,
        kind,
        string_view(pcie_port),
        bus,
    ));
}

fn add_listed(
    out: &mut Vec<VirtioRequest>,
    class: VirtioClass,
    ports: &Vec<Option<String>>,
    bus: VirtioBusOption,
)
    ensures
        slots(final(out)@) == slots(old(out)@) + listed(class, ports@, bus),
{
    let ghost before = slots(out@);
    let ghost all = listed(class, ports@, bus);
    let mut i: usize = 0;
    assert(slots(out@) =~= before + all.take(0));
    while i < ports.len()
        invariant
            i <= ports@.len(),
            all == listed(class, ports@, bus),
            slots(out@) == before + all.take(i as int),
        decreases ports@.len() - i,
    {
        let ghost earlier = out@;
        out.push(
            VirtioRequest {
                kind: VirtioKind::Listed(class, i),
                pcie_port: copy_port(&ports[i]),
                bus,
            },
        );
        proof {
            assert(out@.last()@ == all[i as int]);
            assert(slots(out@) =~= slots(earlier).push(all[i as int]));
            assert(all.take(i + 1) =~= all.take(i as int).push(all[i as int]));
            assert(slots(out@) =~= before + all.take(i + 1));
        }
        i += 1;
    }
    assert(all.take(i as int) =~= all);
}

/// Lists the virtio devices of a machine.
pub fn virtio_requests(opt: &VirtioOptions, host: HostOs) -> (out: Vec<VirtioRequest>)
    ensures
        slots(out@) == virtio_slots(*opt, host),
{
    let mut out: Vec<VirtioRequest> = Vec::new();
    let linux = host == HostOs::Linux;
    let auto = VirtioBusOption::Auto;
    let mmio = VirtioBusOption::Mmio;
    add_if(&mut out, opt.microvm_network, VirtioKind::MicrovmNet, None, mmio);
    add_if(
        &mut out,
        opt.microvm_filesystem_slot,
        VirtioKind::MicrovmFs { dormant: !opt.microvm_filesystem_mounted },
        None,
        mmio,
    );
    add_listed(&mut out, VirtioClass::Net, &opt.net, auto);
    add_listed(&mut out, VirtioClass::HostFs, &opt.host_fs, opt.fs_bus);
    add_listed(&mut out, VirtioClass::SharedMemoryFs, &opt.shared_memory_fs, opt.fs_bus);
    add_listed(&mut out, VirtioClass::Plan9, &opt.plan9, auto);
    add_if(
        &mut out,
        opt.persistent_memory,
        VirtioKind::PersistentMemory,
        copy_port(&opt.persistent_memory_port),
        auto,
    );
    add_if(
        &mut out,
        opt.entropy,
        VirtioKind::Entropy,
        copy_port(&opt.entropy_port),
        opt.entropy_bus,
    );
    let console_port: Option<String> = if opt.microvm {
        None
    } else {
        copy_port(&opt.console_port)
    };
    let console_bus = if opt.microvm {
        mmio
    } else {
        auto
    };
    add_if(&mut out, opt.console, VirtioKind::Console, console_port, console_bus);
    if linux {
        add_listed(&mut out, VirtioClass::VhostUser, &opt.vhost_user, auto);
    }
    let relay = match opt.vsock_bus {
        Some(bus) => bus,
        None => auto,
    };
    add_if(&mut out, opt.vsock, VirtioKind::Vsock, None, relay);
    if linux {
        if let Some(guest_cid) = opt.vhost_vsock_cid {
            add_if(&mut out, true, VirtioKind::VhostVsock { guest_cid }, None, relay);
        }
    }
    assert(slots(out@) =~= virtio_slots(*opt, host));
    out
}

/// Where the virtio devices of a machine are, by their kinds: behind PCIe ports,
/// on a bus, or each on a virtual PCI bus of its own.
#[derive(Debug)]
pub struct VirtioPlacement {
    pub ports: Vec<(String, VirtioKind)>,
    pub buses: Vec<(VirtioBus, VirtioKind)>,
    pub vpci: Vec<VirtioKind>,
}

/// The devices behind PCIe ports among the first ones.
pub open spec fn on_ports(requests: Seq<VirtioSlot>, n: int) -> Seq<(Seq<char>, VirtioKind)>
    decreases n,
{
    if n <= 0 {
        Seq::empty()
    } else {
        let before = on_ports(requests, n - 1);
        match requests[n - 1].pcie_port {
            Some(port) => before.push((port, requests[n - 1].kind)),
            None => before,
        }
    }
}

/// The devices on a bus among the first ones.
pub open spec fn on_buses(
    requests: Seq<VirtioSlot>,
    with_hv: bool,
    host: HostOs,
    n: int,
) -> Seq<(VirtioBus, VirtioKind)>
    decreases n,
{
    if n <= 0 {
        Seq::empty()
    } else {
        let before = on_buses(requests, with_hv, host, n - 1);
        let bus = virtio_bus_of(requests[n - 1].bus, with_hv, host);
        if requests[n - 1].pcie_port is None && bus is Some {
            before.push((bus->0, requests[n - 1].kind))
        } else {
            before
        }
    }
}

/// The devices on a virtual PCI bus of their own among the first ones.
pub open spec fn on_vpci(
    requests: Seq<VirtioSlot>,
    with_hv: bool,
    host: HostOs,
    n: int,
) -> Seq<VirtioKind>
    decreases n,
{
    if n <= 0 {
        Seq::empty()
    } else {
        let before = on_vpci(requests, with_hv, host, n - 1);
        if requests[n - 1].pcie_port is None && virtio_bus_of(
            requests[n - 1].bus,
            with_hv,
            host,
        ) is None {
            before.push(requests[n - 1].kind)
        } else {
            before
        }
    }
}

/// The view of devices behind ports.
pub open spec fn port_views(list: Seq<(String, VirtioKind)>) -> Seq<(Seq<char>, VirtioKind)> {
    list.map_values(|d: (String, VirtioKind)| (d.0@, d.1))
}

/// Places the virtio devices of a machine.
pub fn place_devices(requests: &Vec<VirtioRequest>, with_hv: bool, host: HostOs) -> (r:
    VirtioPlacement)
    ensures
        ({
            let all = slots(requests@);
            let n = all.len() as int;
            &&& port_views(r.ports@) == on_ports(all, n)
            &&& r.buses@ == on_buses(all, with_hv, host, n)
            &&& r.vpci@ == on_vpci(all, with_hv, host, n)
        }),
{
    let ghost all = slots(requests@);
    let mut ports: Vec<(String, VirtioKind)> = Vec::new();
    let mut buses: Vec<(VirtioBus, VirtioKind)> = Vec::new();
    let mut vpci: Vec<VirtioKind> = Vec::new();
    let mut i: usize = 0;
    assert(port_views(ports@) =~= on_ports(all, 0));
    assert(buses@ =~= on_buses(all, with_hv, host, 0));
    assert(vpci@ =~= on_vpci(all, with_hv, host, 0));
    while i < requests.len()
        invariant
            i <= requests@.len(),
            all == slots(requests@),
            port_views(ports@) == on_ports(all, i as int),
            buses@ == on_buses(all, with_hv, host, i as int),
            vpci@ == on_vpci(all, with_hv, host, i as int),
        decreases requests@.len() - i,
    {
        let kind = requests[i].kind;
        let ghost earlier = ports@;
        assert(all[i as int] == requests@[i as int]@);
        let port = copy_port(&requests[i].pcie_port);
        match place_virtio(port, requests[i].bus, with_hv, host) {
            VirtioPlace::Port(port) => {
                ports.push((port, kind));
                assert(port_views(ports@) =~= port_views(earlier).push((port@, kind)));
            },
            VirtioPlace::Bus(bus) => {
                buses.push((bus, kind));
            },
            VirtioPlace::Vpci => {
                vpci.push(kind);
            },
        }
        i += 1;
    }
    VirtioPlacement { ports, buses, vpci }
}

/// The kinds of some devices.
pub open spec fn kinds(requests: Seq<VirtioSlot>) -> Seq<VirtioKind> {
    requests.map_values(|r: VirtioSlot| r.kind)
}

/// The kinds of the devices behind ports.
pub open spec fn port_kinds(list: Seq<(Seq<char>, VirtioKind)>) -> Seq<VirtioKind> {
    list.map_values(|d: (Seq<char>, VirtioKind)| d.1)
}

/// The kinds of the devices on a bus.
pub open spec fn bus_kinds(list: Seq<(VirtioBus, VirtioKind)>) -> Seq<VirtioKind> {
    list.map_values(|d: (VirtioBus, VirtioKind)| d.1)
}

/// Every virtio device has exactly one place: the devices behind ports, those on
/// a bus and those with a bus of their own are together the ones that were asked
/// for.
pub proof fn law_every_device_is_placed_once(
    requests: Seq<VirtioSlot>,
    with_hv: bool,
    host: HostOs,
    n: int,
)
    requires
        0 <= n <= requests.len(),
    ensures
        port_kinds(on_ports(requests, n)).to_multiset().add(
            bus_kinds(on_buses(requests, with_hv, host, n)).to_multiset(),
        ).add(on_vpci(requests, with_hv, host, n).to_multiset()) == kinds(
            requests.take(n),
        ).to_multiset(),
    decreases n,
{
    broadcast use vstd::seq_lib::group_to_multiset_ensures;

    let ports = port_kinds(on_ports(requests, n));
    let buses = bus_kinds(on_buses(requests, with_hv, host, n));
    let vpci = on_vpci(requests, with_hv, host, n);
    if n > 0 {
        law_every_device_is_placed_once(requests, with_hv, host, n - 1);
        let kind = requests[n - 1].kind;
        let ports0 = port_kinds(on_ports(requests, n - 1));
        let buses0 = bus_kinds(on_buses(requests, with_hv, host, n - 1));
        let vpci0 = on_vpci(requests, with_hv, host, n - 1);
        assert(kinds(requests.take(n)) =~= kinds(requests.take(n - 1)).push(kind));
        if requests[n - 1].pcie_port is Some {
            assert(ports =~= ports0.push(kind));
            assert(buses =~= buses0);
        } else if virtio_bus_of(requests[n - 1].bus, with_hv, host) is Some {
            assert(ports =~= ports0);
            assert(buses =~= buses0.push(kind));
        } else {
            assert(ports =~= ports0);
            assert(buses =~= buses0);
            assert(vpci =~= vpci0.push(kind));
        }
    } else {
        assert(ports =~= Seq::empty());
        assert(buses =~= Seq::empty());
        assert(vpci =~= Seq::empty());
        assert(kinds(requests.take(n)) =~= Seq::empty());
    }
    assert(ports.to_multiset().add(buses.to_multiset()).add(vpci.to_multiset()) =~= kinds(
        requests.take(n),
    ).to_multiset());
}

/// A device on VMBus.
#[derive(Clone, Copy, Debug, PartialEq, Eq, Structural)]
pub enum VmbusKind {
    Serial1,
    Serial2,
    /// The network device at an index of the options.
    Nic(usize),
    /// The network device of the short option.
    DefaultNic,
    GuestEmulationLog,
    GuestEmulationDevice,
    Video,
    Keyboard,
    Mouse,
    CrashDump,
    ShutdownIc,
    KeyValueIc,
    TimeSyncIc,
    /// The files of an initial configuration.
    ConfigurationHive,
}

/// What a network device on VMBus is offered to.
#[derive(Clone, Copy, Debug, PartialEq, Eq, Structural)]
pub struct NicOffer {
    pub vtl: DeviceVtl,
    /// Whether the paravisor offers it instead.
    pub underhill: bool,
}

/// The devices on VMBus that options ask for.
#[derive(Debug)]
pub struct VmbusDeviceOptions {
    pub microvm: bool,
    pub with_hv: bool,
    pub with_get: bool,
    pub vtl2: bool,
    pub no_vmbus: bool,
    pub serial1: bool,
    pub serial2: bool,
    pub nics: Vec<NicOffer>,
    pub default_nic: bool,
    pub gfx: bool,
    pub crash_dump: bool,
    pub configuration_hive: bool,
}

/// The trust level that the paravisor's own devices are offered to.
pub open spec fn paravisor_level(vtl2: bool) -> DeviceVtl {
    if vtl2 {
        DeviceVtl::Vtl2
    } else {
        DeviceVtl::Vtl0
    }
}

/// Selects the trust level that the paravisor's own devices are offered to.
pub fn paravisor_vtl(vtl2: bool) -> (r: DeviceVtl)
    ensures
        r == paravisor_level(vtl2),
{
    if vtl2 {
        DeviceVtl::Vtl2
    } else {
        DeviceVtl::Vtl0
    }
}

/// The network devices on VMBus among the first ones.
pub open spec fn vmbus_nics(nics: Seq<NicOffer>, n: int) -> Seq<(DeviceVtl, VmbusKind)>
    decreases n,
{
    if n <= 0 {
        Seq::empty()
    } else {
        let before = vmbus_nics(nics, n - 1);
        if nics[n - 1].underhill {
            before
        } else {
            before.push((nics[n - 1].vtl, VmbusKind::Nic((n - 1) as usize)))
        }
    }
}

/// One device on VMBus, where a condition holds.
pub open spec fn vmbus_if(condition: bool, vtl: DeviceVtl, kind: VmbusKind) -> Seq<
    (DeviceVtl, VmbusKind),
> {
    if condition {
        seq![(vtl, kind)]
    } else {
        Seq::empty()
    }
}

/// The devices on VMBus that options describe, in order.
pub open spec fn vmbus_list(opt: VmbusDeviceOptions) -> Seq<(DeviceVtl, VmbusKind)> {
    let own = paravisor_level(opt.vtl2);
    let guest = DeviceVtl::Vtl0;
    let get = opt.with_get && opt.with_hv;
    let integration = opt.with_hv && !opt.no_vmbus;
    vmbus_if(opt.serial1, own, VmbusKind::Serial1) + vmbus_if(
        opt.serial2,
        own,
        VmbusKind::Serial2,
    ) + (if opt.microvm {
        Seq::empty()
    } else {
        vmbus_nics(opt.nics@, opt.nics@.len() as int)
    }) + vmbus_if(opt.default_nic, guest, VmbusKind::DefaultNic) + vmbus_if(
        get,
        own,
        VmbusKind::GuestEmulationLog,
    ) + vmbus_if(get, own, VmbusKind::GuestEmulationDevice) + vmbus_if(
        opt.gfx,
        guest,
        VmbusKind::Video,
    ) + vmbus_if(opt.gfx, guest, VmbusKind::Keyboard) + vmbus_if(
        opt.gfx,
        guest,
        VmbusKind::Mouse,
    ) + vmbus_if(opt.crash_dump, own, VmbusKind::CrashDump) + vmbus_if(
        integration,
        guest,
        VmbusKind::ShutdownIc,
    ) + vmbus_if(integration, guest, VmbusKind::KeyValueIc) + vmbus_if(
        integration,
        guest,
        VmbusKind::TimeSyncIc,
    ) + vmbus_if(opt.configuration_hive, guest, VmbusKind::ConfigurationHive)
}

fn offer_if(
    out: &mut Vec<(DeviceVtl, VmbusKind)>,
    condition: bool,
    vtl: DeviceVtl,
    kind: VmbusKind,
)
    ensures
        final(out)@ == old(out)@ + vmbus_if(condition, vtl, kind),
{
    if condition {
        out.push((vtl, kind));
    }
    assert(out@ =~= old(out)@ + vmbus_if(condition, vtl, kind));
}

fn add_nics(out: &mut Vec<(DeviceVtl, VmbusKind)>, nics: &Vec<NicOffer>)
    ensures
        final(out)@ == old(out)@ + vmbus_nics(nics@, nics@.len() as int),
{
    let ghost before = out@;
    let mut i: usize = 0;
    assert(out@ =~= before + vmbus_nics(nics@, 0));
    while i < nics.len()
        invariant
            i <= nics@.len(),
            out@ == before + vmbus_nics(nics@, i as int),
        decreases nics@.len() - i,
    {
        if !nics[i].underhill {
            out.push((nics[i].vtl, VmbusKind::Nic(i)));
        }
        assert(out@ =~= before + vmbus_nics(nics@, i + 1));
        i += 1;
    }
}

/// Lists the devices on VMBus of a launched machine, before its storage is added.
pub fn vmbus_devices(opt: &VmbusDeviceOptions) -> (out: Vec<(DeviceVtl, VmbusKind)>)
    ensures
        out@ == vmbus_list(*opt),
{
    let mut out: Vec<(DeviceVtl, VmbusKind)> = Vec::new();
    let own = paravisor_vtl(opt.vtl2);
    let guest = DeviceVtl::Vtl0;
    let get = opt.with_get && opt.with_hv;
    let integration = opt.with_hv && !opt.no_vmbus;
    offer_if(&mut out, opt.serial1, own, VmbusKind::Serial1);
    offer_if(&mut out, opt.serial2, own, VmbusKind::Serial2);
    if !opt.microvm {
        add_nics(&mut out, &opt.nics);
    }
    offer_if(&mut out, opt.default_nic, guest, VmbusKind::DefaultNic);
    offer_if(&mut out, get, own, VmbusKind::GuestEmulationLog);
    offer_if(&mut out, get, own, VmbusKind::GuestEmulationDevice);
    offer_if(&mut out, opt.gfx, guest, VmbusKind::Video);
    offer_if(&mut out, opt.gfx, guest, VmbusKind::Keyboard);
    offer_if(&mut out, opt.gfx, guest, VmbusKind::Mouse);
    offer_if(&mut out, opt.crash_dump, own, VmbusKind::CrashDump);
    offer_if(&mut out, integration, guest, VmbusKind::ShutdownIc);
    offer_if(&mut out, integration, guest, VmbusKind::KeyValueIc);
    offer_if(&mut out, integration, guest, VmbusKind::TimeSyncIc);
    offer_if(&mut out, opt.configuration_hive, guest, VmbusKind::ConfigurationHive);
    assert(out@ =~= vmbus_list(*opt));
    out
}

} // verus!
