//! Where the devices of a machine that is created on request are placed.

use vstd::prelude::*;

use crate::config::{Guid, HostOs, VirtioBus};
use crate::create::uses_vpci;
use crate::create_plan::DevicesPlan;
use crate::create_request::VirtioConsoleRequest;

verus! {

/// A virtio device of a machine that is created on request.
#[derive(Clone, Copy, Debug, PartialEq, Eq, Structural)]
pub enum CreatedVirtio {
    /// The exported directory that a snapshot records.
    RestoredFs,
    /// The console that a snapshot records.
    RestoredConsole,
    Block,
    /// The exported directory at an index of the request.
    Fs(usize),
    Console,
}

/// A device on VMBus of a machine that is created on request.
#[derive(Clone, Copy, Debug, PartialEq, Eq, Structural)]
pub enum CreatedVmbus {
    ScsiController,
    /// The network device at an index of the request.
    Nic(usize),
}

/// Where the devices are.
#[derive(Debug)]
pub struct CreatedPlacement {
    pub virtio: Vec<(VirtioBus, CreatedVirtio)>,
    pub vpci: Vec<CreatedVirtio>,
    pub vmbus: Vec<CreatedVmbus>,
}

/// A request for a console is met only where it names a socket.
pub open spec fn has_console(console: Option<VirtioConsoleRequest>) -> bool {
    console is Some && console->0.socket_path@.len() > 0
}

/// One device, where a condition holds.
pub open spec fn created_if(condition: bool, device: CreatedVirtio) -> Seq<CreatedVirtio> {
    if condition {
        seq![device]
    } else {
        Seq::empty()
    }
}

/// The devices whose place is fixed: those of a snapshot and the block device.
pub open spec fn fixed_devices(
    restored_fs: bool,
    restored_console: bool,
    block: bool,
) -> Seq<CreatedVirtio> {
    created_if(restored_fs, CreatedVirtio::RestoredFs) + created_if(
        restored_console,
        CreatedVirtio::RestoredConsole,
    ) + created_if(block, CreatedVirtio::Block)
}

/// The devices whose place depends on the host.
pub open spec fn movable_devices(fs: nat, console: bool) -> Seq<CreatedVirtio> {
    Seq::new(fs, |i: int| CreatedVirtio::Fs(i as usize)) + created_if(
        console,
        CreatedVirtio::Console,
    )
}

/// Devices in memory.
pub open spec fn in_memory(devices: Seq<CreatedVirtio>) -> Seq<(VirtioBus, CreatedVirtio)> {
    devices.map_values(|d: CreatedVirtio| (VirtioBus::Mmio, d))
}

/// The devices on VMBus: the controller of the disks, where there are any, and
/// then the network devices.
pub open spec fn vmbus_of(disks: nat, nics: nat) -> Seq<CreatedVmbus> {
    (if disks > 0 {
        seq![CreatedVmbus::ScsiController]
    } else {
        Seq::empty()
    }) + Seq::new(nics, |i: int| CreatedVmbus::Nic(i as usize))
}

fn list_movable(fs: usize, console: bool) -> (out: Vec<CreatedVirtio>)
    ensures
        out@ == movable_devices(fs as nat, console),
{
    let mut out: Vec<CreatedVirtio> = Vec::new();
    let mut i: usize = 0;
    while i < fs
        invariant
            i <= fs,
            out@ == Seq::new(i as nat, |k: int| CreatedVirtio::Fs(k as usize)),
        decreases fs - i,
    {
        out.push(CreatedVirtio::Fs(i));
        assert(out@ =~= Seq::new((i + 1) as nat, |k: int| CreatedVirtio::Fs(k as usize)));
        i += 1;
    }
    if console {
        out.push(CreatedVirtio::Console);
    }
    assert(out@ =~= movable_devices(fs as nat, console));
    out
}

fn put_in_memory(out: &mut Vec<(VirtioBus, CreatedVirtio)>, devices: &Vec<CreatedVirtio>)
    ensures
        final(out)@ == old(out)@ + in_memory(devices@),
{
    let ghost before = out@;
    let mut i: usize = 0;
    assert(out@ =~= before + in_memory(devices@).take(0));
    while i < devices.len()
        invariant
            i <= devices@.len(),
            out@ == before + in_memory(devices@).take(i as int),
        decreases devices@.len() - i,
    {
        out.push((VirtioBus::Mmio, devices[i]));
        assert(out@ =~= before + in_memory(devices@).take(i + 1));
        i += 1;
    }
    assert(in_memory(devices@).take(i as int) =~= in_memory(devices@));
}

fn list_vmbus(disks: usize, nics: usize) -> (out: Vec<CreatedVmbus>)
    ensures
        out@ == vmbus_of(disks as nat, nics as nat),
{
    let mut out: Vec<CreatedVmbus> = Vec::new();
    if disks > 0 {
        out.push(CreatedVmbus::ScsiController);
    }
    let ghost before = out@;
    let mut i: usize = 0;
    assert(out@ =~= before + Seq::new(0, |k: int| CreatedVmbus::Nic(k as usize)));
    while i < nics
        invariant
            i <= nics,
            out@ == before + Seq::new(i as nat, |k: int| CreatedVmbus::Nic(k as usize)),
        decreases nics - i,
    {
        out.push(CreatedVmbus::Nic(i));
        assert(out@ =~= before + Seq::new((i + 1) as nat, |k: int| CreatedVmbus::Nic(k as usize)));
        i += 1;
    }
    assert(out@ =~= vmbus_of(disks as nat, nics as nat));
    out
}

/// Places the devices of a machine. On hosts that cannot place the movable ones
/// in memory, each gets a virtual PCI bus of its own; a microVM has none of those.
pub fn place_created(
    plan: &DevicesPlan,
    restored_fs: bool,
    restored_console: bool,
    microvm: bool,
    host: HostOs,
) -> (r: CreatedPlacement)
    ensures
        ({
            let fixed = fixed_devices(restored_fs, restored_console, plan.virtio_blk is Some);
            let movable = movable_devices(
                plan.virtiofs@.len(),
                has_console(plan.virtio_console),
            );
            let vpci = !microvm && (host == HostOs::Windows || host == HostOs::Macos);
            &&& r.virtio@ == in_memory(
                if vpci {
                    fixed
                } else {
                    fixed + movable
                },
            )
            &&& r.vpci@ == (if vpci {
                movable
            } else {
                Seq::empty()
            })
            &&& r.vmbus@ == vmbus_of(plan.disks@.len(), plan.nics.nics@.len())
        }),
{
    let console = match &plan.virtio_console {
        Some(console) => !console.socket_path.as_str().is_empty(),
        None => false,
    };
    let block = plan.virtio_blk.is_some();
    let mut virtio: Vec<(VirtioBus, CreatedVirtio)> = Vec::new();
    if restored_fs {
        virtio.push((VirtioBus::Mmio, CreatedVirtio::RestoredFs));
    }
    if restored_console {
        virtio.push((VirtioBus::Mmio, CreatedVirtio::RestoredConsole));
    }
    if block {
        virtio.push((VirtioBus::Mmio, CreatedVirtio::Block));
    }
    let ghost fixed = fixed_devices(restored_fs, restored_console, block);
    assert(virtio@ =~= in_memory(fixed));
    let movable = list_movable(plan.virtiofs.len(), console);
    let vmbus = list_vmbus(plan.disks.len(), plan.nics.nics.len());
    if uses_vpci(microvm, host) {
        CreatedPlacement { virtio, vpci: movable, vmbus }
    } else {
        put_in_memory(&mut virtio, &movable);
        assert(virtio@ =~= in_memory(fixed + movable@));
        let vpci: Vec<CreatedVirtio> = Vec::new();
        assert(vpci@ =~= Seq::empty());
        CreatedPlacement { virtio, vpci, vmbus }
    }
}

/// The identifier of the SCSI controller of a machine that is created on request:
/// `ba6163d9-04a1-4d29-b605-72e2ffb1dc7f`.
pub fn scsi_controller_id() -> (guid: Guid)
    ensures
        guid.data1 == 0xba6163d9 && guid.data2 == 0x04a1 && guid.data3 == 0x4d29,
        guid.data4@ == seq![0xb6u8, 0x05, 0x72, 0xe2, 0xff, 0xb1, 0xdc, 0x7f],
{
    let guid = Guid {
        data1: 0xba6163d9,
        data2: 0x04a1,
        data3: 0x4d29,
        data4: [0xb6, 0x05, 0x72, 0xe2, 0xff, 0xb1, 0xdc, 0x7f],
    };
    assert(guid.data4@ =~= seq![0xb6u8, 0x05, 0x72, 0xe2, 0xff, 0xb1, 0xdc, 0x7f]);
    guid
}

} // verus!
