//! What holds of a machine that is created on request, from the request to its plan.

use vstd::prelude::*;

use crate::config::{Guid, HostOs};
use crate::create_devices::{
    place_created, scsi_controller_id, CreatedPlacement, CreatedVirtio, CreatedVmbus,
};
use crate::create_laws::names_the_same_file;
use crate::create_plan::{plan_creation, CreationFacts, CreationPlan, DevicesPlan};
use crate::create_request::{
    check_microvm_request, check_restored_microvm, BootRequest, SerialPortRequest,
    SnapshotOptions, VmConfigRequest,
};
use crate::create_restore::{plan_restoration, RestorationFacts, RestorationPlan};
use crate::microvm_laws::{all_words, law_fresh_microvm_kernel_is_told};
use crate::refusal::Refusal;
use crate::text::words;

verus! {

/// What a request asks for is what is planned: the profile, the processors, the memory,
/// the boot, the relay and the devices, each in its place; what it leaves out is left
/// out, but for the one processor that every machine has.
pub proof fn law_creation_is_what_is_requested(
    options: SnapshotOptions,
    requested: Option<VmConfigRequest>,
    facts: CreationFacts,
    r: Result<CreationPlan, Refusal>,
    k: int,
)
    requires
        call_ensures(plan_creation, (options, requested, &facts), r),
        r is Ok,
    ensures
        requested is Some,
        ({
            let (plan, q) = (r->Ok_0, requested->0);
            &&& plan.machine_profile is Microvm <==> q.machine_profile is Microvm
            &&& plan.serial_ports == q.serial_ports && plan.hvsocket_path == q.hvsocket_path
            &&& q.processor_count is Some ==> plan.proc_count == q.processor_count->0
            &&& q.processor_count is None ==> plan.proc_count == 1
            &&& q.memory_mb is Some ==> plan.mem_size == q.memory_mb->0 * 1_048_576
            &&& q.memory_mb is Some <==> q.numa_config is None
            &&& q.numa_config is Some ==> plan.numa.nodes@.len() == q.numa_config->0.nodes@.len()
            &&& q.pcie is None ==> plan.pcie.root_complexes@.len() == 0
                && plan.pcie.switches@.len() == 0 && plan.pcie.devices@.len() == 0
                && plan.pcie.generic_initiators@.len() == 0
            &&& q.pcie is Some ==> plan.pcie.root_complexes@.len()
                == q.pcie->0.root_complexes@.len() && plan.pcie.generic_initiators@
                == q.pcie->0.generic_initiators@
            &&& options.quiesce_timeout_ms > 0 ==> plan.quiesce_timeout_ms
                == options.quiesce_timeout_ms
            &&& options.quiesce_timeout_ms == 0 ==> plan.quiesce_timeout_ms == 5000
        }),
        ({
            let (devices, asked) = (r->Ok_0.devices, requested->0.devices_config);
            &&& asked is None ==> devices.virtio_blk is None && devices.disks@.len() == 0
                && devices.nics.nics@.len() == 0 && devices.virtiofs@.len() == 0
                && devices.virtio_console is None
            &&& asked matches Some(d) ==> {
                &&& devices.virtio_blk is Some <==> d.virtio_blk is Some
                &&& devices.virtio_blk matches Some((disk, read_only)) ==> d.virtio_blk->0.disk
                    == Some(Some(disk)) && read_only == d.virtio_blk->0.read_only
                &&& devices.disks@.len() == d.scsi_disks@.len()
                &&& 0 <= k < d.scsi_disks@.len() ==> devices.disks@[k].1 == d.scsi_disks@[k]
                    && devices.disks@[k].0 == d.scsi_disks@[k].lun
                &&& devices.nics.nics@.len() == d.nic_config@.len()
                &&& 0 <= k < d.nic_config@.len() ==> Some(devices.nics.nics@[k].instance_id)
                    == d.nic_config@[k].nic_id && Some(devices.nics.nics@[k].mac_address)
                    == d.nic_config@[k].mac_address
                &&& devices.virtiofs == d.virtiofs_config
                &&& devices.virtio_console is Some <==> d.virtio_console is Some
                    && d.virtio_console->0.socket_path@.len() > 0
                &&& devices.virtio_console is Some ==> devices.virtio_console == d.virtio_console
            }
        }),
{
    let (plan, q) = (r->Ok_0, requested->0);
    if let Some(d) = q.devices_config {
        if 0 <= k < d.scsi_disks@.len() {
            let disk = plan.devices.disks@[k];
        }
        if 0 <= k < d.nic_config@.len() {
            let nic = plan.devices.nics.nics@[k];
        }
    }
}

/// A machine that is created boots what its request names: the kernel, the initial file
/// system where one is named, and the requested command line. A microVM's kernel is
/// told its own four words first, and names its console where the machine has one; the
/// requested words follow.
pub proof fn law_creation_boots_what_is_named(
    options: SnapshotOptions,
    requested: Option<VmConfigRequest>,
    facts: CreationFacts,
    r: Result<CreationPlan, Refusal>,
)
    requires
        call_ensures(plan_creation, (options, requested, &facts), r),
        r is Ok,
    ensures
        requested->0.boot_config is Some,
        requested->0.boot_config matches Some(
            BootRequest::DirectBoot { kernel_path, initrd_path, kernel_cmdline },
        ) ==> r->Ok_0.boot is Linux && r->Ok_0.boot->Linux_kernel_path == kernel_path
            && names_the_same_file(initrd_path, r->Ok_0.boot->Linux_initrd_path)
            && r->Ok_0.boot->Linux_cmdline == kernel_cmdline,
        requested->0.boot_config matches Some(
            BootRequest::PvhBoot { kernel_path, initrd_path, kernel_cmdline },
        ) ==> {
            &&& r->Ok_0.boot is Pvh && r->Ok_0.boot->Pvh_kernel_path == kernel_path
            &&& names_the_same_file(initrd_path, r->Ok_0.boot->Pvh_initrd_path)
            &&& words(r->Ok_0.boot->Pvh_cmdline@).len() == 4 + words(kernel_cmdline@).len()
            &&& words(r->Ok_0.boot->Pvh_cmdline@).skip(4) == words(kernel_cmdline@)
            &&& words(r->Ok_0.boot->Pvh_cmdline@)[1] == "console=hvc1"@ <==> (
            requested->0.devices_config is Some && requested->0.devices_config->0.virtio_console
                is Some)
        },
{
    match requested->0.boot_config {
        Some(BootRequest::DirectBoot { initrd_path, .. }) => {
            if initrd_path@.len() == 0 {
                assert(initrd_path@ =~= Seq::<char>::empty());
            }
        },
        Some(BootRequest::PvhBoot { initrd_path, kernel_cmdline, .. }) => {
            if initrd_path@.len() == 0 {
                assert(initrd_path@ =~= Seq::<char>::empty());
            }
            let console = crate::create_plan::has_console(requested->0);
            let args = seq![kernel_cmdline@];
            law_fresh_microvm_kernel_is_told(console, args);
            assert(args.drop_last() =~= Seq::empty());
            assert(all_words(args) =~= words(kernel_cmdline@)) by {
                reveal_with_fuel(all_words, 2);
            }
            let line = words(r->Ok_0.boot->Pvh_cmdline@);
            assert(line.skip(4) =~= words(kernel_cmdline@));
            reveal_strlit("console=hvc0");
            reveal_strlit("console=hvc1");
            assert("console=hvc0"@[11] != "console=hvc1"@[11]);
        },
        _ => {},
    }
}

/// A microVM on request is what its first version supports and nothing more: on x86-64,
/// a PVH kernel, one processor, one memory, no PCIe and no relay, at most the first
/// serial port, and of devices at most one export, one console and one disk, which
/// cannot be captured.
pub proof fn law_microvm_requests_are_plain(
    request: VmConfigRequest,
    x86: bool,
    target_check: Result<(), Refusal>,
    capture: bool,
    r: Result<(), Refusal>,
)
    requires
        call_ensures(check_microvm_request, (&request, x86, &target_check, capture), r),
    ensures
        r is Ok <==> {
            &&& x86 && request.boot_config is Some && request.boot_config->0 is PvhBoot
            &&& request.processor_count is None || request.processor_count->0 == 1
            &&& request.numa_config is None && request.pcie is None && request.hvsocket_path
                is None
            &&& request.serial_ports@.len() == 0 || request.serial_ports@.len() == 1
                && request.serial_ports@[0].port == 0
            &&& request.devices_config matches Some(d) ==> {
                &&& d.scsi_disks@.len() == 0 && d.vpmem_disks == 0 && d.nic_config@.len() == 0
                    && d.windows_device == 0
                &&& d.virtiofs_config@.len() == 0 || d.virtiofs_config@.len() == 1
                    && d.virtiofs_config@[0].tag@ == "microvm"@
                    && d.virtiofs_config@[0].root_path@.len() > 0 && target_check is Ok
                &&& d.virtio_console is Some ==> d.virtio_console->0.socket_path@.len() > 0
                &&& d.virtio_blk is Some ==> !capture
            }
        },
{
}

/// A microVM is restored on x86-64 only, without a network, and with at most its first
/// serial port.
pub proof fn law_restored_microvms_are_plain(
    ports: Vec<SerialPortRequest>,
    x86: bool,
    has_network: bool,
    r: Result<(), Refusal>,
)
    requires
        call_ensures(check_restored_microvm, (&ports, x86, has_network), r),
    ensures
        r is Ok <==> x86 && !has_network && (ports@.len() == 0 || ports@.len() == 1
            && ports@[0].port == 0),
{
}

/// A machine from a snapshot continues: its command line, its memory and its processors
/// are the recorded ones, and the time that it was away is the prepared one. It goes
/// on only on the recorded hypervisor, on x86-64 and without a network.
pub proof fn law_restoration_continues_the_machine(
    options: SnapshotOptions,
    requested: Option<VmConfigRequest>,
    facts: RestorationFacts,
    r: Result<RestorationPlan, Refusal>,
)
    requires
        call_ensures(plan_restoration, (options, requested, facts), r),
        options.restore,
        r is Ok,
    ensures
        facts.manifest is Ok && facts.manifest->Ok_0.machine_contract is Some,
        ({
            let plan = r->Ok_0;
            let manifest = facts.manifest->Ok_0;
            let contract = manifest.machine_contract->0;
            &&& plan.boot is Restored && plan.boot->Restored_cmdline
                == contract.effective_command_line
            &&& plan.mem_size == manifest.memory_size_bytes && plan.proc_count
                == manifest.vp_count
            &&& plan.numa.nodes@.len() == 1
            &&& facts.prepared is Ok && facts.prepared->Ok_0 == Some(plan.time)
            &&& facts.hypervisor is Ok && facts.hypervisor->Ok_0@ == contract.source_hypervisor@
            &&& facts.arch is X86_64 && contract.microvm_network is None
            &&& contract.machine_profile@ == "microvm"@ && contract.microvm_abi_version == 1
            &&& plan.filesystem is Some <==> contract.microvm_filesystem is Some
            &&& plan.quiesce_timeout_ms == 5000
            &&& requested is Some ==> plan.serial_ports@ == requested->0.serial_ports@
            &&& requested is None ==> plan.serial_ports@.len() == 0
            &&& plan.serial_ports@.len() <= 1
        }),
        !options.destination,
{
}

/// How many devices have a place that depends on the host.
pub open spec fn movable_count(plan: DevicesPlan) -> nat {
    plan.virtiofs@.len() + if plan.virtio_console is Some && plan.virtio_console->0.socket_path@.len()
        > 0 {
        1nat
    } else {
        0nat
    }
}

/// How many devices are in memory everywhere.
pub open spec fn fixed_count(plan: DevicesPlan, restored_fs: bool, restored_console: bool) -> nat {
    (if restored_fs {
        1nat
    } else {
        0nat
    }) + (if restored_console {
        1nat
    } else {
        0nat
    }) + (if plan.virtio_blk is Some {
        1nat
    } else {
        0nat
    })
}

/// On Windows and macOS the exported directories and the console of a standard machine
/// have virtual buses of their own, in their order; what a snapshot recorded and the
/// block device are in memory there too.
pub proof fn law_movable_devices_on_virtual_buses(
    plan: DevicesPlan,
    restored_fs: bool,
    restored_console: bool,
    host: HostOs,
    r: CreatedPlacement,
    i: int,
)
    requires
        call_ensures(place_created, (&plan, restored_fs, restored_console, false, host), r),
        host is Windows || host is Macos,
    ensures
        r.vpci@.len() == movable_count(plan),
        r.virtio@.len() == fixed_count(plan, restored_fs, restored_console),
        0 <= i < plan.virtiofs@.len() ==> r.vpci@[i] == CreatedVirtio::Fs(i as usize),
        movable_count(plan) > plan.virtiofs@.len() ==> r.vpci@[plan.virtiofs@.len() as int]
            is Console,
{
}

/// Everywhere else, and on a microVM always, every virtio device is in memory: what a
/// snapshot recorded and the block device first, then the exported directories in
/// their order, then the console.
pub proof fn law_movable_devices_in_memory(
    plan: DevicesPlan,
    restored_fs: bool,
    restored_console: bool,
    microvm: bool,
    host: HostOs,
    r: CreatedPlacement,
    i: int,
)
    requires
        call_ensures(place_created, (&plan, restored_fs, restored_console, microvm, host), r),
        microvm || host is Linux || host is Other,
    ensures
        r.vpci@.len() == 0,
        r.virtio@.len() == fixed_count(plan, restored_fs, restored_console) + movable_count(plan),
        0 <= i < r.virtio@.len() ==> r.virtio@[i].0 is Mmio,
        restored_fs ==> r.virtio@[0].1 is RestoredFs,
        plan.virtio_blk is Some ==> r.virtio@[fixed_count(plan, restored_fs, restored_console)
            - 1].1 is Block,
        0 <= i < plan.virtiofs@.len() ==> r.virtio@[fixed_count(
            plan,
            restored_fs,
            restored_console,
        ) + i].1 == CreatedVirtio::Fs(i as usize),
        movable_count(plan) > plan.virtiofs@.len() ==> r.virtio@[r.virtio@.len() - 1].1 is Console,
{
    let fixed = crate::create_devices::fixed_devices(
        restored_fs,
        restored_console,
        plan.virtio_blk is Some,
    );
    let movable = crate::create_devices::movable_devices(
        plan.virtiofs@.len(),
        crate::create_devices::has_console(plan.virtio_console),
    );
    let all = fixed + movable;
    assert(fixed.len() == fixed_count(plan, restored_fs, restored_console));
    assert(movable.len() == movable_count(plan));
    assert(r.virtio@ == crate::create_devices::in_memory(all));
    if 0 <= i < plan.virtiofs@.len() {
        assert(all[fixed.len() + i] == movable[i]);
    }
}

/// Disks share one controller on VMBus, which is there exactly where there are disks; the
/// network devices follow it in their order.
pub proof fn law_disks_share_a_controller(
    plan: DevicesPlan,
    restored_fs: bool,
    restored_console: bool,
    microvm: bool,
    host: HostOs,
    r: CreatedPlacement,
    i: int,
)
    requires
        call_ensures(place_created, (&plan, restored_fs, restored_console, microvm, host), r),
    ensures
        plan.disks@.len() == 0 ==> r.vmbus@.len() == plan.nics.nics@.len(),
        plan.disks@.len() > 0 ==> r.vmbus@.len() == plan.nics.nics@.len() + 1 && r.vmbus@[0]
            is ScsiController,
        0 <= i < plan.nics.nics@.len() ==> r.vmbus@[r.vmbus@.len() - plan.nics.nics@.len() + i]
            == CreatedVmbus::Nic(i as usize),
{
}

/// The controller of the disks is always the same one.
pub proof fn law_scsi_controller_is_known(guid: Guid)
    requires
        call_ensures(scsi_controller_id, (), guid),
    ensures
        guid.data1 == 0xba6163d9 && guid.data2 == 0x04a1 && guid.data3 == 0x4d29,
        guid.data4@[0] == 0xb6 && guid.data4@[1] == 0x05 && guid.data4@[2] == 0x72
            && guid.data4@[3] == 0xe2 && guid.data4@[4] == 0xff && guid.data4@[5] == 0xb1
            && guid.data4@[6] == 0xdc && guid.data4@[7] == 0x7f,
{
}

} // verus!
