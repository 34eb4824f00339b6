//! What a request to create a virtual machine may hold.

use vstd::prelude::*;

use crate::config::MachineProfile;
use crate::devices::{push_signed, signed_decimal, FileDisk, NicRequest};
use crate::filesystem::{
    access_of, filesystem_attachment, microvm_filesystem_attachment,
    microvm_filesystem_from_snapshot, root_refusal, saved_filesystem_refusal,
    EffectiveMicrovmFilesystem, HostRoot, MicrovmFilesystemAccess, MICROVM_FILESYSTEM_STABLE_ID,
};
use crate::microvm::MICROVM_ABI_VERSION_1;
use crate::numa::NumaRequest;
use crate::pcie::PcieTopologyRequest;
use crate::refusal::{refusal_of, refuse, Refusal};
use crate::snapshot::{
    find_attachment, has_device, Attachment, SnapshotAttachment, SnapshotMachineContract,
    SnapshotMicrovmFilesystem,
};
use crate::text::{push_text, same_text};

verus! {

/// The tag of the exported filesystem of a microVM.
pub const MICROVM_FILESYSTEM_TAG: &'static str = "microvm";

/// How long a capture waits for the guest to come to rest, unless the request
/// says otherwise.
pub const DEFAULT_QUIESCE_TIMEOUT_MS: u64 = 5_000;

/// The snapshot options of a request. A path that is not empty is present.
#[derive(Clone, Copy, Debug, PartialEq, Eq, Structural)]
pub struct SnapshotOptions {
    pub destination: bool,
    pub restore: bool,
    pub restore_entropy: bool,
    pub quiesce_timeout_ms: u64,
}

/// Why snapshot options contradict each other, if they do.
pub open spec fn options_refusal(options: SnapshotOptions) -> Option<Seq<char>> {
    if options.destination && options.restore {
        Some("snapshot capture and restore paths are mutually exclusive"@)
    } else if options.restore_entropy && !options.restore {
        Some("restore_entropy requires restore_path"@)
    } else if options.quiesce_timeout_ms != 0 && !options.destination {
        Some("quiesce_timeout_ms requires destination_path"@)
    } else {
        None
    }
}

/// Checks snapshot options, and gives the time that a capture waits for the
/// guest, in milliseconds.
pub fn check_snapshot_options(options: SnapshotOptions) -> (r: Result<u64, Refusal>)
    ensures
        refusal_of(r) == options_refusal(options),
        r is Ok ==> r->Ok_0 == (if options.quiesce_timeout_ms == 0 {
            DEFAULT_QUIESCE_TIMEOUT_MS
        } else {
            options.quiesce_timeout_ms
        }),
{
    if options.destination && options.restore {
        return Err(refuse("snapshot capture and restore paths are mutually exclusive"));
    }
    if options.restore_entropy && !options.restore {
        return Err(refuse("restore_entropy requires restore_path"));
    }
    if options.quiesce_timeout_ms != 0 && !options.destination {
        return Err(refuse("quiesce_timeout_ms requires destination_path"));
    }
    if options.quiesce_timeout_ms == 0 {
        Ok(DEFAULT_QUIESCE_TIMEOUT_MS)
    } else {
        Ok(options.quiesce_timeout_ms)
    }
}

/// Why a microVM cannot be restored from what a snapshot records, if it cannot.
pub open spec fn contract_refusal(contract: Option<SnapshotMachineContract>) -> Option<Seq<char>> {
    match contract {
        None => Some("microVM snapshot is missing its authoritative machine contract"@),
        Some(c) => if c.machine_profile@ != "microvm"@ || c.microvm_abi_version
            != MICROVM_ABI_VERSION_1 {
            Some("snapshot is not a supported microVM ABI-v1 snapshot"@)
        } else {
            None
        },
    }
}

/// Takes the machine contract of a snapshot that a microVM is restored from.
pub fn authoritative_contract(contract: Option<SnapshotMachineContract>) -> (r: Result<
    SnapshotMachineContract,
    Refusal,
>)
    ensures
        refusal_of(r) == contract_refusal(contract),
        r is Ok ==> contract == Some(r->Ok_0),
{
    match contract {
        None => Err(refuse("microVM snapshot is missing its authoritative machine contract")),
        Some(contract) => {
            if !same_text(contract.machine_profile.as_str(), "microvm")
                || contract.microvm_abi_version != MICROVM_ABI_VERSION_1 {
                return Err(refuse("snapshot is not a supported microVM ABI-v1 snapshot"));
            }
            Ok(contract)
        },
    }
}

/// The machine profiles that a request can name.
#[derive(Clone, Copy, Debug, PartialEq, Eq, Structural)]
pub enum RequestedProfile {
    Standard,
    Microvm,
    /// A number that names none.
    Unknown(i32),
}

/// How the machine boots, as it is requested. An empty path is absent.
#[derive(Debug)]
pub enum BootRequest {
    DirectBoot { kernel_path: String, initrd_path: String, kernel_cmdline: String },
    PvhBoot { kernel_path: String, initrd_path: String, kernel_cmdline: String },
    Uefi {
        firmware_path: String,
        secure_boot_enabled: bool,
        secure_boot_template: SecureBootTemplate,
    },
}

/// The secure boot variables that a firmware starts with.
#[derive(Clone, Copy, Debug, PartialEq, Eq, Structural)]
pub enum SecureBootTemplate {
    /// No variables at all.
    Bare,
    MicrosoftWindows,
    MicrosoftUefiCertificateAuthority,
}

/// A serial port as it is requested.
#[derive(Debug)]
pub struct SerialPortRequest {
    pub port: u32,
    pub socket_path: String,
    pub connect: bool,
}

/// A disk of the SCSI controller as it is requested.
#[derive(Debug)]
pub struct ScsiDiskRequest {
    pub lun: u32,
    pub host_path: String,
    pub read_only: bool,
}

/// An exported directory as it is requested.
#[derive(Debug)]
pub struct VirtioFsRequest {
    pub tag: String,
    pub root_path: String,
    pub guest_mount_target: String,
    pub read_write: bool,
}

/// A block device as it is requested.
#[derive(Debug)]
pub struct VirtioBlkRequest {
    pub disk: Option<Option<FileDisk>>,
    pub read_only: bool,
}

/// A console device as it is requested.
#[derive(Debug)]
pub struct VirtioConsoleRequest {
    pub socket_path: String,
    pub connect: bool,
}

/// The devices of a machine as they are requested.
#[derive(Debug)]
pub struct DevicesRequest {
    pub scsi_disks: Vec<ScsiDiskRequest>,
    /// How many persistent memory disks are requested.
    pub vpmem_disks: usize,
    pub nic_config: Vec<NicRequest>,
    /// How many host devices are requested.
    pub windows_device: usize,
    pub virtiofs_config: Vec<VirtioFsRequest>,
    pub virtio_blk: Option<VirtioBlkRequest>,
    pub virtio_console: Option<VirtioConsoleRequest>,
}

/// The action of a power event as it is requested.
#[derive(Clone, Copy, Debug, PartialEq, Eq, Structural)]
pub enum RequestedPowerAction {
    Default,
    Restart,
    Halt,
    /// A number that names none.
    Unknown(i32),
}

/// The actions of all power events as they are requested.
#[derive(Clone, Copy, Debug, PartialEq, Eq, Structural)]
pub struct RequestedPowerActions {
    pub shutdown: RequestedPowerAction,
    pub reset: RequestedPowerAction,
    pub crash: RequestedPowerAction,
    pub watchdog: RequestedPowerAction,
}

/// A machine as it is requested.
#[derive(Debug)]
pub struct VmConfigRequest {
    pub machine_profile: RequestedProfile,
    pub memory_mb: Option<u64>,
    pub processor_count: Option<u32>,
    pub boot_config: Option<BootRequest>,
    /// Whether there are options for Windows guests.
    pub windows_options: bool,
    pub hvsocket_path: Option<String>,
    pub numa_config: Option<NumaRequest>,
    pub pcie: Option<PcieTopologyRequest>,
    pub serial_ports: Vec<SerialPortRequest>,
    pub devices_config: Option<DevicesRequest>,
    pub guest_power_actions: Option<RequestedPowerActions>,
}

/// What a restored machine takes from its request.
#[derive(Debug)]
pub struct RestoreRequest {
    pub serial_ports: Vec<SerialPortRequest>,
    pub guest_power_actions: Option<RequestedPowerActions>,
    pub virtio_console: Option<VirtioConsoleRequest>,
    pub virtiofs: Option<VirtioFsRequest>,
}

/// Why a request cannot be that of a restored machine, if it cannot.
pub open spec fn restore_request_refusal(requested: Option<VmConfigRequest>) -> Option<Seq<char>> {
    match requested {
        None => None,
        Some(r) => if r.machine_profile != RequestedProfile::Microvm {
            Some("microVM snapshot restore requires the microVM machine profile"@)
        } else if r.memory_mb is Some || r.processor_count is Some || r.boot_config is Some
            || r.windows_options || r.hvsocket_path is Some || r.numa_config is Some
            || r.pcie is Some {
            Some(
                "restore configuration may contain only serial attachments and guest power actions"@,
            )
        } else {
            match r.devices_config {
                None => None,
                Some(d) => if d.scsi_disks@.len() == 0 && d.vpmem_disks == 0 && d.nic_config@.len()
                    == 0 && d.windows_device == 0 && d.virtiofs_config@.len() <= 1 && d.virtio_blk
                    is None {
                    None
                } else {
                    Some(
                        "restore devices_config may contain only one virtio-fs and one virtio-console attachment"@,
                    )
                },
            }
        },
    }
}

/// The restore request holds what a request gave.
pub open spec fn is_restore_request(
    restore: RestoreRequest,
    requested: Option<VmConfigRequest>,
) -> bool {
    match requested {
        None => {
            &&& restore.serial_ports@.len() == 0
            &&& restore.guest_power_actions is None
            &&& restore.virtio_console is None
            &&& restore.virtiofs is None
        },
        Some(r) => {
            &&& restore.serial_ports == r.serial_ports
            &&& restore.guest_power_actions == r.guest_power_actions
            &&& restore.virtio_console == (match r.devices_config {
                Some(d) => d.virtio_console,
                None => None,
            })
            &&& restore.virtiofs == (match r.devices_config {
                Some(d) => if d.virtiofs_config@.len() == 0 {
                    None
                } else {
                    Some(d.virtiofs_config@[0])
                },
                None => None,
            })
        },
    }
}

/// Takes from a request what a restored machine may be given: its serial ports,
/// its power actions, and fresh attachments for its console and its filesystem.
/// Everything else comes from the snapshot.
pub fn take_restore_request(requested: Option<VmConfigRequest>) -> (r: Result<
    RestoreRequest,
    Refusal,
>)
    ensures
        refusal_of(r) == restore_request_refusal(requested),
        r is Ok ==> is_restore_request(r->Ok_0, requested),
{
    let requested = match requested {
        Some(requested) => requested,
        None => {
            return Ok(
                RestoreRequest {
                    serial_ports: Vec::new(),
                    guest_power_actions: None,
                    virtio_console: None,
                    virtiofs: None,
                },
            );
        },
    };
    if requested.machine_profile != RequestedProfile::Microvm {
        return Err(refuse("microVM snapshot restore requires the microVM machine profile"));
    }
    if requested.memory_mb.is_some() || requested.processor_count.is_some()
        || requested.boot_config.is_some() || requested.windows_options
        || requested.hvsocket_path.is_some() || requested.numa_config.is_some()
        || requested.pcie.is_some() {
        return Err(
            refuse(
                "restore configuration may contain only serial attachments and guest power actions",
            ),
        );
    }
    match requested.devices_config {
        None => Ok(
            RestoreRequest {
                serial_ports: requested.serial_ports,
                guest_power_actions: requested.guest_power_actions,
                virtio_console: None,
                virtiofs: None,
            },
        ),
        Some(devices) => {
            if !(devices.scsi_disks.len() == 0 && devices.vpmem_disks == 0
                && devices.nic_config.len() == 0 && devices.windows_device == 0
                && devices.virtiofs_config.len() <= 1 && devices.virtio_blk.is_none()) {
                return Err(
                    refuse(
                        "restore devices_config may contain only one virtio-fs and one virtio-console attachment",
                    ),
                );
            }
            let mut virtiofs_config = devices.virtiofs_config;
            let virtiofs = virtiofs_config.pop();
            Ok(
                RestoreRequest {
                    serial_ports: requested.serial_ports,
                    guest_power_actions: requested.guest_power_actions,
                    virtio_console: devices.virtio_console,
                    virtiofs,
                },
            )
        },
    }
}

/// Why a profile cannot be used with some snapshot options, if it cannot.
pub open spec fn profile_refusal(
    profile: RequestedProfile,
    options: SnapshotOptions,
) -> Option<Seq<char>> {
    match profile {
        RequestedProfile::Unknown(n) => Some("unknown machine profile "@ + signed_decimal(n)),
        RequestedProfile::Standard => if options.destination || options.restore {
            Some("microVM snapshot options require the microVM machine profile"@)
        } else {
            None
        },
        RequestedProfile::Microvm => None,
    }
}

/// Selects the machine profile. Snapshots are for microVMs only.
pub fn select_profile(profile: RequestedProfile, options: SnapshotOptions) -> (r: Result<
    MachineProfile,
    Refusal,
>)
    ensures
        refusal_of(r) == profile_refusal(profile, options),
        r is Ok ==> r->Ok_0 == (if profile == RequestedProfile::Microvm {
            MachineProfile::Microvm
        } else {
            MachineProfile::Standard
        }),
{
    match profile {
        RequestedProfile::Unknown(n) => {
            let mut message = "unknown machine profile ".to_owned();
            push_signed(&mut message, n);
            Err(Refusal { message })
        },
        RequestedProfile::Standard => {
            if options.destination || options.restore {
                return Err(
                    refuse("microVM snapshot options require the microVM machine profile"),
                );
            }
            Ok(MachineProfile::Standard)
        },
        RequestedProfile::Microvm => Ok(MachineProfile::Microvm),
    }
}

/// Why a snapshot that was taken on one hypervisor cannot be restored on another.
pub open spec fn source_refusal(recorded: Seq<char>, here: Seq<char>) -> Option<Seq<char>> {
    if recorded == here {
        None
    } else {
        Some(
            "snapshot source hypervisor '"@ + recorded + "' does not match destination '"@ + here
                + "'"@,
        )
    }
}

/// Holds the hypervisor of this host to the one that a snapshot was taken on.
pub fn check_source_hypervisor(recorded: &str, here: &str) -> (r: Result<(), Refusal>)
    ensures
        refusal_of(r) == source_refusal(recorded@, here@),
{
    if same_text(recorded, here) {
        return Ok(());
    }
    let mut message = "snapshot source hypervisor '".to_owned();
    push_text(&mut message, recorded);
    push_text(&mut message, "' does not match destination '");
    push_text(&mut message, here);
    push_text(&mut message, "'");
    Err(Refusal { message })
}

/// What a restored machine is given for its filesystem, with what the host found
/// out about it.
#[derive(Debug)]
pub struct RemountRequest {
    pub virtiofs: VirtioFsRequest,
    pub host: HostRoot,
}

/// The requested export is the one that a snapshot describes.
pub open spec fn matches_policy(
    requested: VirtioFsRequest,
    target: Seq<char>,
    access: MicrovmFilesystemAccess,
) -> bool {
    &&& requested.tag@ == MICROVM_FILESYSTEM_TAG@
    &&& requested.guest_mount_target@ == target
    &&& requested.read_write == (access == MicrovmFilesystemAccess::ReadWrite)
    &&& requested.root_path@.len() != 0
}

/// Why the filesystem of a snapshot cannot be attached again, if it cannot.
pub open spec fn restored_filesystem_refusal(
    present: bool,
    policy: Option<SnapshotMicrovmFilesystem>,
    attachment: Option<Attachment>,
    target_check: Result<(), Refusal>,
    requested: Option<RemountRequest>,
) -> Option<Seq<char>> {
    if present != (policy is Some) || present != (attachment is Some) {
        Some(
            "snapshot microVM filesystem device, policy, and attachment inventories disagree"@,
        )
    } else if !present {
        if requested is Some {
            Some(
                "a restore-time virtiofs_config cannot be added to a snapshot without virtio-fs"@,
            )
        } else {
            None
        }
    } else {
        match requested {
            None => Some(
                "snapshot restore requires a fresh virtiofs_config attachment for fs:microvm0"@,
            ),
            Some(request) => {
                let saved = policy->0;
                let unsupported = saved_filesystem_refusal(saved, target_check);
                let root = root_refusal(
                    request.host.empty,
                    request.host.components@,
                    request.host.canonical,
                );
                if unsupported is Some {
                    unsupported
                } else if !matches_policy(
                    request.virtiofs,
                    saved.guest_mount_target@,
                    access_of(saved.access_mode@)->0,
                ) {
                    Some("restore-time virtiofs_config does not match the snapshot policy"@)
                } else if root is Some {
                    root
                } else if filesystem_attachment(request.host.canonical->Ok_0.identity)
                    != attachment->0 {
                    Some(
                        "restore-time filesystem root identity does not match the snapshot attachment"@,
                    )
                } else {
                    None
                }
            },
        }
    }
}

fn reattach_filesystem(
    saved: &SnapshotMicrovmFilesystem,
    recorded: &SnapshotAttachment,
    target_check: &Result<(), Refusal>,
    request: RemountRequest,
) -> (r: Result<EffectiveMicrovmFilesystem, Refusal>)
    ensures
        refusal_of(r) == restored_filesystem_refusal(
            true,
            Some(*saved),
            Some(recorded@),
            *target_check,
            Some(request),
        ),
        r is Ok ==> {
            &&& r->Ok_0.attachment@ == recorded@
            &&& r->Ok_0.config.guest_mount_target@ == saved.guest_mount_target@
            &&& access_of(saved.access_mode@) == Some(r->Ok_0.config.access)
            &&& r->Ok_0.root_path == request.host.canonical->Ok_0.path
        },
{
    let config = match microvm_filesystem_from_snapshot(saved, target_check) {
        Ok(config) => config,
        Err(e) => return Err(e),
    };
    let requested = request.virtiofs;
    let writable: bool = !config.access.is_read_only();
    let agrees = same_text(requested.tag.as_str(), MICROVM_FILESYSTEM_TAG) && same_text(
        requested.guest_mount_target.as_str(),
        config.guest_mount_target.as_str(),
    ) && requested.read_write == writable && !requested.root_path.as_str().is_empty();
    if !agrees {
        return Err(refuse("restore-time virtiofs_config does not match the snapshot policy"));
    }
    match microvm_filesystem_attachment(request.host) {
        Ok((root_path, attachment)) => {
            if !attachment.same(recorded) {
                return Err(
                    refuse(
                        "restore-time filesystem root identity does not match the snapshot attachment",
                    ),
                );
            }
            Ok(EffectiveMicrovmFilesystem { config, root_path, attachment })
        },
        Err(e) => Err(e),
    }
}

/// Attaches the filesystem of a snapshot again, from a fresh export that is the
/// same directory.
pub fn restored_microvm_filesystem(
    contract: &SnapshotMachineContract,
    target_check: &Result<(), Refusal>,
    requested: Option<RemountRequest>,
) -> (r: Result<Option<EffectiveMicrovmFilesystem>, Refusal>)
    ensures
        refusal_of(r) == restored_filesystem_refusal(
            has_device(contract.devices@, MICROVM_FILESYSTEM_STABLE_ID@),
            contract.microvm_filesystem,
            find_attachment(contract.attachments@, MICROVM_FILESYSTEM_STABLE_ID@),
            *target_check,
            requested,
        ),
        r is Ok ==> (r->Ok_0 is Some <==> contract.microvm_filesystem is Some),
        r is Ok && r->Ok_0 is Some ==> {
            let fs = r->Ok_0->0;
            let saved = contract.microvm_filesystem->0;
            &&& Some(fs.attachment@) == find_attachment(
                contract.attachments@,
                MICROVM_FILESYSTEM_STABLE_ID@,
            )
            &&& fs.config.guest_mount_target@ == saved.guest_mount_target@
            &&& access_of(saved.access_mode@) == Some(fs.config.access)
            &&& requested is Some
            &&& fs.root_path == requested->0.host.canonical->Ok_0.path
        },
{
    let present = contract.has_device(MICROVM_FILESYSTEM_STABLE_ID);
    let attachment = contract.attachment(MICROVM_FILESYSTEM_STABLE_ID);
    match (&contract.microvm_filesystem, attachment) {
        (Some(saved), Some(recorded)) => {
            if !present {
                return Err(
                    refuse(
                        "snapshot microVM filesystem device, policy, and attachment inventories disagree",
                    ),
                );
            }
            match requested {
                None => Err(
                    refuse(
                        "snapshot restore requires a fresh virtiofs_config attachment for fs:microvm0",
                    ),
                ),
                Some(request) => match reattach_filesystem(
                    saved,
                    recorded,
                    target_check,
                    request,
                ) {
                    Ok(fs) => Ok(Some(fs)),
                    Err(e) => Err(e),
                },
            }
        },
        (None, None) => {
            if present {
                return Err(
                    refuse(
                        "snapshot microVM filesystem device, policy, and attachment inventories disagree",
                    ),
                );
            }
            if requested.is_some() {
                return Err(
                    refuse(
                        "a restore-time virtiofs_config cannot be added to a snapshot without virtio-fs",
                    ),
                );
            }
            Ok(None)
        },
        _ => Err(
            refuse(
                "snapshot microVM filesystem device, policy, and attachment inventories disagree",
            ),
        ),
    }
}

/// Why the devices of a microVM are refused, if they are.
pub open spec fn microvm_devices_refusal(
    devices: DevicesRequest,
    target_check: Result<(), Refusal>,
    capture: bool,
) -> Option<Seq<char>> {
    if !(devices.scsi_disks@.len() == 0 && devices.vpmem_disks == 0 && devices.nic_config@.len()
        == 0 && devices.windows_device == 0 && devices.virtiofs_config@.len() <= 1) {
        Some(
            "microVM ABI version 1 supports only one fixed virtio-fs, one fixed virtio-console, and optional virtio-blk devices"@,
        )
    } else if devices.virtiofs_config@.len() == 1 && (devices.virtiofs_config@[0].tag@
        != MICROVM_FILESYSTEM_TAG@ || devices.virtiofs_config@[0].root_path@.len() == 0) {
        Some("microVM virtio-fs requires tag 'microvm' and a host root path"@)
    } else if devices.virtiofs_config@.len() == 1 && target_check is Err {
        Some(target_check->Err_0@)
    } else if devices.virtio_console is Some && devices.virtio_console->0.socket_path@.len()
        == 0 {
        Some("microVM virtio-console requires a socket path"@)
    } else if capture && devices.virtio_blk is Some {
        Some(
            "microVM snapshot capture with virtio-blk requires immutable media identity"@,
        )
    } else {
        None
    }
}

fn check_microvm_devices(
    devices: &DevicesRequest,
    target_check: &Result<(), Refusal>,
    capture: bool,
) -> (r: Result<(), Refusal>)
    ensures
        refusal_of(r) == microvm_devices_refusal(*devices, *target_check, capture),
{
    if !(devices.scsi_disks.len() == 0 && devices.vpmem_disks == 0 && devices.nic_config.len()
        == 0 && devices.windows_device == 0 && devices.virtiofs_config.len() <= 1) {
        return Err(
            refuse(
                "microVM ABI version 1 supports only one fixed virtio-fs, one fixed virtio-console, and optional virtio-blk devices",
            ),
        );
    }
    if devices.virtiofs_config.len() == 1 {
        let fs = &devices.virtiofs_config[0];
        if !same_text(fs.tag.as_str(), MICROVM_FILESYSTEM_TAG)
            || fs.root_path.as_str().is_empty() {
            return Err(refuse("microVM virtio-fs requires tag 'microvm' and a host root path"));
        }
        match target_check {
            Ok(()) => {},
            Err(e) => return Err(refuse(e.message.as_str())),
        }
    }
    match &devices.virtio_console {
        Some(console) => {
            if console.socket_path.as_str().is_empty() {
                return Err(refuse("microVM virtio-console requires a socket path"));
            }
        },
        None => {},
    }
    if capture && devices.virtio_blk.is_some() {
        return Err(
            refuse("microVM snapshot capture with virtio-blk requires immutable media identity"),
        );
    }
    Ok(())
}

/// All serial ports are the first one, and there is at most one.
pub open spec fn only_first_port(ports: Seq<SerialPortRequest>) -> bool {
    ports.len() == 0 || ports.len() == 1 && ports[0].port == 0
}

/// Why a microVM cannot be created afresh from a request, if it cannot. Whether
/// the mount target of its filesystem is acceptable was found out by the caller.
pub open spec fn microvm_request_refusal(
    request: VmConfigRequest,
    x86: bool,
    target_check: Result<(), Refusal>,
    capture: bool,
) -> Option<Seq<char>> {
    if !x86 {
        Some("microVM requires an x86-64 guest"@)
    } else if !(request.boot_config matches Some(BootRequest::PvhBoot { .. })) {
        Some("the microVM profile requires pvh_boot"@)
    } else if request.processor_count is Some && request.processor_count->0 != 1 {
        Some("microVM ABI version 1 requires exactly one vCPU"@)
    } else if request.numa_config is Some {
        Some("microVM ABI version 1 does not support custom NUMA topology"@)
    } else if request.pcie is Some {
        Some("microVM ABI version 1 does not support PCIe"@)
    } else if request.hvsocket_path is Some {
        Some("microVM ABI version 1 does not support hvsocket"@)
    } else if !only_first_port(request.serial_ports@) {
        Some("microVM ABI version 1 accepts only serial port 0 as its portb endpoint"@)
    } else {
        match request.devices_config {
            None => None,
            Some(devices) => microvm_devices_refusal(devices, target_check, capture),
        }
    }
}

/// Checks that a microVM can be created afresh from a request.
pub fn check_microvm_request(
    request: &VmConfigRequest,
    x86: bool,
    target_check: &Result<(), Refusal>,
    capture: bool,
) -> (r: Result<(), Refusal>)
    ensures
        refusal_of(r) == microvm_request_refusal(*request, x86, *target_check, capture),
{
    if !x86 {
        return Err(refuse("microVM requires an x86-64 guest"));
    }
    match &request.boot_config {
        Some(BootRequest::PvhBoot { .. }) => {},
        _ => return Err(refuse("the microVM profile requires pvh_boot")),
    }
    match request.processor_count {
        Some(count) => {
            if count != 1 {
                return Err(refuse("microVM ABI version 1 requires exactly one vCPU"));
            }
        },
        None => {},
    }
    if request.numa_config.is_some() {
        return Err(refuse("microVM ABI version 1 does not support custom NUMA topology"));
    }
    if request.pcie.is_some() {
        return Err(refuse("microVM ABI version 1 does not support PCIe"));
    }
    if request.hvsocket_path.is_some() {
        return Err(refuse("microVM ABI version 1 does not support hvsocket"));
    }
    match check_microvm_ports(&request.serial_ports) {
        Ok(()) => {},
        Err(e) => return Err(e),
    }
    match &request.devices_config {
        None => Ok(()),
        Some(devices) => check_microvm_devices(devices, target_check, capture),
    }
}

fn check_microvm_ports(ports: &Vec<SerialPortRequest>) -> (r: Result<(), Refusal>)
    ensures
        refusal_of(r) == (if only_first_port(ports@) {
            None
        } else {
            Some("microVM ABI version 1 accepts only serial port 0 as its portb endpoint"@)
        }),
{
    if ports.len() > 1 || ports.len() == 1 && ports[0].port != 0 {
        return Err(
            refuse("microVM ABI version 1 accepts only serial port 0 as its portb endpoint"),
        );
    }
    Ok(())
}

/// Checks that a microVM can be restored on this host with the serial ports it is
/// given.
pub fn check_restored_microvm(ports: &Vec<SerialPortRequest>, x86: bool, has_network: bool) -> (r:
    Result<(), Refusal>)
    ensures
        refusal_of(r) == (if has_network {
            Some("ttrpc restore does not yet expose microVM network attachments"@)
        } else if !x86 {
            Some("microVM requires an x86-64 guest"@)
        } else if !only_first_port(ports@) {
            Some("microVM ABI version 1 accepts only serial port 0 as its portb endpoint"@)
        } else {
            None
        }),
{
    if has_network {
        return Err(refuse("ttrpc restore does not yet expose microVM network attachments"));
    }
    if !x86 {
        return Err(refuse("microVM requires an x86-64 guest"));
    }
    check_microvm_ports(ports)
}

} // verus!
