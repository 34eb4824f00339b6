//! Configuration of a virtual machine, as the machine worker consumes it.
//!
//! Host resources (files, sockets, device handles) are held by the caller. Here
//! a file is the index of an entry in the caller's table, and a device resource
//! is known by its kind and identifier.

use vstd::prelude::*;

use crate::net::{Ipv4Address, MacAddress};

verus! {

/// An open host file, by its index in the caller's table.
#[derive(Clone, Copy, Debug, PartialEq, Eq, Structural)]
pub struct HostFile {
    pub slot: u32,
}

/// A globally unique identifier.
#[derive(Clone, Copy, Debug, PartialEq, Eq)]
pub struct Guid {
    pub data1: u32,
    pub data2: u16,
    pub data3: u16,
    pub data4: [u8; 8],
}

/// A device resource, by its kind (such as `virtio-blk`).
#[derive(Debug)]
pub struct DeviceResource {
    pub id: String,
}

/// A page-aligned range of guest physical addresses.
#[derive(Clone, Copy, Debug, PartialEq, Eq, Structural)]
pub struct MemoryRange {
    pub start: u64,
    pub end: u64,
}

pub const PAGE_SIZE: u64 = 4096;

impl MemoryRange {
    /// The range is page-aligned and its ends are in order.
    pub open spec fn wf(self) -> bool {
        self.start <= self.end && self.start % PAGE_SIZE == 0 && self.end % PAGE_SIZE == 0
    }

    /// Builds a range, where its bounds are page-aligned and in order.
    pub fn try_new(start: u64, end: u64) -> (r: Option<MemoryRange>)
        ensures
            match r {
                Some(range) => range == (MemoryRange { start, end }) && range.wf(),
                None => !(MemoryRange { start, end }).wf(),
            },
    {
        if start <= end && start % PAGE_SIZE == 0 && end % PAGE_SIZE == 0 {
            Some(MemoryRange { start, end })
        } else {
            None
        }
    }
}

/// The operating system of the host.
#[derive(Clone, Copy, Debug, PartialEq, Eq, Structural)]
pub enum HostOs {
    Linux,
    Windows,
    Macos,
    Other,
}

/// The instruction set of the guest.
#[derive(Clone, Copy, Debug, PartialEq, Eq, Structural)]
pub enum GuestArch {
    X86_64,
    Aarch64,
}

#[derive(Debug)]
pub struct Config {
    pub load_mode: LoadMode,
    pub floppy_disks: Vec<DiskConfig>,
    pub ide_disks: Vec<DiskConfig>,
    pub pcie_root_complexes: Vec<PcieRootComplexConfig>,
    pub pcie_ecam_below_4gb: bool,
    pub pcie_devices: Vec<PcieDeviceConfig>,
    pub pcie_switches: Vec<PcieSwitchConfig>,
    pub pcie_generic_initiators: Vec<PcieGenericInitiatorConfig>,
    pub vpci_devices: Vec<VpciDeviceConfig>,
    pub numa: NumaTopology,
    pub processor_topology: ProcessorTopologyConfig,
    pub hypervisor: HypervisorConfig,
    pub chipset: BaseChipsetManifest,
    pub vmbus: Option<VmbusConfig>,
    pub vtl2_vmbus: Option<VmbusConfig>,
    /// In-kernel NICs, on hosts that have them.
    pub kernel_vmnics: Vec<KernelVmNicConfig>,
    /// Whether a framebuffer is attached.
    pub framebuffer: bool,
    /// Whether VGA firmware is configured.
    pub vga_firmware: bool,
    pub vtl2_gfx: bool,
    pub virtio_devices: Vec<(VirtioBus, DeviceResource)>,
    /// Host-assigned VPCI resources, on hosts that have them.
    pub vpci_resources: Vec<HostFile>,
    pub vmgs: Option<VmgsResource>,
    /// Whether firmware events are reported.
    pub firmware_event_send: bool,
    /// Whether a debugger is attached.
    pub debugger_rpc: bool,
    pub vmbus_devices: Vec<(DeviceVtl, DeviceResource)>,
    pub chipset_devices: Vec<ChipsetDeviceHandle>,
    pub pci_chipset_devices: Vec<ChipsetDeviceHandle>,
    pub isa_dma_controller: Option<DeviceResource>,
    pub chipset_capabilities: VmChipsetCapabilities,
    /// Memory layout sizing: chipset MMIO range sizes.
    pub layout: LayoutConfig,
    pub rtc_delta_milliseconds: i64,
    /// The versioned guest-visible machine contract.
    pub machine_profile: MachineProfile,
    /// Static identity of the optional microVM NIC.
    pub microvm_network: Option<MicrovmNetworkConfig>,
}

/// A disk on a legacy controller.
#[derive(Debug)]
pub struct DiskConfig {
    pub resource: DeviceResource,
    pub read_only: bool,
}

/// How guest state is encrypted, with the flag that its storage takes.
#[derive(Clone, Copy, Debug, PartialEq, Eq, Structural)]
pub enum GuestStateEncryptionPolicy {
    Unencrypted(bool),
    GspById(bool),
}

/// Guest state storage: a disk with its encryption, told apart by when the state on
/// it is made anew, or nothing that lasts.
#[derive(Clone, Copy, Debug, PartialEq, Eq, Structural)]
pub enum VmgsResource {
    /// Made anew where the disk is empty.
    Disk(GuestStateEncryptionPolicy),
    /// Made anew where it cannot be read.
    ReprovisionOnFailure(GuestStateEncryptionPolicy),
    /// Always made anew.
    Reprovision(GuestStateEncryptionPolicy),
    Ephemeral,
}

/// The base chipset devices that a machine has.
#[derive(Clone, Copy, Debug, PartialEq, Eq, Structural)]
pub struct BaseChipsetManifest {
    pub with_generic_cmos_rtc: bool,
    /// Any base device besides the generic CMOS clock.
    pub with_other_devices: bool,
}

/// What the chipset offers to the rest of the machine.
#[derive(Clone, Copy, Debug, PartialEq, Eq, Structural)]
pub struct VmChipsetCapabilities {
    pub with_ioapic: bool,
    pub with_pic: bool,
    pub with_pit: bool,
    pub with_generic_isa_dma: bool,
    pub with_psp: bool,
    pub with_guest_watchdog: bool,
    pub with_i440bx_host_pci_bridge: bool,
}

/// Sizes of the chipset MMIO ranges.
#[derive(Clone, Copy, Debug, PartialEq, Eq, Structural)]
pub struct LayoutConfig {
    pub chipset_low_mmio_size: u64,
    pub chipset_high_mmio_size: u64,
    pub vtl2_chipset_mmio_size: u64,
}

/// A named chipset device.
#[derive(Debug)]
pub struct ChipsetDeviceHandle {
    pub name: String,
    pub resource: DeviceResource,
}

/// Static guest-visible network identity for the microVM NIC.
#[derive(Clone, Copy, Debug, PartialEq, Eq)]
pub struct MicrovmNetworkConfig {
    /// Required cross-platform host-network implementation contract.
    pub profile: MicrovmNetworkProfile,
    pub guest_ipv4: Ipv4Address,
    pub prefix_length: u8,
    pub derived_gateway_ipv4: Ipv4Address,
    pub guest_mac: MacAddress,
    pub gateway_mac: MacAddress,
}

/// Required host-network implementation contract for a microVM NIC.
///
/// Profiles are explicit so snapshots never silently acquire different host
/// networking semantics on another supported hypervisor.
#[derive(Clone, Copy, Debug, PartialEq, Eq, Structural)]
pub enum MicrovmNetworkProfile {
    /// User-mode NAT on every supported host backend.
    Portable,
}

/// The guest-visible machine contract, independent of the hypervisor backend.
#[derive(Debug, Clone, Copy, PartialEq, Eq, Structural)]
pub enum MachineProfile {
    /// The standard machine.
    Standard,
    /// The microVM machine.
    Microvm,
}

impl Default for MachineProfile {
    fn default() -> (r: MachineProfile)
        ensures
            r == MachineProfile::Standard,
    {
        MachineProfile::Standard
    }
}

pub const DEFAULT_GIC_DISTRIBUTOR_BASE: u64 = 0xFFFF_0000;

/// The default base of the GIC redistributors. An in-kernel vGICv3 requires the
/// distributor and redistributor bases to be aligned to 64 KiB.
pub fn default_gic_redistributors_base(host: HostOs) -> (base: u64)
    ensures
        base == if host == HostOs::Linux {
            0xEFFF_0000u64
        } else {
            0xEFFE_E000u64
        },
        host == HostOs::Linux ==> base % 0x1_0000 == 0,
{
    if host == HostOs::Linux {
        0xEFFF_0000
    } else {
        0xEFFE_E000
    }
}

/// Base address of the guest-visible GIC v2m MSI frame.
pub const DEFAULT_GIC_V2M_MSI_FRAME_BASE: u64 = 0xEFFE_8000;

/// Size of the v2m MSI frame (one 4KB page is the architectural minimum).
pub const GIC_V2M_MSI_FRAME_SIZE: u64 = 0x1000;

/// Start of the default device-assignment MSI IOVA reservation.
pub const DEFAULT_DEVICE_ASSIGNMENT_MSI_IOVA_START: u64 = 0xEFF6_8000;

/// End of the default device-assignment MSI IOVA reservation.
pub const DEFAULT_DEVICE_ASSIGNMENT_MSI_IOVA_END: u64 = 0xF006_8000;

/// Base address of the GICv3 ITS MMIO region. Must be 64 KiB aligned, below the
/// v2m frame address, and not overlap other devices.
pub const DEFAULT_GIC_ITS_BASE: u64 = 0xEFFC_0000;

/// Size of the ITS MMIO region (control frame and translation frame).
pub const GIC_ITS_SIZE: u64 = 0x2_0000;

/// Default virtual timer PPI (GIC INTID).
pub const DEFAULT_VIRT_TIMER_PPI: u32 = 20;

/// Default total number of GIC interrupts: the largest multiple of 32 that a
/// GIC accepts.
pub const DEFAULT_GIC_NR_IRQS: u32 = 992;

/// Default VMBus PPI (GIC INTID).
pub const DEFAULT_VMBUS_PPI: u32 = 18;

/// The fixed interrupt-controller defaults keep to what they are documented to
/// keep to: the ITS is aligned, lies wholly below the v2m frame, and the number
/// of interrupts is the largest multiple of 32 below 1023.
pub proof fn law_gic_defaults()
    ensures
        DEFAULT_GIC_ITS_BASE % 0x1_0000 == 0,
        DEFAULT_GIC_ITS_BASE + GIC_ITS_SIZE <= DEFAULT_GIC_V2M_MSI_FRAME_BASE,
        DEFAULT_GIC_NR_IRQS % 32 == 0,
        64 <= DEFAULT_GIC_NR_IRQS <= 1023,
        DEFAULT_GIC_NR_IRQS + 32 > 1023,
        (MemoryRange {
            start: DEFAULT_DEVICE_ASSIGNMENT_MSI_IOVA_START,
            end: DEFAULT_DEVICE_ASSIGNMENT_MSI_IOVA_END,
        }).wf(),
        DEFAULT_DEVICE_ASSIGNMENT_MSI_IOVA_END - DEFAULT_DEVICE_ASSIGNMENT_MSI_IOVA_START
            == 0x10_0000,
{
}

/// How firmware tables are presented to the guest in Linux direct boot.
#[derive(Debug, Clone, Copy, PartialEq, Eq, Structural)]
pub enum LinuxDirectBootMode {
    /// Full device tree with all devices described in DT nodes (aarch64 only).
    DeviceTree,
    /// ACPI tables for device discovery.
    Acpi,
}

/// Isolation-specific settings for Linux direct boot.
#[derive(Debug, Clone, Copy, PartialEq, Eq, Structural)]
pub enum LinuxIsolationConfig {
    /// No isolation-specific loader configuration.
    NoIsolation,
    /// AMD SEV-SNP loader configuration.
    Snp {
        /// Enables restricted interrupt injection in the SNP VMSA.
        restricted_injection: bool,
    },
}

/// Overrides for the firmware's SMBIOS identity. What is absent keeps the
/// loader's default.
#[derive(Debug)]
pub struct SmbiosBiosOverrides {
    pub vendor: Option<String>,
    pub version: Option<String>,
    pub release_date: Option<String>,
    /// Major and minor release.
    pub release: Option<(u8, u8)>,
}

/// Overrides for the machine's SMBIOS identity. What is absent keeps the
/// loader's default.
#[derive(Debug)]
pub struct SmbiosSystemOverrides {
    pub manufacturer: Option<String>,
    pub product_name: Option<String>,
    pub version: Option<String>,
    pub serial_number: Option<String>,
    pub sku_number: Option<String>,
    pub family: Option<String>,
    pub uuid: Guid,
}

/// The SMBIOS identity of a machine.
#[derive(Debug)]
pub struct SmbiosConfig {
    pub bios: SmbiosBiosOverrides,
    pub system: SmbiosSystemOverrides,
}

#[derive(Debug)]
pub enum LoadMode {
    Linux {
        kernel: HostFile,
        initrd: Option<HostFile>,
        cmdline: String,
        enable_serial: bool,
        isolation: LinuxIsolationConfig,
        boot_mode: LinuxDirectBootMode,
        smbios: SmbiosConfig,
    },
    Uefi {
        firmware: HostFile,
        enable_debugging: bool,
        enable_memory_protections: bool,
        disable_frontpage: bool,
        enable_tpm: bool,
        enable_battery: bool,
        enable_serial: bool,
        enable_vpci_boot: bool,
        uefi_console_mode: Option<UefiConsoleMode>,
        default_boot_always_attempt: bool,
        enable_vmbus: bool,
        force_dma_bounce: bool,
        enable_hv: bool,
        /// Whether the guest firmware should enable hibernation (S4) support.
        hibernation_enabled: bool,
        /// Its system identifier is also the identifier of the firmware.
        smbios: SmbiosConfig,
    },
    Pcat {
        firmware: HostFile,
        boot_order: [PcatBootDevice; 4],
        /// Whether the guest firmware should enable hibernation (S4) support.
        hibernation_enabled: bool,
        smbios: SmbiosConfig,
    },
    Igvm {
        file: HostFile,
        cmdline: String,
        vtl2_base_address: Vtl2BaseAddressType,
        com_serial: Option<SerialInformation>,
    },
    /// Nothing is loaded; the guest state comes from elsewhere.
    Nothing,
    Pvh { kernel: HostFile, initrd: Option<HostFile>, cmdline: String },
}

#[derive(Debug, Clone, Copy, PartialEq, Eq, Structural)]
pub struct SerialInformation {
    pub io_port: u16,
    pub irq: u32,
}

/// Different types to specify the base address for the VTL2 region of the IGVM
/// file.
#[derive(Debug, Clone, Copy, PartialEq, Eq, Structural)]
pub enum Vtl2BaseAddressType {
    /// Use the addresses specified in the file.
    File,
    /// Put VTL2 at the specified address.
    Absolute(u64),
    /// Use the specified range in the memory layout. An optional size overrides
    /// the size that the file describes.
    MemoryLayout { size: Option<u64> },
    /// Tell VTL2 to allocate its own memory. An optional size overrides the size
    /// that the file describes.
    Vtl2Allocate { size: Option<u64> },
}

/// A PCIe MMIO BAR window, either by size (the resolver allocates) or by a fixed
/// location.
#[derive(Debug, Clone, Copy, PartialEq, Eq, Structural)]
pub enum PcieMmioRangeConfig {
    /// Dynamically allocate a range of the given size.
    Dynamic {
        /// Size of the range in bytes.
        size: u64,
    },
    /// Use the specified fixed memory range.
    Fixed(MemoryRange),
}

#[derive(Debug, Clone, Copy, PartialEq, Eq, Structural)]
pub struct RootComplexCxlConfig {
    /// HDM window size in bytes for this CXL root complex.
    pub hdm_size: u64,
    /// CFMWS HDM window restrictions bitmask.
    pub hdm_window_restrictions: u16,
}

#[derive(Debug)]
pub struct PcieRootComplexConfig {
    pub index: u32,
    pub name: String,
    pub segment: u16,
    pub start_bus: u8,
    pub end_bus: u8,
    pub low_mmio: PcieMmioRangeConfig,
    pub high_mmio: PcieMmioRangeConfig,
    pub ports: Vec<PciePortConfig>,
    /// Optional CXL configuration for root-complex CXL mode.
    pub cxl: Option<RootComplexCxlConfig>,
    /// Optional IOMMU for this root complex.
    pub iommu: Option<PcieIommuConfig>,
    /// NUMA node affinity for this root complex.
    pub vnode: Option<u32>,
    /// Treat non-zero BAR values found during probing as pinned addresses.
    pub preserve_bars: bool,
}

/// Configuration for a single PCIe port: either a root-complex root port or a
/// switch downstream port.
#[derive(Debug)]
pub struct PciePortConfig {
    /// Port name used for topology wiring and lookup.
    pub name: String,
    /// The device/function to place this port at on its bus. `None` takes the
    /// lowest available one.
    pub devfn: Option<u8>,
    /// Enables PCIe hotplug capabilities for this port.
    pub hotplug: bool,
    /// Optional ACS capability bitmask to expose on this port.
    pub acs_capabilities_supported: Option<u16>,
    /// Marks this port as CXL-capable.
    pub cxl: bool,
    /// Enables PASID support for functions downstream of this port.
    pub pasid: bool,
}

#[derive(Debug)]
pub struct PcieSwitchConfig {
    pub name: String,
    pub parent_port: String,
    /// The downstream ports of this switch.
    pub ports: Vec<PciePortConfig>,
}

/// Declares that the device directly behind a named PCIe port is a generic
/// initiator for the given NUMA node.
#[derive(Debug)]
pub struct PcieGenericInitiatorConfig {
    /// Name of the PCIe port behind which the device resides.
    pub port_name: String,
    /// NUMA node the device is a generic initiator for.
    pub node: u32,
}

#[derive(Debug)]
pub struct PcieDeviceConfig {
    pub port_name: String,
    pub resource: DeviceResource,
}

#[derive(Debug)]
pub struct VpciDeviceConfig {
    pub vtl: DeviceVtl,
    /// The ID of the device.
    pub instance_id: Guid,
    pub resource: DeviceResource,
    /// NUMA node affinity for this VPCI device.
    pub vnode: Option<u32>,
}

#[derive(Debug)]
pub struct ProcessorTopologyConfig {
    pub proc_count: u32,
    pub vps_per_socket: Option<u32>,
    pub enable_smt: Option<bool>,
    pub arch: Option<ArchTopologyConfig>,
}

#[derive(Debug, Clone, Copy, PartialEq, Eq, Structural)]
pub struct X86TopologyConfig {
    pub apic_id_offset: u32,
    pub x2apic: X2ApicConfig,
}

impl Default for X86TopologyConfig {
    fn default() -> (r: X86TopologyConfig)
        ensures
            r == (X86TopologyConfig { apic_id_offset: 0, x2apic: X2ApicConfig::Auto }),
    {
        X86TopologyConfig { apic_id_offset: 0, x2apic: X2ApicConfig::Auto }
    }
}

#[derive(Debug, Copy, Clone, PartialEq, Eq, Structural)]
pub enum X2ApicConfig {
    /// Support the X2APIC if recommended by the hypervisor or if needed by the
    /// topology configuration.
    Auto,
    /// Support the X2APIC, and automatically enable it if needed to address all
    /// processors.
    Supported,
    /// Do not support the X2APIC.
    Unsupported,
    /// Support and enable the X2APIC.
    Enabled,
}

#[derive(Debug, Copy, Clone, PartialEq, Eq, Structural)]
pub enum PmuGsivConfig {
    /// Use the hypervisor's platform GSIV value for the PMU.
    Platform,
    /// Use the specified GSIV value for the PMU.
    Gsiv(u32),
    /// Disable the PMU.
    Disabled,
}

/// MSI controller selection for aarch64 PCIe interrupt delivery.
#[derive(Debug, Copy, Clone, PartialEq, Eq, Structural)]
pub enum GicMsiConfig {
    /// Automatically select the best available MSI controller.
    Auto,
    /// Force GICv3 ITS for MSI delivery via LPIs.
    Its,
    /// Force GICv2m for MSI delivery via SPIs.
    V2m {
        /// Number of SPIs to reserve for PCIe MSIs.
        spi_count: Option<u32>,
    },
}

/// IOMMU configuration for a single PCIe root complex.
#[derive(Debug, Copy, Clone, PartialEq, Eq, Structural)]
pub enum PcieIommuConfig {
    /// AMD IOMMU (AMD-Vi) for x86_64 guests.
    AmdVi,
    /// Arm SMMUv3 for aarch64 guests.
    Smmu {
        /// Enable HW-accelerated nested translation.
        accel: bool,
        /// Output address size (OAS) resolution policy.
        oas: SmmuOas,
    },
    /// Intel VT-d for x86_64 guests.
    IntelVtd,
}

/// Output address size (OAS) policy for an emulated SMMUv3.
#[derive(Debug, Clone, Copy, PartialEq, Eq, Structural)]
pub enum SmmuOas {
    /// Advertise a fixed default OAS.
    Auto,
    /// Use a fixed OAS in bits (one of 32, 36, 40, 42, 44, 48, 52).
    Fixed(u8),
}

#[derive(Debug, Clone, Copy, PartialEq, Eq, Structural)]
pub struct Aarch64TopologyConfig {
    pub gic_config: Option<GicConfig>,
    pub pmu_gsiv: PmuGsivConfig,
    pub gic_msi: GicMsiConfig,
}

/// GIC configuration for the virtual machine. The variant selects the GIC
/// version; no inner configuration means the defaults for that version.
#[derive(Debug, Clone, Copy, PartialEq, Eq, Structural)]
pub enum GicConfig {
    /// GICv2 with optional address overrides.
    V2(Option<GicV2Config>),
    /// GICv3 with optional address overrides.
    V3(Option<GicV3Config>),
}

/// GICv2-specific address configuration.
#[derive(Debug, Clone, Copy, PartialEq, Eq, Structural)]
pub struct GicV2Config {
    pub gic_distributor_base: u64,
    pub cpu_interface_base: u64,
}

/// GICv3-specific address configuration.
#[derive(Debug, Clone, Copy, PartialEq, Eq, Structural)]
pub struct GicV3Config {
    pub gic_distributor_base: u64,
    pub gic_redistributors_base: u64,
}

#[derive(Debug, Clone, Copy, PartialEq, Eq, Structural)]
pub enum ArchTopologyConfig {
    X86(X86TopologyConfig),
    Aarch64(Aarch64TopologyConfig),
}

/// Per-node memory allocation configuration.
#[derive(Debug, Clone, Copy, PartialEq, Eq, Structural)]
pub struct MemoryConfig {
    pub mem_size: u64,
    pub prefetch_memory: bool,
    pub private_memory: bool,
    pub transparent_hugepages: bool,
    pub hugepages: bool,
    pub hugepage_size: Option<u64>,
    /// Host physical NUMA node to bind this allocation to. `None` means OS
    /// default placement.
    pub host_numa_node: Option<u32>,
}

/// Virtual NUMA topology for the VM.
#[derive(Debug)]
pub struct NumaTopology {
    /// NUMA nodes. The vnode ID is the index into this vector.
    pub nodes: Vec<NumaNode>,
    /// Inter-node distances for the SLIT. If empty, defaults are used (10 for
    /// self, 20 for cross-node).
    pub distances: Vec<NumaDistance>,
}

/// A single virtual NUMA node.
#[derive(Debug)]
pub struct NumaNode {
    /// Memory allocation for this node. `None` means a CPU-only or device-only
    /// node.
    pub mem: Option<MemoryConfig>,
    /// VP assignment for this node.
    pub vps: VpAssignment,
}

/// How VPs are assigned to a NUMA node.
#[derive(Debug)]
pub enum VpAssignment {
    /// Assign VPs to nodes by round-robining sockets over the CPU-bearing nodes.
    FromTopology,
    /// Explicit VP indices assigned to this node.
    Explicit(Vec<u32>),
    /// A CPU-less node: no VPs are assigned to it.
    Empty,
}

/// An inter-node distance entry for the ACPI SLIT.
#[derive(Debug, Clone, Copy, PartialEq, Eq, Structural)]
pub struct NumaDistance {
    /// Source node index.
    pub src: u32,
    /// Destination node index.
    pub dst: u32,
    /// Distance value (10 = local, 20 = default cross-node, 255 = unreachable).
    pub distance: u8,
}

#[derive(Debug)]
pub struct VmbusConfig {
    /// Whether a socket relay listens for guest connections.
    pub vsock_listener: bool,
    pub vsock_path: Option<String>,
    pub vmbus_max_version: Option<u32>,
    pub vtl2_redirect: bool,
}

impl Default for VmbusConfig {
    fn default() -> (r: VmbusConfig)
        ensures
            !r.vsock_listener && r.vsock_path is None && r.vmbus_max_version is None
                && !r.vtl2_redirect,
    {
        VmbusConfig {
            vsock_listener: false,
            vsock_path: None,
            vmbus_max_version: None,
            vtl2_redirect: false,
        }
    }
}

#[derive(Debug, Clone, Copy, PartialEq, Eq, Structural)]
pub struct HypervisorConfig {
    pub with_hv: bool,
    pub with_vtl2: Option<Vtl2Config>,
    pub with_isolation: Option<IsolationType>,
    /// Expose hardware virtualization to the guest so that it can run its own
    /// hypervisor.
    pub nested_virt: bool,
}

impl Default for HypervisorConfig {
    fn default() -> (r: HypervisorConfig)
        ensures
            r == (HypervisorConfig {
                with_hv: false,
                with_vtl2: None,
                with_isolation: None,
                nested_virt: false,
            }),
    {
        HypervisorConfig {
            with_hv: false,
            with_vtl2: None,
            with_isolation: None,
            nested_virt: false,
        }
    }
}

#[derive(Debug, Clone, Copy)]
pub struct KernelVmNicConfig {
    pub instance_id: Guid,
    pub mac_address: MacAddress,
    pub switch_port_id: SwitchPortId,
}

#[derive(Clone, Copy, Debug)]
pub struct SwitchPortId {
    pub switch: Guid,
    pub port: Guid,
}

/// The PCAT boot order used where none is given.
pub fn default_pcat_boot_order() -> (order: [PcatBootDevice; 4])
    ensures
        order@ == seq![
            PcatBootDevice::Optical,
            PcatBootDevice::HardDrive,
            PcatBootDevice::Network,
            PcatBootDevice::Floppy,
        ],
{
    [
        PcatBootDevice::Optical,
        PcatBootDevice::HardDrive,
        PcatBootDevice::Network,
        PcatBootDevice::Floppy,
    ]
}

#[derive(Debug, Clone, Copy, PartialEq, Eq, Structural)]
pub enum PcatBootDevice {
    Floppy,
    HardDrive,
    Optical,
    Network,
}

#[derive(Eq, PartialEq, Debug, Copy, Clone, Structural)]
pub enum VirtioBus {
    Mmio,
    Pci,
}

/// Policy for the partition when mapping VTL0 memory late.
#[derive(Eq, PartialEq, Debug, Copy, Clone, Structural)]
pub enum LateMapVtl0MemoryPolicy {
    /// Halt execution of the VP if VTL0 memory is accessed.
    Halt,
    /// Log the error but emulate the access with the instruction emulator.
    Log,
    /// Inject an exception into the guest.
    InjectException,
}

/// Configuration for VTL2.
#[derive(Debug, Clone, Copy, PartialEq, Eq, Structural)]
pub struct Vtl2Config {
    /// Enable the VTL0 alias map.
    pub vtl0_alias_map: bool,
    /// If set, map VTL0 memory late after VTL2 has started.
    pub late_map_vtl0_memory: Option<LateMapVtl0MemoryPolicy>,
}

/// Isolation type for a partition.
#[derive(Eq, PartialEq, Debug, Copy, Clone, Structural)]
pub enum IsolationType {
    Vbs,
    Snp,
    Cca,
}

/// Which VTL to assign a particular device to.
#[derive(Copy, Clone, Debug, PartialEq, Eq, Structural)]
pub enum DeviceVtl {
    Vtl0,
    Vtl1,
    Vtl2,
}

#[derive(Copy, Clone, Debug, PartialEq, Eq, Structural)]
pub enum UefiConsoleMode {
    Default,
    Com1,
    Com2,
    NoConsole,
}

} // verus!
