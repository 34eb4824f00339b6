//! The platform that the firmware and the device model agree on.

use vstd::prelude::*;

use crate::config::MachineProfile;

verus! {

/// The base chipset of a machine.
#[derive(Clone, Copy, Debug, PartialEq, Eq, Structural)]
pub enum BaseChipsetType {
    HypervGen1,
    HypervGen2Uefi,
    HyperVGen2LinuxDirect,
    HclHost,
    EnlightenedLinuxDirect,
    UnenlightenedLinuxDirect,
    Microvm,
}

/// What an IGVM image presents itself as.
#[derive(Clone, Copy, Debug, PartialEq, Eq, Structural)]
pub enum IgvmPersonality {
    Uefi,
    LinuxDirect,
}

/// The isolation that is asked for.
#[derive(Clone, Copy, Debug, PartialEq, Eq, Structural)]
pub enum IsolationRequest {
    Vbs,
    Snp,
}

/// The options that decide the chipset.
#[derive(Clone, Copy, Debug, PartialEq, Eq, Structural)]
pub struct ChipsetOptions {
    pub machine: MachineProfile,
    /// Whether an IGVM image is loaded.
    pub igvm: bool,
    pub igvm_personality: Option<IgvmPersonality>,
    pub isolation: Option<IsolationRequest>,
    pub pcat: bool,
    pub uefi: bool,
    pub hv: bool,
}

/// The chipset of a Linux kernel that is booted directly.
pub open spec fn linux_direct_chipset(hv: bool) -> BaseChipsetType {
    if hv {
        BaseChipsetType::HyperVGen2LinuxDirect
    } else {
        BaseChipsetType::UnenlightenedLinuxDirect
    }
}

/// The chipset that some options describe.
pub open spec fn chipset_of(opt: ChipsetOptions) -> BaseChipsetType {
    let snp = opt.isolation == Some(IsolationRequest::Snp);
    if opt.machine == MachineProfile::Microvm {
        BaseChipsetType::Microvm
    } else if opt.igvm && opt.igvm_personality is None {
        BaseChipsetType::HclHost
    } else if opt.igvm && opt.igvm_personality == Some(IgvmPersonality::Uefi) {
        BaseChipsetType::HypervGen2Uefi
    } else if snp {
        BaseChipsetType::EnlightenedLinuxDirect
    } else if !opt.igvm && opt.pcat {
        BaseChipsetType::HypervGen1
    } else if !opt.igvm && opt.uefi {
        BaseChipsetType::HypervGen2Uefi
    } else {
        linux_direct_chipset(opt.hv)
    }
}

/// Selects the base chipset.
pub fn base_chipset_type(opt: &ChipsetOptions) -> (r: BaseChipsetType)
    ensures
        r == chipset_of(*opt),
{
    let snp = match opt.isolation {
        Some(IsolationRequest::Snp) => true,
        _ => false,
    };
    if opt.machine == MachineProfile::Microvm {
        BaseChipsetType::Microvm
    } else if opt.igvm {
        match opt.igvm_personality {
            None => BaseChipsetType::HclHost,
            Some(IgvmPersonality::Uefi) => BaseChipsetType::HypervGen2Uefi,
            Some(IgvmPersonality::LinuxDirect) => {
                if snp {
                    BaseChipsetType::EnlightenedLinuxDirect
                } else if opt.hv {
                    BaseChipsetType::HyperVGen2LinuxDirect
                } else {
                    BaseChipsetType::UnenlightenedLinuxDirect
                }
            },
        }
    } else if snp {
        BaseChipsetType::EnlightenedLinuxDirect
    } else if opt.pcat {
        BaseChipsetType::HypervGen1
    } else if opt.uefi {
        BaseChipsetType::HypervGen2Uefi
    } else if opt.hv {
        BaseChipsetType::HyperVGen2LinuxDirect
    } else {
        BaseChipsetType::UnenlightenedLinuxDirect
    }
}

} // verus!
