//! The PCIe root complexes of a launched machine.

use vstd::prelude::*;

use crate::config::{
    MemoryRange, PcieIommuConfig, PcieMmioRangeConfig, PciePortConfig, PcieRootComplexConfig,
    RootComplexCxlConfig, SmmuOas,
};
use crate::refusal::{refusal_of, refuse, refuse_naming, refuse_quoting, Refusal};
use crate::text::{push_text, same_text, string_views};

verus! {

/// PCI windows are multiples of this size.
pub const ONE_MB: u64 = 0x100000;

/// A root port as it is asked for.
#[derive(Debug)]
pub struct RootPortCli {
    pub root_complex_name: String,
    pub name: String,
    pub devfn: Option<u8>,
    pub hotplug: bool,
    pub acs_capabilities_supported: Option<u16>,
    pub cxl: bool,
    pub pasid: bool,
}

/// A root complex as it is asked for.
#[derive(Debug)]
pub struct RootComplexCli {
    pub name: String,
    pub segment: u16,
    pub start_bus: u8,
    pub end_bus: u8,
    pub low_mmio: u32,
    pub high_mmio: u64,
    pub low_mmio_base: Option<u64>,
    pub high_mmio_base: Option<u64>,
    pub hdm: u64,
    pub hdm_window_restrictions: u16,
    pub vnode: Option<u32>,
    pub preserve_bars: bool,
}

/// The IOMMU of a root complex of an Arm machine, as it is asked for.
#[derive(Debug)]
pub struct SmmuCli {
    pub rc_name: String,
    pub accel: bool,
    pub oas: SmmuOas,
}

/// The IOMMUs that are asked for, by the names of their root complexes.
#[derive(Debug)]
pub enum IommuCli {
    X86 { amd_iommu: Vec<String>, intel_vtd: Vec<String> },
    Aarch64 { smmu: Vec<SmmuCli> },
}

/// The next multiple of the size of a window.
pub open spec fn rounded(n: int) -> int {
    (n + ONE_MB - 1) / (ONE_MB as int) * ONE_MB
}

proof fn lemma_rounded(n: int)
    requires
        0 <= n,
    ensures
        n <= rounded(n) < n + ONE_MB,
        rounded(n) % (ONE_MB as int) == 0,
{
    assert(ONE_MB == 1048576);
    let q = (n + 1048575) / 1048576;
    assert(q * 1048576 <= n + 1048575 < q * 1048576 + 1048576);
    assert((q * 1048576) % 1048576 == 0) by (nonlinear_arith);
}

fn round_up(n: u64) -> (r: Option<u64>)
    ensures
        match r {
            Some(v) => v == rounded(n as int),
            None => rounded(n as int) > u64::MAX,
        },
{
    proof {
        lemma_rounded(n as int);
    }
    let wide: u128 = (n as u128 + ONE_MB as u128 - 1) / ONE_MB as u128 * ONE_MB as u128;
    assert(wide == rounded(n as int));
    if wide > u64::MAX as u128 {
        None
    } else {
        Some(wide as u64)
    }
}

/// A window of a size is valid where it is pinned.
pub open spec fn window_fits(base: Option<u64>, size: int) -> bool {
    base is Some ==> base->0 + size <= u64::MAX && (MemoryRange {
        start: base->0,
        end: (base->0 + size) as u64,
    }).wf()
}

/// The window of a size, pinned where its base is given.
pub open spec fn window(base: Option<u64>, size: int) -> PcieMmioRangeConfig {
    match base {
        Some(base) => PcieMmioRangeConfig::Fixed(
            MemoryRange { start: base, end: (base + size) as u64 },
        ),
        None => PcieMmioRangeConfig::Dynamic { size: size as u64 },
    }
}

fn make_window(base: Option<u64>, size: u64) -> (r: Option<PcieMmioRangeConfig>)
    ensures
        r is Some <==> window_fits(base, size as int),
        r is Some ==> r->0 == window(base, size as int),
{
    match base {
        None => Some(PcieMmioRangeConfig::Dynamic { size }),
        Some(base) => match base.checked_add(size) {
            None => None,
            Some(end) => match MemoryRange::try_new(base, end) {
                Some(range) => Some(PcieMmioRangeConfig::Fixed(range)),
                None => None,
            },
        },
    }
}

/// Why a root complex is refused, if it is.
pub open spec fn complex_refusal(rc: RootComplexCli) -> Option<Seq<char>> {
    if rounded(rc.high_mmio as int) > u64::MAX {
        Some("high mmio rounding error"@)
    } else if !window_fits(rc.low_mmio_base, rounded(rc.low_mmio as int)) {
        Some("invalid low MMIO range"@)
    } else if !window_fits(rc.high_mmio_base, rounded(rc.high_mmio as int)) {
        Some("invalid high MMIO range"@)
    } else {
        None
    }
}

/// The port is the one that is asked for.
pub open spec fn is_root_port(port: PciePortConfig, cli: RootPortCli) -> bool {
    &&& port.name@ == cli.name@
    &&& port.devfn == cli.devfn
    &&& port.hotplug == cli.hotplug
    &&& port.acs_capabilities_supported == cli.acs_capabilities_supported
    &&& port.cxl == cli.cxl
    &&& port.pasid == cli.pasid
}

/// The ports are those of a root complex among the first that are asked for, in
/// order.
pub open spec fn are_root_ports(
    ports: Seq<PciePortConfig>,
    list: Seq<RootPortCli>,
    name: Seq<char>,
    n: int,
) -> bool
    decreases n,
{
    if n <= 0 {
        ports.len() == 0
    } else if list[n - 1].root_complex_name@ == name {
        &&& ports.len() > 0
        &&& is_root_port(ports.last(), list[n - 1])
        &&& are_root_ports(ports.drop_last(), list, name, n - 1)
    } else {
        are_root_ports(ports, list, name, n - 1)
    }
}

fn root_ports(list: &Vec<RootPortCli>, name: &str) -> (r: (Vec<PciePortConfig>, bool))
    ensures
        are_root_ports(r.0@, list@, name@, list@.len() as int),
        r.1 == (exists|i: int| 0 <= i < r.0@.len() && (#[trigger] r.0@[i]).cxl),
{
    let mut ports: Vec<PciePortConfig> = Vec::new();
    let mut cxl = false;
    let mut i: usize = 0;
    while i < list.len()
        invariant
            i <= list@.len(),
            are_root_ports(ports@, list@, name@, i as int),
            cxl == (exists|k: int| 0 <= k < ports@.len() && (#[trigger] ports@[k]).cxl),
        decreases list@.len() - i,
    {
        let cli = &list[i];
        if same_text(cli.root_complex_name.as_str(), name) {
            let ghost before = ports@;
            let port = PciePortConfig {
                name: cli.name.as_str().to_owned(),
                devfn: cli.devfn,
                hotplug: cli.hotplug,
                acs_capabilities_supported: cli.acs_capabilities_supported,
                cxl: cli.cxl,
                pasid: cli.pasid,
            };
            ports.push(port);
            proof {
                assert(ports@.drop_last() =~= before);
                assert(ports@.last().cxl == cli.cxl);
                if cxl {
                    let k = choose|k: int| 0 <= k < before.len() && (#[trigger] before[k]).cxl;
                    assert(ports@[k].cxl);
                }
                if exists|k: int| 0 <= k < ports@.len() && (#[trigger] ports@[k]).cxl {
                    let k = choose|k: int| 0 <= k < ports@.len() && (#[trigger] ports@[k]).cxl;
                    if k < before.len() {
                        assert(before[k].cxl);
                    }
                }
            }
            cxl = cxl || cli.cxl;
        }
        i += 1;
    }
    (ports, cxl)
}

/// No earlier root complex has the same name.
pub open spec fn first_of_name(list: Seq<RootComplexCli>, i: int) -> bool {
    forall|k: int| 0 <= k < i ==> (#[trigger] list[k]).name@ != list[i].name@
}

/// Some root complex has this name.
pub open spec fn is_complex_name(list: Seq<RootComplexCli>, name: Seq<char>) -> bool {
    exists|k: int| 0 <= k < list.len() && (#[trigger] list[k]).name@ == name
}

/// The text is in the list.
pub open spec fn lists(list: Seq<String>, text: Seq<char>) -> bool {
    exists|k: int| 0 <= k < list.len() && (#[trigger] list[k])@ == text
}

/// The first request for the IOMMU of a root complex.
pub open spec fn smmu_for(smmu: Seq<SmmuCli>, name: Seq<char>, n: int) -> Option<PcieIommuConfig>
    decreases n,
{
    if n <= 0 {
        None
    } else if smmu_for(smmu, name, n - 1) is Some {
        smmu_for(smmu, name, n - 1)
    } else if smmu[n - 1].rc_name@ == name {
        Some(PcieIommuConfig::Smmu { accel: smmu[n - 1].accel, oas: smmu[n - 1].oas })
    } else {
        None
    }
}

/// The IOMMU of the root complex at a position. Where root complexes share a name,
/// the first has it.
pub open spec fn iommu_of(iommu: IommuCli, list: Seq<RootComplexCli>, i: int) -> Option<
    PcieIommuConfig,
> {
    let name = list[i].name@;
    if !first_of_name(list, i) {
        None
    } else {
        match iommu {
            IommuCli::X86 { amd_iommu, intel_vtd } => if lists(amd_iommu@, name) {
                Some(PcieIommuConfig::AmdVi)
            } else if lists(intel_vtd@, name) {
                Some(PcieIommuConfig::IntelVtd)
            } else {
                None
            },
            IommuCli::Aarch64 { smmu } => smmu_for(smmu@, name, smmu@.len() as int),
        }
    }
}

fn exec_lists(list: &Vec<String>, text: &str) -> (b: bool)
    ensures
        b == lists(list@, text@),
{
    let mut i: usize = 0;
    while i < list.len()
        invariant
            i <= list@.len(),
            forall|k: int| 0 <= k < i ==> (#[trigger] list@[k])@ != text@,
        decreases list@.len() - i,
    {
        if same_text(list[i].as_str(), text) {
            return true;
        }
        i += 1;
    }
    false
}

fn find_smmu(smmu: &Vec<SmmuCli>, name: &str) -> (r: Option<PcieIommuConfig>)
    ensures
        r == smmu_for(smmu@, name@, smmu@.len() as int),
{
    let mut found: Option<PcieIommuConfig> = None;
    let mut i: usize = 0;
    while i < smmu.len()
        invariant
            i <= smmu@.len(),
            found == smmu_for(smmu@, name@, i as int),
        decreases smmu@.len() - i,
    {
        if found.is_none() && same_text(smmu[i].rc_name.as_str(), name) {
            found = Some(PcieIommuConfig::Smmu { accel: smmu[i].accel, oas: smmu[i].oas });
        }
        i += 1;
    }
    found
}

fn is_first_of_name(list: &Vec<RootComplexCli>, at: usize) -> (b: bool)
    requires
        at < list@.len(),
    ensures
        b == first_of_name(list@, at as int),
{
    let mut i: usize = 0;
    while i < at
        invariant
            i <= at < list@.len(),
            forall|k: int| 0 <= k < i ==> (#[trigger] list@[k]).name@ != list@[at as int].name@,
        decreases at - i,
    {
        if same_text(list[i].name.as_str(), list[at].name.as_str()) {
            assert(list@[i as int].name@ == list@[at as int].name@);
            return false;
        }
        i += 1;
    }
    true
}

fn find_iommu(iommu: &IommuCli, list: &Vec<RootComplexCli>, at: usize) -> (r: Option<
    PcieIommuConfig,
>)
    requires
        at < list@.len(),
    ensures
        r == iommu_of(*iommu, list@, at as int),
{
    if !is_first_of_name(list, at) {
        return None;
    }
    let name = list[at].name.as_str();
    match iommu {
        IommuCli::X86 { amd_iommu, intel_vtd } => {
            if exec_lists(amd_iommu, name) {
                Some(PcieIommuConfig::AmdVi)
            } else if exec_lists(intel_vtd, name) {
                Some(PcieIommuConfig::IntelVtd)
            } else {
                None
            }
        },
        IommuCli::Aarch64 { smmu } => find_smmu(smmu, name),
    }
}

/// The root complex is the one that is asked for at a position.
pub open spec fn is_root_complex(
    built: PcieRootComplexConfig,
    list: Seq<RootComplexCli>,
    i: int,
    ports: Seq<RootPortCli>,
    iommu: IommuCli,
) -> bool {
    let rc = list[i];
    &&& built.index == i as u32
    &&& built.name@ == rc.name@
    &&& built.segment == rc.segment && built.start_bus == rc.start_bus && built.end_bus
        == rc.end_bus
    &&& built.low_mmio == window(rc.low_mmio_base, rounded(rc.low_mmio as int))
    &&& built.high_mmio == window(rc.high_mmio_base, rounded(rc.high_mmio as int))
    &&& are_root_ports(built.ports@, ports, rc.name@, ports.len() as int)
    &&& built.cxl == (if exists|k: int| 0 <= k < built.ports@.len() && (#[trigger] built.ports@[k]).cxl {
        Some(
            RootComplexCxlConfig {
                hdm_size: rc.hdm,
                hdm_window_restrictions: rc.hdm_window_restrictions,
            },
        )
    } else {
        None
    })
    &&& built.iommu == iommu_of(iommu, list, i)
    &&& built.vnode == rc.vnode
    &&& built.preserve_bars == rc.preserve_bars
}

fn build_complex(
    list: &Vec<RootComplexCli>,
    at: usize,
    ports: &Vec<RootPortCli>,
    iommu: &IommuCli,
) -> (r: Result<PcieRootComplexConfig, Refusal>)
    requires
        at < list@.len(),
    ensures
        refusal_of(r) == complex_refusal(list@[at as int]),
        r is Ok ==> is_root_complex(r->Ok_0, list@, at as int, ports@, *iommu),
{
    let rc = &list[at];
    proof {
        lemma_rounded(rc.low_mmio as int);
        lemma_rounded(rc.high_mmio as int);
    }
    let (own_ports, cxl_capable) = root_ports(ports, rc.name.as_str());
    let low_size: u64 = match round_up(rc.low_mmio as u64) {
        Some(size) => size,
        None => return Err(refuse("high mmio rounding error")),
    };
    let high_size: u64 = match round_up(rc.high_mmio) {
        Some(size) => size,
        None => return Err(refuse("high mmio rounding error")),
    };
    let low_mmio = match make_window(rc.low_mmio_base, low_size) {
        Some(range) => range,
        None => return Err(refuse("invalid low MMIO range")),
    };
    let high_mmio = match make_window(rc.high_mmio_base, high_size) {
        Some(range) => range,
        None => return Err(refuse("invalid high MMIO range")),
    };
    // A root bus with CXL root ports needs the registers of a CXL host bridge.
    let cxl: Option<RootComplexCxlConfig> = if cxl_capable {
        Some(
            RootComplexCxlConfig {
                hdm_size: rc.hdm,
                hdm_window_restrictions: rc.hdm_window_restrictions,
            },
        )
    } else {
        None
    };
    Ok(
        PcieRootComplexConfig {
            index: at as u32,
            name: rc.name.as_str().to_owned(),
            segment: rc.segment,
            start_bus: rc.start_bus,
            end_bus: rc.end_bus,
            low_mmio,
            high_mmio,
            ports: own_ports,
            cxl,
            iommu: find_iommu(iommu, list, at),
            vnode: rc.vnode,
            preserve_bars: rc.preserve_bars,
        },
    )
}

/// The first refusal among the root complexes from a position on.
pub open spec fn complexes_refusal(list: Seq<RootComplexCli>, from: int) -> Option<Seq<char>>
    decreases list.len() - from,
{
    if from < 0 || from >= list.len() {
        None
    } else if complex_refusal(list[from]) is Some {
        complex_refusal(list[from])
    } else {
        complexes_refusal(list, from + 1)
    }
}

/// The first name from a position on that no root complex has.
pub open spec fn unknown_name(
    names: Seq<Seq<char>>,
    list: Seq<RootComplexCli>,
    from: int,
) -> Option<Seq<char>>
    decreases names.len() - from,
{
    if from < 0 || from >= names.len() {
        None
    } else if !is_complex_name(list, names[from]) {
        Some(names[from])
    } else {
        unknown_name(names, list, from + 1)
    }
}

/// The names of the root complexes of some IOMMUs.
pub open spec fn smmu_names(smmu: Seq<SmmuCli>) -> Seq<Seq<char>> {
    smmu.map_values(|s: SmmuCli| s.rc_name@)
}

/// The first request from a position on for a root complex that was named before.
pub open spec fn repeated_name(names: Seq<Seq<char>>, from: int) -> Option<Seq<char>>
    decreases names.len() - from,
{
    if from < 0 || from >= names.len() {
        None
    } else if exists|k: int| 0 <= k < from && #[trigger] names[k] == names[from] {
        Some(names[from])
    } else {
        repeated_name(names, from + 1)
    }
}

/// Why the requested IOMMUs contradict each other, if they do.
pub open spec fn iommu_conflict(iommu: IommuCli) -> Option<Seq<char>> {
    match iommu {
        IommuCli::X86 { amd_iommu, intel_vtd } => if amd_iommu@.len() != 0 && intel_vtd@.len()
            != 0 {
            Some("--amd-iommu and --intel-vtd cannot both be used in the same VM"@)
        } else {
            None
        },
        IommuCli::Aarch64 { smmu } => match repeated_name(smmu_names(smmu@), 0) {
            Some(name) => Some(
                "--smmu specified multiple times for root complex '"@ + name + "'"@,
            ),
            None => None,
        },
    }
}

/// Why a requested IOMMU has no root complex, if it has none.
pub open spec fn iommu_unknown(iommu: IommuCli, list: Seq<RootComplexCli>) -> Option<Seq<char>> {
    match iommu {
        IommuCli::X86 { amd_iommu, intel_vtd } => match (
            unknown_name(string_views(amd_iommu@), list, 0),
            unknown_name(string_views(intel_vtd@), list, 0),
        ) {
            (Some(name), _) => Some(
                "--amd-iommu refers to unknown root complex '"@ + name + "'"@,
            ),
            (None, Some(name)) => Some(
                "--intel-vtd refers to unknown root complex '"@ + name + "'"@,
            ),
            (None, None) => None,
        },
        IommuCli::Aarch64 { smmu } => match unknown_name(smmu_names(smmu@), list, 0) {
            Some(name) => Some("--smmu refers to unknown root complex '"@ + name + "'"@),
            None => None,
        },
    }
}

/// Why the root complexes of a machine are refused, if they are.
pub open spec fn root_complexes_refusal(list: Seq<RootComplexCli>, iommu: IommuCli) -> Option<
    Seq<char>,
> {
    if iommu_conflict(iommu) is Some {
        iommu_conflict(iommu)
    } else if complexes_refusal(list, 0) is Some {
        complexes_refusal(list, 0)
    } else {
        iommu_unknown(iommu, list)
    }
}

fn complex_named(list: &Vec<RootComplexCli>, name: &str) -> (b: bool)
    ensures
        b == is_complex_name(list@, name@),
{
    let mut i: usize = 0;
    while i < list.len()
        invariant
            i <= list@.len(),
            forall|k: int| 0 <= k < i ==> (#[trigger] list@[k]).name@ != name@,
        decreases list@.len() - i,
    {
        if same_text(list[i].name.as_str(), name) {
            return true;
        }
        i += 1;
    }
    false
}

fn find_unknown<'a>(names: &'a Vec<String>, list: &Vec<RootComplexCli>) -> (r: Option<&'a String>)
    ensures
        match r {
            Some(name) => unknown_name(string_views(names@), list@, 0) == Some(name@),
            None => unknown_name(string_views(names@), list@, 0) is None,
        },
{
    let mut i: usize = 0;
    while i < names.len()
        invariant
            i <= names@.len(),
            unknown_name(string_views(names@), list@, 0) == unknown_name(
                string_views(names@),
                list@,
                i as int,
            ),
        decreases names@.len() - i,
    {
        assert(string_views(names@)[i as int] == names@[i as int]@);
        if !complex_named(list, names[i].as_str()) {
            return Some(&names[i]);
        }
        i += 1;
    }
    None
}

fn find_unknown_smmu<'a>(smmu: &'a Vec<SmmuCli>, list: &Vec<RootComplexCli>) -> (r: Option<
    &'a String,
>)
    ensures
        match r {
            Some(name) => unknown_name(smmu_names(smmu@), list@, 0) == Some(name@),
            None => unknown_name(smmu_names(smmu@), list@, 0) is None,
        },
{
    let mut i: usize = 0;
    while i < smmu.len()
        invariant
            i <= smmu@.len(),
            unknown_name(smmu_names(smmu@), list@, 0) == unknown_name(
                smmu_names(smmu@),
                list@,
                i as int,
            ),
        decreases smmu@.len() - i,
    {
        assert(smmu_names(smmu@)[i as int] == smmu@[i as int].rc_name@);
        if !complex_named(list, smmu[i].rc_name.as_str()) {
            return Some(&smmu[i].rc_name);
        }
        i += 1;
    }
    None
}

fn named_earlier(smmu: &Vec<SmmuCli>, at: usize) -> (b: bool)
    requires
        at < smmu@.len(),
    ensures
        b == (exists|k: int|
            0 <= k < at && #[trigger] smmu_names(smmu@)[k] == smmu_names(smmu@)[at as int]),
{
    let ghost names = smmu_names(smmu@);
    let mut i: usize = 0;
    while i < at
        invariant
            i <= at < smmu@.len(),
            names == smmu_names(smmu@),
            forall|k: int| 0 <= k < i ==> #[trigger] names[k] != names[at as int],
        decreases at - i,
    {
        assert(names[i as int] == smmu@[i as int].rc_name@);
        assert(names[at as int] == smmu@[at as int].rc_name@);
        if same_text(smmu[i].rc_name.as_str(), smmu[at].rc_name.as_str()) {
            return true;
        }
        i += 1;
    }
    false
}

fn check_iommu(iommu: &IommuCli) -> (r: Result<(), Refusal>)
    ensures
        refusal_of(r) == iommu_conflict(*iommu),
{
    match iommu {
        IommuCli::X86 { amd_iommu, intel_vtd } => {
            if amd_iommu.len() != 0 && intel_vtd.len() != 0 {
                return Err(
                    refuse("--amd-iommu and --intel-vtd cannot both be used in the same VM"),
                );
            }
            Ok(())
        },
        IommuCli::Aarch64 { smmu } => {
            let ghost names = smmu_names(smmu@);
            let mut i: usize = 0;
            while i < smmu.len()
                invariant
                    i <= smmu@.len(),
                    names == smmu_names(smmu@),
                    *iommu == (IommuCli::Aarch64 { smmu: *smmu }),
                    repeated_name(names, 0) == repeated_name(names, i as int),
                decreases smmu@.len() - i,
            {
                assert(names[i as int] == smmu@[i as int].rc_name@);
                if named_earlier(smmu, i) {
                    return Err(
                        refuse_quoting(
                            "--smmu specified multiple times for root complex '",
                            smmu[i].rc_name.as_str(),
                            "'",
                        ),
                    );
                }
                i += 1;
            }
            Ok(())
        },
    }
}

fn check_unknown(iommu: &IommuCli, list: &Vec<RootComplexCli>) -> (r: Result<(), Refusal>)
    ensures
        refusal_of(r) == iommu_unknown(*iommu, list@),
{
    match iommu {
        IommuCli::X86 { amd_iommu, intel_vtd } => {
            if let Some(name) = find_unknown(amd_iommu, list) {
                return Err(
                    refuse_quoting(
                        "--amd-iommu refers to unknown root complex '",
                        name.as_str(),
                        "'",
                    ),
                );
            }
            if let Some(name) = find_unknown(intel_vtd, list) {
                return Err(
                    refuse_quoting(
                        "--intel-vtd refers to unknown root complex '",
                        name.as_str(),
                        "'",
                    ),
                );
            }
            Ok(())
        },
        IommuCli::Aarch64 { smmu } => {
            if let Some(name) = find_unknown_smmu(smmu, list) {
                return Err(
                    refuse_quoting("--smmu refers to unknown root complex '", name.as_str(), "'"),
                );
            }
            Ok(())
        },
    }
}

/// Builds the root complexes of a machine, each with its ports and its IOMMU.
pub fn build_root_complexes(
    list: &Vec<RootComplexCli>,
    ports: &Vec<RootPortCli>,
    iommu: &IommuCli,
) -> (r: Result<Vec<PcieRootComplexConfig>, Refusal>)
    ensures
        refusal_of(r) == root_complexes_refusal(list@, *iommu),
        r is Ok ==> r->Ok_0@.len() == list@.len() && forall|i: int|
            0 <= i < list@.len() ==> is_root_complex(
                #[trigger] r->Ok_0@[i],
                list@,
                i,
                ports@,
                *iommu,
            ),
{
    match check_iommu(iommu) {
        Ok(()) => {},
        Err(e) => return Err(e),
    }
    let mut out: Vec<PcieRootComplexConfig> = Vec::new();
    let mut i: usize = 0;
    while i < list.len()
        invariant
            i <= list@.len(),
            out@.len() == i,
            iommu_conflict(*iommu) is None,
            complexes_refusal(list@, 0) == complexes_refusal(list@, i as int),
            forall|k: int|
                0 <= k < i ==> is_root_complex(#[trigger] out@[k], list@, k, ports@, *iommu),
        decreases list@.len() - i,
    {
        match build_complex(list, i, ports, iommu) {
            Ok(built) => {
                out.push(built);
            },
            Err(e) => return Err(e),
        }
        i += 1;
    }
    match check_unknown(iommu, list) {
        Ok(()) => {},
        Err(e) => return Err(e),
    }
    Ok(out)
}

fn listed_earlier(ids: &Vec<String>, at: usize) -> (b: bool)
    requires
        at < ids@.len(),
    ensures
        b == (exists|k: int|
            0 <= k < at && #[trigger] string_views(ids@)[k] == string_views(ids@)[at as int]),
{
    let ghost names = string_views(ids@);
    let mut i: usize = 0;
    while i < at
        invariant
            i <= at < ids@.len(),
            names == string_views(ids@),
            forall|k: int| 0 <= k < i ==> #[trigger] names[k] != names[at as int],
        decreases at - i,
    {
        assert(names[i as int] == ids@[i as int]@);
        assert(names[at as int] == ids@[at as int]@);
        if same_text(ids[i].as_str(), ids[at].as_str()) {
            return true;
        }
        i += 1;
    }
    false
}

/// Checks that no context for assigned devices is declared twice.
pub fn check_iommu_contexts(ids: &Vec<String>) -> (r: Result<(), Refusal>)
    ensures
        refusal_of(r) == (match repeated_name(string_views(ids@), 0) {
            Some(id) => Some("duplicate --iommu id="@ + id),
            None => None,
        }),
{
    let ghost names = string_views(ids@);
    let mut i: usize = 0;
    while i < ids.len()
        invariant
            i <= ids@.len(),
            names == string_views(ids@),
            repeated_name(names, 0) == repeated_name(names, i as int),
        decreases ids@.len() - i,
    {
        assert(names[i as int] == ids@[i as int]@);
        if listed_earlier(ids, i) {
            return Err(refuse_naming("duplicate --iommu id=", ids[i].as_str()));
        }
        i += 1;
    }
    Ok(())
}

/// Checks that the context an assigned device refers to is declared.
pub fn check_vfio_context(pci_id: &str, iommu: &str, ids: &Vec<String>) -> (r: Result<(), Refusal>)
    ensures
        refusal_of(r) == (if lists(ids@, iommu@) {
            None
        } else {
            Some(
                "--vfio device "@ + pci_id@ + " references iommu="@ + iommu@
                    + ", but no --iommu id="@ + iommu@ + " was specified"@,
            )
        }),
{
    if exec_lists(ids, iommu) {
        return Ok(());
    }
    let mut message = "--vfio device ".to_owned();
    push_text(&mut message, pci_id);
    push_text(&mut message, " references iommu=");
    push_text(&mut message, iommu);
    push_text(&mut message, ", but no --iommu id=");
    push_text(&mut message, iommu);
    push_text(&mut message, " was specified");
    Err(Refusal { message })
}

/// The windows of every accepted root complex are whole megabytes, and no smaller
/// than asked for.
pub proof fn law_windows_are_whole(rc: RootComplexCli)
    requires
        complex_refusal(rc) is None,
    ensures
        rounded(rc.low_mmio as int) % (ONE_MB as int) == 0,
        rounded(rc.low_mmio as int) >= rc.low_mmio,
        rounded(rc.high_mmio as int) % (ONE_MB as int) == 0,
        rc.high_mmio <= rounded(rc.high_mmio as int) <= u64::MAX,
{
    lemma_rounded(rc.low_mmio as int);
    lemma_rounded(rc.high_mmio as int);
}

} // verus!
