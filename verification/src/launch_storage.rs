//! The disks of a launched machine.

use vstd::prelude::*;

use crate::config::DeviceVtl;
use crate::numeral::{decimal, push_decimal};
use crate::refusal::{refusal_of, refuse, refuse_quoting, Refusal};
use crate::text::{push_text, same_text, string_views};

verus! {

/// The most processors that a machine can have.
pub const MAX_PROCESSOR_COUNT: u32 = 1024;

/// The most additional channels that a SCSI controller can have: one channel for
/// each processor in all.
pub const MAX_SCSI_SUB_CHANNELS: u16 = 1023;

/// Checks the number of processors.
pub fn check_processor_count(processors: u32) -> (r: Result<(), Refusal>)
    ensures
        refusal_of(r) == (if 1 <= processors <= MAX_PROCESSOR_COUNT {
            None
        } else {
            Some("invalid proc count: "@ + decimal(processors as nat))
        }),
{
    if processors == 0 || processors > MAX_PROCESSOR_COUNT {
        let mut message = "invalid proc count: ".to_owned();
        push_decimal(&mut message, processors as u128);
        return Err(Refusal { message });
    }
    Ok(())
}

/// Checks the number of additional SCSI channels.
pub fn check_scsi_sub_channels(requested: u16) -> (r: Result<(), Refusal>)
    ensures
        refusal_of(r) == (if requested <= MAX_SCSI_SUB_CHANNELS {
            None
        } else {
            Some(
                "invalid SCSI sub-channel count: requested "@ + decimal(requested as nat)
                    + ", max "@ + decimal(MAX_SCSI_SUB_CHANNELS as nat),
            )
        }),
{
    if requested > MAX_SCSI_SUB_CHANNELS {
        let mut message = "invalid SCSI sub-channel count: requested ".to_owned();
        push_decimal(&mut message, requested as u128);
        push_text(&mut message, ", max ");
        push_decimal(&mut message, MAX_SCSI_SUB_CHANNELS as u128);
        return Err(Refusal { message });
    }
    Ok(())
}

/// Where a disk is attached.
#[derive(Debug)]
pub enum DiskLocation {
    /// To a controller with a name.
    Named { controller: String, nsid: Option<u32>, lun: Option<u8> },
    /// To the default SCSI controller.
    DefaultScsi,
    /// To the default NVMe controller.
    DefaultNvme,
}

/// Where a disk is asked to be attached.
#[derive(Debug)]
pub struct DiskPlacement {
    pub controller: Option<String>,
    /// Whether a PCIe port is named.
    pub pcie_port: bool,
    pub nsid: Option<u32>,
    pub lun: Option<u8>,
}

/// Why a disk cannot be attached as it is asked, if it cannot.
pub open spec fn placement_refusal(disk: DiskPlacement, no_vmbus: bool) -> Option<Seq<char>> {
    if disk.controller is Some && disk.pcie_port {
        Some("`on` is incompatible with `pcie_port` on `--disk`"@)
    } else if disk.controller is Some {
        None
    } else if disk.pcie_port {
        Some("`--disk` is incompatible with `pcie_port` without `controller`"@)
    } else if no_vmbus {
        Some(
            "`--disk` without `on=` attaches to the default VMBus SCSI controller and cannot be used with `--no-vmbus`; use `on=<name>` to attach to a named controller"@,
        )
    } else {
        None
    }
}

/// Decides where a disk is attached.
pub fn disk_location(disk: DiskPlacement, no_vmbus: bool) -> (r: Result<DiskLocation, Refusal>)
    ensures
        refusal_of(r) == placement_refusal(disk, no_vmbus),
        r is Ok ==> r->Ok_0 == (match disk.controller {
            Some(controller) => DiskLocation::Named {
                controller,
                nsid: disk.nsid,
                lun: disk.lun,
            },
            None => DiskLocation::DefaultScsi,
        }),
{
    match disk.controller {
        Some(controller) => {
            if disk.pcie_port {
                return Err(refuse("`on` is incompatible with `pcie_port` on `--disk`"));
            }
            Ok(DiskLocation::Named { controller, nsid: disk.nsid, lun: disk.lun })
        },
        None => {
            if disk.pcie_port {
                return Err(
                    refuse("`--disk` is incompatible with `pcie_port` without `controller`"),
                );
            }
            if no_vmbus {
                return Err(
                    refuse(
                        "`--disk` without `on=` attaches to the default VMBus SCSI controller and cannot be used with `--no-vmbus`; use `on=<name>` to attach to a named controller",
                    ),
                );
            }
            Ok(DiskLocation::DefaultScsi)
        },
    }
}

/// What else is asked of the disk of a sandbox block.
#[derive(Clone, Copy, Debug, PartialEq, Eq, Structural)]
pub struct SandboxBlockOptions {
    pub vtl: DeviceVtl,
    pub is_dvd: bool,
    pub underhill: bool,
    pub pcie_port: bool,
    pub controller: bool,
    pub nsid: bool,
    pub lun: bool,
    pub relay: bool,
}

/// Checks that the disk of a sandbox block is a plain one.
pub fn check_sandbox_block(block: &SandboxBlockOptions) -> (r: Result<(), Refusal>)
    ensures
        refusal_of(r) == (if block.vtl == DeviceVtl::Vtl0 && !block.is_dvd && !block.underhill
            && !block.pcie_port && !block.controller && !block.nsid && !block.lun
            && !block.relay {
            None
        } else {
            Some("--microvm-sandbox-block accepts only a plain VTL0 disk backend"@)
        }),
{
    if block.vtl == DeviceVtl::Vtl0 && !block.is_dvd && !block.underhill && !block.pcie_port
        && !block.controller && !block.nsid && !block.lun && !block.relay {
        Ok(())
    } else {
        Err(refuse("--microvm-sandbox-block accepts only a plain VTL0 disk backend"))
    }
}

/// Some disk before a position names this port.
pub open spec fn named_before(ports: Seq<Option<String>>, port: Seq<char>, n: int) -> bool {
    exists|k: int| 0 <= k < n && (#[trigger] ports[k]) is Some && ports[k]->0@ == port
}

/// The ports of the first disks, each where it is first named.
pub open spec fn first_named(ports: Seq<Option<String>>, n: int) -> Seq<Seq<char>>
    decreases n,
{
    if n <= 0 {
        Seq::empty()
    } else if ports[n - 1] is Some && !named_before(ports, ports[n - 1]->0@, n - 1) {
        first_named(ports, n - 1).push(ports[n - 1]->0@)
    } else {
        first_named(ports, n - 1)
    }
}

proof fn lemma_first_named(ports: Seq<Option<String>>, n: int, port: Seq<char>)
    requires
        0 <= n <= ports.len(),
    ensures
        first_named(ports, n).contains(port) <==> named_before(ports, port, n),
    decreases n,
{
    if n > 0 {
        lemma_first_named(ports, n - 1, port);
        let before = first_named(ports, n - 1);
        let last = ports[n - 1];
        if last is Some && !named_before(ports, last->0@, n - 1) {
            let all = before.push(last->0@);
            if before.contains(port) {
                let i = choose|i: int| 0 <= i < before.len() && before[i] == port;
                assert(all[i] == port);
            }
            if last->0@ == port {
                assert(all[all.len() - 1] == port);
                assert(ports[n - 1]->0@ == port);
            }
            if all.contains(port) && last->0@ != port {
                let i = choose|i: int| 0 <= i < all.len() && all[i] == port;
                assert(before[i] == port);
            }
        } else if last is Some && last->0@ == port {
            assert(named_before(ports, port, n - 1));
        }
        if named_before(ports, port, n - 1) {
            let k = choose|k: int|
                0 <= k < n - 1 && (#[trigger] ports[k]) is Some && ports[k]->0@ == port;
            assert(0 <= k < n && ports[k] is Some && ports[k]->0@ == port);
        }
        if named_before(ports, port, n) && !named_before(ports, port, n - 1) {
            let k = choose|k: int|
                0 <= k < n && (#[trigger] ports[k]) is Some && ports[k]->0@ == port;
            assert(k == n - 1);
        }
    }
}

fn list_contains(list: &Vec<String>, text: &str) -> (b: bool)
    ensures
        b == string_views(list@).contains(text@),
{
    let mut i: usize = 0;
    while i < list.len()
        invariant
            i <= list@.len(),
            forall|k: int| 0 <= k < i ==> (#[trigger] list@[k])@ != text@,
        decreases list@.len() - i,
    {
        if same_text(list[i].as_str(), text) {
            assert(string_views(list@)[i as int] == text@);
            return true;
        }
        i += 1;
    }
    proof {
        if string_views(list@).contains(text@) {
            let k = choose|k: int| 0 <= k < string_views(list@).len() && string_views(list@)[k] == text@;
            assert(list@[k]@ == text@);
        }
    }
    false
}

/// The controllers that legacy NVMe disks imply: one for each PCIe port, in the
/// order in which the ports are first named.
pub fn implied_controllers(ports: &Vec<Option<String>>) -> (r: Vec<String>)
    ensures
        string_views(r@) == first_named(ports@, ports@.len() as int),
{
    let mut out: Vec<String> = Vec::new();
    let mut i: usize = 0;
    assert(string_views(out@) =~= Seq::empty());
    while i < ports.len()
        invariant
            i <= ports@.len(),
            string_views(out@) == first_named(ports@, i as int),
        decreases ports@.len() - i,
    {
        match &ports[i] {
            Some(port) => {
                proof {
                    lemma_first_named(ports@, i as int, port@);
                }
                if !list_contains(&out, port.as_str()) {
                    let ghost before = out@;
                    out.push(port.as_str().to_owned());
                    assert(string_views(out@) =~= string_views(before).push(port@));
                }
            },
            None => {},
        }
        i += 1;
    }
    out
}

/// Each implied controller is a port that some disk names, and no two are the
/// same.
pub proof fn law_implied_controllers_are_distinct(ports: Seq<Option<String>>, n: int)
    requires
        0 <= n <= ports.len(),
    ensures
        first_named(ports, n).no_duplicates(),
        forall|port: Seq<char>|
            first_named(ports, n).contains(port) <==> named_before(ports, port, n),
    decreases n,
{
    assert forall|port: Seq<char>|
        first_named(ports, n).contains(port) <==> named_before(ports, port, n) by {
        lemma_first_named(ports, n, port);
    }
    if n > 0 {
        law_implied_controllers_are_distinct(ports, n - 1);
        let before = first_named(ports, n - 1);
        let all = first_named(ports, n);
        if all.len() > before.len() {
            lemma_first_named(ports, n - 1, ports[n - 1]->0@);
            assert(!before.contains(all.last()));
            assert forall|i: int, j: int|
                0 <= i < all.len() && 0 <= j < all.len() && i != j implies all[i] != all[j] by {
                if i < before.len() {
                    assert(before.contains(before[i]));
                }
                if j < before.len() {
                    assert(before.contains(before[j]));
                }
            }
        }
    }
}

/// Where a legacy NVMe disk is attached.
pub fn nvme_location(pcie_port: Option<String>) -> (r: DiskLocation)
    ensures
        r == (match pcie_port {
            Some(port) => DiskLocation::Named { controller: port, nsid: None, lun: None },
            None => DiskLocation::DefaultNvme,
        }),
{
    match pcie_port {
        Some(port) => DiskLocation::Named { controller: port, nsid: None, lun: None },
        None => DiskLocation::DefaultNvme,
    }
}

/// Checks a virtio block disk.
pub fn check_virtio_blk(underhill: bool) -> (r: Result<(), Refusal>)
    ensures
        refusal_of(r) == (if underhill {
            Some("underhill not supported with virtio-blk"@)
        } else {
            None
        }),
{
    if underhill {
        return Err(refuse("underhill not supported with virtio-blk"));
    }
    Ok(())
}

/// The format of a disk in a remote blob.
#[derive(Clone, Copy, Debug, PartialEq, Eq, Structural)]
pub enum BlobKind {
    Flat,
    Vhd1,
}

/// A disk as it is described. Whether a database is there was found out by the
/// caller.
#[derive(Debug)]
pub enum DiskKind {
    Memory(u64),
    File { path: String, create_with_len: Option<u64>, direct: bool },
    Blob { format: BlobKind, url: String },
    MemoryDiff(Box<DiskKind>),
    PersistentReservations(Box<DiskKind>),
    Delay { delay_ms: u64, inner: Box<DiskKind> },
    Crypt { key_file: String, inner: Box<DiskKind> },
    Sqlite { path: String, create_with_len: Option<u64>, exists: bool },
    SqliteDiff { path: String, create: bool, exists: bool, inner: Box<DiskKind> },
    AutoCacheSqlite { cache_path: String, key: Option<String>, inner: Box<DiskKind> },
}

/// A disk that is about to be opened.
#[derive(Debug)]
pub enum DiskPlan {
    CreateFile { path: String, len: u64, direct: bool },
    OpenFile { path: String, read_only: bool, direct: bool },
    Blob { format: BlobKind, url: String },
    WithReservations(Box<DiskPlan>),
    Delayed { delay_ms: u64, disk: Box<DiskPlan> },
    Crypt { key_file: String, disk: Box<DiskPlan> },
    /// A stack of layers, the first on top.
    Layered(Vec<LayerPlan>),
}

/// A layer of a disk.
#[derive(Debug)]
pub enum LayerPlan {
    /// Memory, of a size of its own or of the size of what is below.
    Ram { len: Option<u64> },
    /// A database, to be formatted where that is asked for: with a size of its
    /// own or with the size of what is below.
    Sqlite { path: String, format: Option<Option<u64>> },
    /// A cache of what is read from below.
    ReadCache { cache_path: String, key: Option<String> },
    /// A disk.
    Disk(DiskPlan),
}

/// Why a database cannot be used, if it cannot.
pub open spec fn database_refusal(path: Seq<char>, create: bool, exists: bool) -> Option<
    Seq<char>,
> {
    if create && exists {
        Some("cannot create new sqlite disk at "@ + path + " - file already exists"@)
    } else if !create && !exists {
        Some("cannot open sqlite disk at "@ + path + " - file not found"@)
    } else {
        None
    }
}

fn check_database(path: &str, create: bool, exists: bool) -> (r: Result<(), Refusal>)
    ensures
        refusal_of(r) == database_refusal(path@, create, exists),
{
    if create && exists {
        return Err(
            refuse_quoting("cannot create new sqlite disk at ", path, " - file already exists"),
        );
    }
    if !create && !exists {
        return Err(refuse_quoting("cannot open sqlite disk at ", path, " - file not found"));
    }
    Ok(())
}

/// Why a disk is refused, if it is.
pub open spec fn disk_refusal(kind: DiskKind) -> Option<Seq<char>>
    decreases kind,
{
    match kind {
        DiskKind::Memory(_) => None,
        DiskKind::File { .. } => None,
        DiskKind::Blob { .. } => None,
        DiskKind::MemoryDiff(inner) => disk_refusal(*inner),
        DiskKind::PersistentReservations(inner) => disk_refusal(*inner),
        DiskKind::Delay { inner, .. } => disk_refusal(*inner),
        DiskKind::Crypt { inner, .. } => disk_refusal(*inner),
        DiskKind::Sqlite { path, create_with_len, exists } => database_refusal(
            path@,
            create_with_len is Some,
            exists,
        ),
        DiskKind::SqliteDiff { path, create, exists, inner } => if database_refusal(
            path@,
            create,
            exists,
        ) is Some {
            database_refusal(path@, create, exists)
        } else {
            disk_refusal(*inner)
        },
        DiskKind::AutoCacheSqlite { inner, .. } => disk_refusal(*inner),
    }
}

/// The layers are the ones that a disk is made of. What lies below a layer that
/// takes the writes is only read.
pub open spec fn are_layers(layers: Seq<LayerPlan>, kind: DiskKind, read_only: bool) -> bool
    decreases kind, 0int,
{
    match kind {
        DiskKind::Memory(len) => layers == seq![LayerPlan::Ram { len: Some(len) }],
        DiskKind::File { path, create_with_len, direct } => layers == seq![
            LayerPlan::Disk(
                match create_with_len {
                    Some(len) => DiskPlan::CreateFile { path, len, direct },
                    None => DiskPlan::OpenFile { path, read_only, direct },
                },
            ),
        ],
        DiskKind::Blob { format, url } => layers == seq![
            LayerPlan::Disk(DiskPlan::Blob { format, url }),
        ],
        DiskKind::MemoryDiff(inner) => {
            &&& layers.len() > 0 && layers[0] == LayerPlan::Ram { len: None }
            &&& are_layers(layers.skip(1), *inner, true)
        },
        DiskKind::PersistentReservations(inner) => {
            &&& layers.len() == 1
            &&& layers[0] matches LayerPlan::Disk(DiskPlan::WithReservations(disk)) && is_disk(
                *disk,
                *inner,
                read_only,
            )
        },
        DiskKind::Delay { delay_ms, inner } => {
            &&& layers.len() == 1
            &&& layers[0] matches LayerPlan::Disk(DiskPlan::Delayed { delay_ms: d, disk }) && d
                == delay_ms && is_disk(*disk, *inner, read_only)
        },
        DiskKind::Crypt { key_file, inner } => {
            &&& layers.len() == 1
            &&& layers[0] matches LayerPlan::Disk(DiskPlan::Crypt { key_file: k, disk }) && k
                == key_file && is_disk(*disk, *inner, read_only)
        },
        DiskKind::Sqlite { path, create_with_len, .. } => layers == seq![
            LayerPlan::Sqlite {
                path,
                format: if create_with_len is Some {
                    Some(create_with_len)
                } else {
                    None
                },
            },
        ],
        DiskKind::SqliteDiff { path, create, inner, .. } => {
            &&& layers.len() > 0 && layers[0] == LayerPlan::Sqlite {
                path,
                format: if create {
                    Some(None)
                } else {
                    None
                },
            }
            &&& are_layers(layers.skip(1), *inner, true)
        },
        DiskKind::AutoCacheSqlite { cache_path, key, inner } => {
            &&& layers.len() > 0 && layers[0] == LayerPlan::ReadCache { cache_path, key }
            &&& are_layers(layers.skip(1), *inner, read_only)
        },
    }
}

/// The disk is the one that is described: a single disk where one is all there
/// is, and a stack of layers otherwise.
pub open spec fn is_disk(plan: DiskPlan, kind: DiskKind, read_only: bool) -> bool
    decreases kind, 1int,
{
    match plan {
        DiskPlan::Layered(layers) => {
            &&& are_layers(layers@, kind, read_only)
            &&& !(layers@.len() == 1 && layers@[0] is Disk)
        },
        plan => are_layers(seq![LayerPlan::Disk(plan)], kind, read_only),
    }
}

/// No single layer of a described disk is itself a stack.
proof fn lemma_single_disk(layers: Seq<LayerPlan>, kind: DiskKind, read_only: bool)
    requires
        are_layers(layers, kind, read_only),
        layers.len() == 1,
        layers[0] is Disk,
    ensures
        !(layers[0]->Disk_0 is Layered),
    decreases kind,
{
    match kind {
        DiskKind::MemoryDiff(_) => {},
        DiskKind::SqliteDiff { .. } => {},
        DiskKind::AutoCacheSqlite { .. } => {},
        _ => {},
    }
}

/// Decides how a disk is opened.
pub fn disk_open(kind: DiskKind, read_only: bool) -> (r: Result<DiskPlan, Refusal>)
    ensures
        refusal_of(r) == disk_refusal(kind),
        r is Ok ==> is_disk(r->Ok_0, kind, read_only),
    decreases kind, 1int,
{
    let mut layers: Vec<LayerPlan> = Vec::new();
    match disk_open_inner(kind, read_only, &mut layers) {
        Ok(()) => {},
        Err(e) => return Err(e),
    }
    assert(layers@.skip(0) =~= layers@);
    if layers.len() == 1 {
        let single = match &layers[0] {
            LayerPlan::Disk(_) => true,
            _ => false,
        };
        if single {
            let ghost all = layers@;
            proof {
                lemma_single_disk(all, kind, read_only);
            }
            match layers.pop() {
                Some(LayerPlan::Disk(disk)) => {
                    assert(all =~= seq![LayerPlan::Disk(disk)]);
                    return Ok(disk);
                },
                _ => {},
            }
        }
    }
    Ok(DiskPlan::Layered(layers))
}

fn disk_open_inner(kind: DiskKind, read_only: bool, layers: &mut Vec<LayerPlan>) -> (r: Result<
    (),
    Refusal,
>)
    ensures
        refusal_of(r) == disk_refusal(kind),
        r is Ok ==> {
            &&& final(layers)@.len() >= old(layers)@.len()
            &&& final(layers)@.take(old(layers)@.len() as int) == old(layers)@
            &&& are_layers(final(layers)@.skip(old(layers)@.len() as int), kind, read_only)
        },
    decreases kind, 0int,
{
    let ghost before = layers@;
    match kind {
        DiskKind::Memory(len) => {
            layers.push(LayerPlan::Ram { len: Some(len) });
        },
        DiskKind::File { path, create_with_len, direct } => {
            let disk = match create_with_len {
                Some(len) => DiskPlan::CreateFile { path, len, direct },
                None => DiskPlan::OpenFile { path, read_only, direct },
            };
            layers.push(LayerPlan::Disk(disk));
        },
        DiskKind::Blob { format, url } => {
            layers.push(LayerPlan::Disk(DiskPlan::Blob { format, url }));
        },
        DiskKind::MemoryDiff(inner) => {
            layers.push(LayerPlan::Ram { len: None });
            let ghost pushed = layers@;
            assert(pushed.take(before.len() as int) =~= before);
            match disk_open_inner(*inner, true, layers) {
                Ok(()) => {
                    proof {
                        lemma_stacked(before, pushed, layers@);
                    }
                    return Ok(());
                },
                Err(e) => return Err(e),
            }
        },
        DiskKind::PersistentReservations(inner) => {
            let disk = match disk_open(*inner, read_only) {
                Ok(disk) => disk,
                Err(e) => return Err(e),
            };
            layers.push(LayerPlan::Disk(DiskPlan::WithReservations(Box::new(disk))));
        },
        DiskKind::Delay { delay_ms, inner } => {
            let disk = match disk_open(*inner, read_only) {
                Ok(disk) => disk,
                Err(e) => return Err(e),
            };
            layers.push(LayerPlan::Disk(DiskPlan::Delayed { delay_ms, disk: Box::new(disk) }));
        },
        DiskKind::Crypt { key_file, inner } => {
            let disk = match disk_open(*inner, read_only) {
                Ok(disk) => disk,
                Err(e) => return Err(e),
            };
            layers.push(LayerPlan::Disk(DiskPlan::Crypt { key_file, disk: Box::new(disk) }));
        },
        DiskKind::Sqlite { path, create_with_len, exists } => {
            match check_database(path.as_str(), create_with_len.is_some(), exists) {
                Ok(()) => {},
                Err(e) => return Err(e),
            }
            let format: Option<Option<u64>> = if create_with_len.is_some() {
                Some(create_with_len)
            } else {
                None
            };
            layers.push(LayerPlan::Sqlite { path, format });
        },
        DiskKind::SqliteDiff { path, create, exists, inner } => {
            match check_database(path.as_str(), create, exists) {
                Ok(()) => {},
                Err(e) => return Err(e),
            }
            let format: Option<Option<u64>> = if create {
                Some(None)
            } else {
                None
            };
            layers.push(LayerPlan::Sqlite { path, format });
            let ghost pushed = layers@;
            assert(pushed.take(before.len() as int) =~= before);
            match disk_open_inner(*inner, true, layers) {
                Ok(()) => {
                    proof {
                        lemma_stacked(before, pushed, layers@);
                    }
                    return Ok(());
                },
                Err(e) => return Err(e),
            }
        },
        DiskKind::AutoCacheSqlite { cache_path, key, inner } => {
            layers.push(LayerPlan::ReadCache { cache_path, key });
            let ghost pushed = layers@;
            assert(pushed.take(before.len() as int) =~= before);
            match disk_open_inner(*inner, read_only, layers) {
                Ok(()) => {
                    proof {
                        lemma_stacked(before, pushed, layers@);
                    }
                    return Ok(());
                },
                Err(e) => return Err(e),
            }
        },
    }
    proof {
        let added = layers@.skip(before.len() as int);
        assert(layers@.take(before.len() as int) =~= before);
        assert(added =~= seq![layers@.last()]);
    }
    Ok(())
}

proof fn lemma_stacked(before: Seq<LayerPlan>, pushed: Seq<LayerPlan>, after: Seq<LayerPlan>)
    requires
        pushed.len() == before.len() + 1,
        pushed.take(before.len() as int) == before,
        after.len() >= pushed.len(),
        after.take(pushed.len() as int) == pushed,
    ensures
        after.take(before.len() as int) == before,
        after.skip(before.len() as int).len() > 0,
        after.skip(before.len() as int)[0] == pushed.last(),
        after.skip(before.len() as int).skip(1) == after.skip(pushed.len() as int),
{
    assert(after.take(before.len() as int) =~= pushed.take(before.len() as int)) by {
        assert forall|i: int| 0 <= i < before.len() implies #[trigger] after[i] == pushed[i] by {
            assert(after.take(pushed.len() as int)[i] == after[i]);
        }
    }
    assert(after[before.len() as int] == pushed.last()) by {
        assert(after.take(pushed.len() as int)[before.len() as int] == after[before.len() as int]);
    }
    assert(after.skip(before.len() as int).skip(1) =~= after.skip(pushed.len() as int));
}

} // verus!
