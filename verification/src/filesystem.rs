//! The microVM filesystem export: which host directory it is, and how a restored
//! machine is held to the same one.

use vstd::bytes::{
    lemma_auto_spec_u16_to_from_le_bytes, lemma_auto_spec_u32_to_from_le_bytes,
    lemma_auto_spec_u64_to_from_le_bytes, spec_u16_from_le_bytes, spec_u16_to_le_bytes,
    spec_u32_from_le_bytes, spec_u32_to_le_bytes, spec_u64_from_le_bytes, spec_u64_to_le_bytes,
    u16_to_le_bytes, u32_to_le_bytes, u64_to_le_bytes,
};
use vstd::prelude::*;
use vstd::utf8::{encode_utf8, is_ascii_chars_encode_utf8};

use crate::bytes::{bytes_of_text, push_bytes};
use crate::numeral::{decimal, push_decimal};
use crate::path::{lies_within, parse_path, path_parts, path_within};
use crate::refusal::{refusal_of, refuse, refuse_naming, refuse_quoting, text_view, Refusal};
use crate::snapshot::{
    find_attachment, has_device, Attachment, SnapshotAttachment, SnapshotMachineContract,
    SnapshotMicrovmFilesystem, MICROVM_FILESYSTEM_SLOT_VERSION,
};
use crate::text::same_text;

verus! {

pub const MICROVM_FILESYSTEM_STABLE_ID: &'static str = "fs:microvm0";

/// Whether the guest may write to the export.
#[derive(Clone, Copy, Debug, PartialEq, Eq, Structural)]
pub enum MicrovmFilesystemAccess {
    ReadOnly,
    ReadWrite,
}

impl MicrovmFilesystemAccess {
    pub fn is_read_only(self) -> (b: bool)
        ensures
            b == (self == MicrovmFilesystemAccess::ReadOnly),
    {
        self == MicrovmFilesystemAccess::ReadOnly
    }

    /// The stable spelling of the access mode.
    pub open spec fn spelling(self) -> Seq<char> {
        match self {
            MicrovmFilesystemAccess::ReadOnly => "ro"@,
            MicrovmFilesystemAccess::ReadWrite => "rw"@,
        }
    }

    pub fn as_str(self) -> (s: &'static str)
        ensures
            s@ == self.spelling(),
    {
        match self {
            MicrovmFilesystemAccess::ReadOnly => "ro",
            MicrovmFilesystemAccess::ReadWrite => "rw",
        }
    }
}

/// Where the export is mounted in the guest, and how.
#[derive(Debug)]
pub struct MicrovmFilesystemConfig {
    pub guest_mount_target: String,
    pub access: MicrovmFilesystemAccess,
}

/// What is known of a file without opening it.
#[derive(Clone, Copy, Debug, PartialEq, Eq, Structural)]
pub struct FileFacts {
    pub is_symlink: bool,
    pub is_dir: bool,
    /// A redirecting directory entry, on hosts that have such entries.
    pub is_reparse_point: bool,
}

/// One component of a host path.
#[derive(Clone, Copy, Debug, PartialEq, Eq, Structural)]
pub enum ComponentKind {
    Prefix,
    RootDir,
    CurDir,
    ParentDir,
    Normal,
}

/// A component of the export's path, the path up to it, and what is there.
#[derive(Debug)]
pub struct RootComponent {
    pub kind: ComponentKind,
    pub path: String,
    pub facts: Result<FileFacts, Refusal>,
}

/// Why a path is refused at one of its components, if it is.
pub open spec fn component_refusal(component: RootComponent) -> Option<Seq<char>> {
    match component.kind {
        ComponentKind::ParentDir => Some(
            "microVM filesystem host path contains a parent component"@,
        ),
        ComponentKind::Normal => match component.facts {
            Err(e) => Some(e@),
            Ok(facts) => if facts.is_symlink {
                Some(
                    "microVM filesystem path component is a symbolic link: "@ + component.path@,
                )
            } else if facts.is_reparse_point {
                Some(
                    "microVM filesystem path component is a reparse point: "@ + component.path@,
                )
            } else {
                None
            },
        },
        _ => None,
    }
}

/// The first refusal among the components of a path.
pub open spec fn components_refusal(list: Seq<RootComponent>) -> Option<Seq<char>>
    decreases list.len(),
{
    if list.len() == 0 {
        None
    } else if component_refusal(list[0]) is Some {
        component_refusal(list[0])
    } else {
        components_refusal(list.skip(1))
    }
}

fn check_component(component: &RootComponent) -> (r: Result<(), Refusal>)
    ensures
        refusal_of(r) == component_refusal(*component),
{
    match component.kind {
        ComponentKind::ParentDir => Err(
            refuse("microVM filesystem host path contains a parent component"),
        ),
        ComponentKind::Normal => match &component.facts {
            Err(e) => Err(Refusal { message: e.message.clone() }),
            Ok(facts) => {
                if facts.is_symlink {
                    Err(
                        refuse_naming(
                            "microVM filesystem path component is a symbolic link: ",
                            component.path.as_str(),
                        ),
                    )
                } else if facts.is_reparse_point {
                    Err(
                        refuse_naming(
                            "microVM filesystem path component is a reparse point: ",
                            component.path.as_str(),
                        ),
                    )
                } else {
                    Ok(())
                }
            },
        },
        _ => Ok(()),
    }
}

fn check_components(list: &Vec<RootComponent>) -> (r: Result<(), Refusal>)
    ensures
        refusal_of(r) == components_refusal(list@),
{
    let mut i: usize = 0;
    assert(list@.skip(0) =~= list@);
    while i < list.len()
        invariant
            i <= list@.len(),
            components_refusal(list@) == components_refusal(list@.skip(i as int)),
        decreases list@.len() - i,
    {
        proof {
            assert(list@.skip(i as int)[0] == list@[i as int]);
            assert(list@.skip(i as int).skip(1) =~= list@.skip(i + 1));
        }
        if let Err(e) = check_component(&list[i]) {
            return Err(e);
        }
        i += 1;
    }
    Ok(())
}

/// What the host identifies a directory by.
#[derive(Debug)]
pub enum RootIdentity {
    Unix { device: u64, inode: u64 },
    Windows { volume: Option<Vec<u16>>, file_id: u64 },
    Unsupported,
}

/// A run of 16-bit units, little-endian.
pub open spec fn wide_bytes(units: Seq<u16>) -> Seq<u8>
    decreases units.len(),
{
    if units.len() == 0 {
        Seq::empty()
    } else {
        wide_bytes(units.drop_last()) + spec_u16_to_le_bytes(units.last())
    }
}

/// The recorded identity of a directory.
pub open spec fn identity_bytes(identity: RootIdentity) -> Seq<u8> {
    match identity {
        RootIdentity::Unix { device, inode } => encode_utf8("openvmm-microvm-fs-unix-v1\0"@)
            + spec_u64_to_le_bytes(device) + spec_u64_to_le_bytes(inode),
        RootIdentity::Windows { volume, file_id } => encode_utf8(
            "openvmm-microvm-fs-windows-v1\0"@,
        ) + spec_u32_to_le_bytes(volume->0@.len() as u32) + wide_bytes(volume->0@)
            + spec_u64_to_le_bytes(file_id),
        RootIdentity::Unsupported => Seq::empty(),
    }
}

/// The name of the recorded identity's form.
pub open spec fn identity_kind(identity: RootIdentity) -> Seq<char> {
    match identity {
        RootIdentity::Unix { .. } => "unix-device-inode-v1"@,
        _ => "windows-volume-file-id-v1"@,
    }
}

/// Why a directory cannot be identified, if it cannot.
pub open spec fn identity_refusal(identity: RootIdentity) -> Option<Seq<char>> {
    let too_long = Some("microVM filesystem root identity is empty or exceeds 4096 bytes"@);
    match identity {
        RootIdentity::Unix { .. } => None,
        RootIdentity::Windows { volume, file_id } => if file_id == 0 {
            Some("microVM filesystem root has no stable file identity"@)
        } else {
            match volume {
                None => Some("microVM filesystem root has no volume prefix"@),
                Some(units) => if units@.len() > u32::MAX {
                    Some("microVM filesystem volume identity is too long"@)
                } else if identity_bytes(identity).len() > 4096 {
                    too_long
                } else {
                    None
                },
            }
        },
        RootIdentity::Unsupported => Some(
            "microVM virtio-fs requires Linux KVM/MSHV or Windows WHP"@,
        ),
    }
}

proof fn lemma_unix_identity(device: u64, inode: u64)
    ensures
        encode_utf8("openvmm-microvm-fs-unix-v1\0"@).len() == 27,
        identity_bytes(RootIdentity::Unix { device, inode }).len() == 43,
{
    reveal_strlit("openvmm-microvm-fs-unix-v1\0");
    is_ascii_chars_encode_utf8("openvmm-microvm-fs-unix-v1\0"@);
    lemma_auto_spec_u64_to_from_le_bytes();
}

proof fn lemma_same_unix(d1: u64, i1: u64, d2: u64, i2: u64)
    ensures
        identity_bytes(RootIdentity::Unix { device: d1, inode: i1 }) == identity_bytes(
            RootIdentity::Unix { device: d2, inode: i2 },
        ) <==> d1 == d2 && i1 == i2,
{
    lemma_unix_identity(d1, i1);
    lemma_unix_identity(d2, i2);
    lemma_auto_spec_u64_to_from_le_bytes();
    let a = identity_bytes(RootIdentity::Unix { device: d1, inode: i1 });
    let b = identity_bytes(RootIdentity::Unix { device: d2, inode: i2 });
    if a == b {
        assert(a.subrange(27, 35) =~= spec_u64_to_le_bytes(d1));
        assert(b.subrange(27, 35) =~= spec_u64_to_le_bytes(d2));
        assert(a.subrange(35, 43) =~= spec_u64_to_le_bytes(i1));
        assert(b.subrange(35, 43) =~= spec_u64_to_le_bytes(i2));
        assert(spec_u64_from_le_bytes(spec_u64_to_le_bytes(d1)) == d1);
        assert(spec_u64_from_le_bytes(spec_u64_to_le_bytes(d2)) == d2);
        assert(spec_u64_from_le_bytes(spec_u64_to_le_bytes(i1)) == i1);
        assert(spec_u64_from_le_bytes(spec_u64_to_le_bytes(i2)) == i2);
    }
}

proof fn lemma_wide_len(units: Seq<u16>)
    ensures
        wide_bytes(units).len() == 2 * units.len(),
    decreases units.len(),
{
    lemma_auto_spec_u16_to_from_le_bytes();
    if units.len() > 0 {
        lemma_wide_len(units.drop_last());
    }
}

proof fn lemma_same_wide(a: Seq<u16>, b: Seq<u16>)
    requires
        a.len() == b.len(),
        wide_bytes(a) == wide_bytes(b),
    ensures
        a == b,
    decreases a.len(),
{
    lemma_auto_spec_u16_to_from_le_bytes();
    if a.len() > 0 {
        let (x, y) = (wide_bytes(a), wide_bytes(b));
        let n = 2 * (a.len() - 1) as int;
        lemma_wide_len(a.drop_last());
        lemma_wide_len(b.drop_last());
        assert(x.take(n) =~= wide_bytes(a.drop_last()));
        assert(y.take(n) =~= wide_bytes(b.drop_last()));
        lemma_same_wide(a.drop_last(), b.drop_last());
        assert(x.skip(n) =~= spec_u16_to_le_bytes(a.last()));
        assert(y.skip(n) =~= spec_u16_to_le_bytes(b.last()));
        assert(spec_u16_from_le_bytes(spec_u16_to_le_bytes(a.last())) == a.last());
        assert(spec_u16_from_le_bytes(spec_u16_to_le_bytes(b.last())) == b.last());
        assert(a =~= a.drop_last().push(a.last()));
        assert(b =~= b.drop_last().push(b.last()));
    }
}

proof fn lemma_windows_identity(volume: Option<Vec<u16>>, file_id: u64)
    ensures
        ({
            let bytes = identity_bytes(RootIdentity::Windows { volume, file_id });
            let n = 2 * volume->0@.len() as int;
            &&& bytes.len() == 42 + n
            &&& bytes.subrange(30, 34) == spec_u32_to_le_bytes(volume->0@.len() as u32)
            &&& bytes.subrange(34, 34 + n) == wide_bytes(volume->0@)
            &&& bytes.subrange(34 + n, 42 + n) == spec_u64_to_le_bytes(file_id)
        }),
{
    let units = volume->0@;
    let n = 2 * units.len() as int;
    let head = encode_utf8("openvmm-microvm-fs-windows-v1\0"@);
    reveal_strlit("openvmm-microvm-fs-windows-v1\0");
    is_ascii_chars_encode_utf8("openvmm-microvm-fs-windows-v1\0"@);
    lemma_auto_spec_u32_to_from_le_bytes();
    lemma_auto_spec_u64_to_from_le_bytes();
    lemma_wide_len(units);
    let bytes = identity_bytes(RootIdentity::Windows { volume, file_id });
    assert(head.len() == 30);
    assert(bytes.subrange(30, 34) =~= spec_u32_to_le_bytes(units.len() as u32));
    assert(bytes.subrange(34, 34 + n) =~= wide_bytes(units));
    assert(bytes.subrange(34 + n, 42 + n) =~= spec_u64_to_le_bytes(file_id));
}

proof fn lemma_same_windows(v1: Option<Vec<u16>>, f1: u64, v2: Option<Vec<u16>>, f2: u64)
    requires
        v1->0@.len() <= u32::MAX,
        v2->0@.len() <= u32::MAX,
    ensures
        identity_bytes(RootIdentity::Windows { volume: v1, file_id: f1 }) == identity_bytes(
            RootIdentity::Windows { volume: v2, file_id: f2 },
        ) <==> v1->0@ == v2->0@ && f1 == f2,
{
    let a = identity_bytes(RootIdentity::Windows { volume: v1, file_id: f1 });
    let b = identity_bytes(RootIdentity::Windows { volume: v2, file_id: f2 });
    lemma_windows_identity(v1, f1);
    lemma_windows_identity(v2, f2);
    lemma_auto_spec_u32_to_from_le_bytes();
    lemma_auto_spec_u64_to_from_le_bytes();
    if a == b {
        let n1 = v1->0@.len() as u32;
        let n2 = v2->0@.len() as u32;
        assert(spec_u32_from_le_bytes(spec_u32_to_le_bytes(n1)) == n1);
        assert(spec_u32_from_le_bytes(spec_u32_to_le_bytes(n2)) == n2);
        assert(n1 == n2);
        lemma_same_wide(v1->0@, v2->0@);
        assert(spec_u64_from_le_bytes(spec_u64_to_le_bytes(f1)) == f1);
        assert(spec_u64_from_le_bytes(spec_u64_to_le_bytes(f2)) == f2);
    }
}

/// Two identities are of the same directory: the same file of the same device or
/// volume.
pub open spec fn same_root(a: RootIdentity, b: RootIdentity) -> bool {
    match (a, b) {
        (
            RootIdentity::Unix { device: d1, inode: i1 },
            RootIdentity::Unix { device: d2, inode: i2 },
        ) => d1 == d2 && i1 == i2,
        (
            RootIdentity::Windows { volume: v1, file_id: f1 },
            RootIdentity::Windows { volume: v2, file_id: f2 },
        ) => v1->0@ == v2->0@ && f1 == f2,
        _ => false,
    }
}

/// Two directories that can be exported are recorded alike exactly when they are
/// the same directory.
pub proof fn law_root_identity_is_exact(a: RootIdentity, b: RootIdentity)
    requires
        identity_refusal(a) is None,
        identity_refusal(b) is None,
    ensures
        filesystem_attachment(a) == filesystem_attachment(b) <==> same_root(a, b),
{
    reveal_strlit("unix-device-inode-v1");
    reveal_strlit("windows-volume-file-id-v1");
    assert("unix-device-inode-v1"@.len() != "windows-volume-file-id-v1"@.len());
    match (a, b) {
        (
            RootIdentity::Unix { device: d1, inode: i1 },
            RootIdentity::Unix { device: d2, inode: i2 },
        ) => lemma_same_unix(d1, i1, d2, i2),
        (
            RootIdentity::Windows { volume: v1, file_id: f1 },
            RootIdentity::Windows { volume: v2, file_id: f2 },
        ) => lemma_same_windows(v1, f1, v2, f2),
        _ => {},
    }
}

fn push_wide(out: &mut Vec<u8>, units: &Vec<u16>)
    ensures
        final(out)@ == old(out)@ + wide_bytes(units@),
{
    let mut i: usize = 0;
    assert(out@ =~= old(out)@ + wide_bytes(units@.take(0)));
    while i < units.len()
        invariant
            i <= units@.len(),
            out@ == old(out)@ + wide_bytes(units@.take(i as int)),
        decreases units@.len() - i,
    {
        let unit = u16_to_le_bytes(units[i]);
        push_bytes(out, unit.as_slice());
        proof {
            assert(units@.take(i + 1).drop_last() =~= units@.take(i as int));
            assert(out@ =~= old(out)@ + wide_bytes(units@.take(i + 1)));
        }
        i += 1;
    }
    assert(units@.take(i as int) =~= units@);
}

/// Writes down the identity of a directory.
pub fn root_identity(identity: &RootIdentity) -> (r: Result<(&'static str, Vec<u8>), Refusal>)
    ensures
        refusal_of(r) == identity_refusal(*identity),
        r is Ok ==> r->Ok_0.0@ == identity_kind(*identity) && r->Ok_0.1@ == identity_bytes(
            *identity,
        ),
{
    match identity {
        RootIdentity::Unix { device, inode } => {
            let mut out = bytes_of_text("openvmm-microvm-fs-unix-v1\0");
            let device_bytes = u64_to_le_bytes(*device);
            push_bytes(&mut out, device_bytes.as_slice());
            let inode_bytes = u64_to_le_bytes(*inode);
            push_bytes(&mut out, inode_bytes.as_slice());
            Ok(("unix-device-inode-v1", out))
        },
        RootIdentity::Windows { volume, file_id } => {
            if *file_id == 0 {
                return Err(refuse("microVM filesystem root has no stable file identity"));
            }
            let units = match volume {
                Some(units) => units,
                None => return Err(refuse("microVM filesystem root has no volume prefix")),
            };
            if units.len() > u32::MAX as usize {
                return Err(refuse("microVM filesystem volume identity is too long"));
            }
            let mut out = bytes_of_text("openvmm-microvm-fs-windows-v1\0");
            let count = u32_to_le_bytes(units.len() as u32);
            push_bytes(&mut out, count.as_slice());
            push_wide(&mut out, units);
            let id = u64_to_le_bytes(*file_id);
            push_bytes(&mut out, id.as_slice());
            if out.len() > 4096 {
                return Err(
                    refuse("microVM filesystem root identity is empty or exceeds 4096 bytes"),
                );
            }
            Ok(("windows-volume-file-id-v1", out))
        },
        RootIdentity::Unsupported => Err(
            refuse("microVM virtio-fs requires Linux KVM/MSHV or Windows WHP"),
        ),
    }
}

/// The export's canonical path, what is there, and what the host identifies it
/// by.
#[derive(Debug)]
pub struct CanonicalRoot {
    pub path: String,
    pub facts: FileFacts,
    pub identity: RootIdentity,
}

/// Why a host path cannot be exported, if it cannot.
pub open spec fn root_refusal(
    empty: bool,
    components: Seq<RootComponent>,
    canonical: Result<CanonicalRoot, Refusal>,
) -> Option<Seq<char>> {
    if empty {
        Some("microVM filesystem host path is empty"@)
    } else if components_refusal(components) is Some {
        components_refusal(components)
    } else {
        match canonical {
            Err(e) => Some(e@),
            Ok(root) => if !root.facts.is_dir || root.facts.is_symlink {
                Some(
                    "microVM filesystem root is not a plain directory: "@ + root.path@,
                )
            } else {
                identity_refusal(root.identity)
            },
        }
    }
}

/// Decides whether a host path can be exported, and how it is identified. The
/// path is free of parent components and symbolic links, and names a plain
/// directory.
pub fn canonical_microvm_filesystem_root(
    empty: bool,
    components: &Vec<RootComponent>,
    canonical: Result<CanonicalRoot, Refusal>,
) -> (r: Result<(String, &'static str, Vec<u8>), Refusal>)
    ensures
        refusal_of(r) == root_refusal(empty, components@, canonical),
        r is Ok ==> {
            let root = canonical->Ok_0;
            &&& r->Ok_0.0 == root.path
            &&& r->Ok_0.1@ == identity_kind(root.identity)
            &&& r->Ok_0.2@ == identity_bytes(root.identity)
        },
{
    if empty {
        return Err(refuse("microVM filesystem host path is empty"));
    }
    if let Err(e) = check_components(components) {
        return Err(e);
    }
    let root = match canonical {
        Ok(root) => root,
        Err(e) => return Err(e),
    };
    if !root.facts.is_dir || root.facts.is_symlink {
        return Err(
            refuse_naming(
                "microVM filesystem root is not a plain directory: ",
                root.path.as_str(),
            ),
        );
    }
    match root_identity(&root.identity) {
        Ok((kind, bytes)) => Ok((root.path, kind, bytes)),
        Err(e) => Err(e),
    }
}

/// What a snapshot records of an exported directory.
pub open spec fn filesystem_attachment(identity: RootIdentity) -> Attachment {
    Attachment {
        stable_id: MICROVM_FILESYSTEM_STABLE_ID@,
        kind: "virtio-fs"@,
        required: true,
        reconnect_policy: "live-revalidate"@,
        identity_kind: identity_kind(identity),
        identity: identity_bytes(identity),
        length: 0,
        reconnect_timeout_ms: 0,
    }
}

/// A host path that is asked to be exported, with what was found along it.
#[derive(Debug)]
pub struct HostRoot {
    pub empty: bool,
    pub components: Vec<RootComponent>,
    pub canonical: Result<CanonicalRoot, Refusal>,
}

/// The attachment of an exported directory, and its canonical path.
pub fn microvm_filesystem_attachment(host: HostRoot) -> (r: Result<
    (String, SnapshotAttachment),
    Refusal,
>)
    ensures
        refusal_of(r) == root_refusal(host.empty, host.components@, host.canonical),
        r is Ok ==> {
            let root = host.canonical->Ok_0;
            &&& r->Ok_0.0 == root.path
            &&& r->Ok_0.1@ == filesystem_attachment(root.identity)
        },
{
    match canonical_microvm_filesystem_root(host.empty, &host.components, host.canonical) {
        Ok((path, kind, identity)) => {
            let attachment = SnapshotAttachment {
                stable_id: MICROVM_FILESYSTEM_STABLE_ID.to_owned(),
                kind: "virtio-fs".to_owned(),
                required: true,
                reconnect_policy: "live-revalidate".to_owned(),
                identity_kind: kind.to_owned(),
                identity,
                length: 0,
                reconnect_timeout_ms: 0,
            };
            Ok((path, attachment))
        },
        Err(e) => Err(e),
    }
}

/// Why private storage would be reachable from the export, if it would. All
/// paths are canonical.
pub open spec fn storage_refusal(
    root: Seq<char>,
    snapshot_parent: Option<Seq<char>>,
    restore_snapshot: Option<Seq<char>>,
    memory_backing_file: Option<Seq<char>>,
) -> Option<Seq<char>> {
    let inside = |path: Option<Seq<char>>|
        path is Some && path_within(path_parts(path->0), path_parts(root));
    let outside = |what: Seq<char>| Some(what + root);
    if inside(snapshot_parent) {
        outside(
            "snapshot destination must be outside the microVM filesystem export root "@,
        )
    } else if inside(restore_snapshot) {
        outside("restore snapshot must be outside the microVM filesystem export root "@)
    } else if inside(memory_backing_file) {
        outside(
            "guest memory backing file must be outside the microVM filesystem export root "@,
        )
    } else {
        None
    }
}

fn path_is_inside(path: Option<&str>, root: &str) -> (b: bool)
    ensures
        b == (path is Some && path_within(path_parts(path->0@), path_parts(root@))),
{
    match path {
        Some(path) => {
            let parsed = parse_path(path);
            let parsed_root = parse_path(root);
            lies_within(&parsed, &parsed_root)
        },
        None => false,
    }
}

/// Keeps snapshots and guest memory out of the export.
pub fn validate_microvm_filesystem_private_storage(
    root_path: &str,
    snapshot_parent: Option<&str>,
    restore_snapshot: Option<&str>,
    memory_backing_file: Option<&str>,
) -> (r: Result<(), Refusal>)
    ensures
        refusal_of(r) == storage_refusal(
            root_path@,
            text_view(snapshot_parent),
            text_view(restore_snapshot),
            text_view(memory_backing_file),
        ),
{
    if path_is_inside(snapshot_parent, root_path) {
        return Err(
            refuse_naming(
                "snapshot destination must be outside the microVM filesystem export root ",
                root_path,
            ),
        );
    }
    if path_is_inside(restore_snapshot, root_path) {
        return Err(
            refuse_naming(
                "restore snapshot must be outside the microVM filesystem export root ",
                root_path,
            ),
        );
    }
    if path_is_inside(memory_backing_file, root_path) {
        return Err(
            refuse_naming(
                "guest memory backing file must be outside the microVM filesystem export root ",
                root_path,
            ),
        );
    }
    Ok(())
}

/// The access mode that a snapshot records.
pub open spec fn access_of(mode: Seq<char>) -> Option<MicrovmFilesystemAccess> {
    if mode == "ro"@ {
        Some(MicrovmFilesystemAccess::ReadOnly)
    } else if mode == "rw"@ {
        Some(MicrovmFilesystemAccess::ReadWrite)
    } else {
        None
    }
}

/// Reads the filesystem policy of a snapshot. Whether the mount target itself is
/// acceptable was found out by the caller.
pub fn microvm_filesystem_from_snapshot(
    saved: &SnapshotMicrovmFilesystem,
    target_check: &Result<(), Refusal>,
) -> (r: Result<MicrovmFilesystemConfig, Refusal>)
    ensures
        refusal_of(r) == saved_filesystem_refusal(*saved, *target_check),
        r is Ok ==> r->Ok_0.guest_mount_target == saved.guest_mount_target && access_of(
            saved.access_mode@,
        ) == Some(r->Ok_0.access),
{
    let access = if same_text(saved.access_mode.as_str(), "ro") {
        MicrovmFilesystemAccess::ReadOnly
    } else if same_text(saved.access_mode.as_str(), "rw") {
        MicrovmFilesystemAccess::ReadWrite
    } else {
        return Err(
            refuse_quoting(
                "snapshot microVM filesystem access mode '",
                saved.access_mode.as_str(),
                "' is unsupported",
            ),
        );
    };
    match target_check {
        Ok(()) => Ok(
            MicrovmFilesystemConfig {
                guest_mount_target: saved.guest_mount_target.clone(),
                access,
            },
        ),
        Err(_e) => Err(refuse("snapshot microVM filesystem policy is invalid")),
    }
}

/// Why a saved filesystem policy is refused, if it is.
pub open spec fn saved_filesystem_refusal(
    saved: SnapshotMicrovmFilesystem,
    target_check: Result<(), Refusal>,
) -> Option<Seq<char>> {
    if access_of(saved.access_mode@) is None {
        Some(
            "snapshot microVM filesystem access mode '"@ + saved.access_mode@
                + "' is unsupported"@,
        )
    } else if target_check is Err {
        Some("snapshot microVM filesystem policy is invalid"@)
    } else {
        None
    }
}

/// Why a snapshot's filesystem slot is refused, if it is.
pub open spec fn slot_refusal(contract: SnapshotMachineContract) -> Option<Seq<char>> {
    let version = contract.microvm_filesystem_slot_version;
    if version == 0 {
        None
    } else if version == MICROVM_FILESYSTEM_SLOT_VERSION {
        if has_device(contract.devices@, MICROVM_FILESYSTEM_STABLE_ID@) {
            None
        } else {
            Some(
                "snapshot advertises a restore-attachable microVM filesystem slot but omits its fixed device"@,
            )
        }
    } else {
        Some(
            "snapshot microVM filesystem slot capability version "@ + decimal(version as nat)
                + " is unsupported"@,
        )
    }
}

/// Whether a snapshot's machine has a filesystem slot.
pub fn microvm_filesystem_slot_from_snapshot(contract: &SnapshotMachineContract) -> (r: Result<
    bool,
    Refusal,
>)
    ensures
        refusal_of(r) == slot_refusal(*contract),
        r is Ok ==> r->Ok_0 == has_device(contract.devices@, MICROVM_FILESYSTEM_STABLE_ID@),
{
    let device = contract.has_device(MICROVM_FILESYSTEM_STABLE_ID);
    let version: u32 = contract.microvm_filesystem_slot_version;
    if version == 0 {
        return Ok(device);
    }
    if version == MICROVM_FILESYSTEM_SLOT_VERSION {
        if !device {
            return Err(
                refuse(
                    "snapshot advertises a restore-attachable microVM filesystem slot but omits its fixed device",
                ),
            );
        }
        return Ok(true);
    }
    let mut number = String::new();
    push_decimal(&mut number, version as u128);
    assert(number@ =~= decimal(version as nat));
    Err(
        refuse_quoting(
            "snapshot microVM filesystem slot capability version ",
            number.as_str(),
            " is unsupported",
        ),
    )
}

/// A mount that is asked for. Whether the mount target is acceptable, and what
/// was found along the host path, was found out by the caller.
#[derive(Debug)]
pub struct MicrovmMount {
    pub guest_target: String,
    pub access: MicrovmFilesystemAccess,
    pub target_check: Result<(), Refusal>,
    pub host: HostRoot,
}

/// The filesystem of a machine that is about to start.
#[derive(Debug)]
pub struct EffectiveMicrovmFilesystem {
    pub config: MicrovmFilesystemConfig,
    pub root_path: String,
    pub attachment: SnapshotAttachment,
}

/// Why a mount cannot be attached afresh, if it cannot.
pub open spec fn mount_refusal(mount: MicrovmMount) -> Option<Seq<char>> {
    match mount.target_check {
        Err(e) => Some(e@),
        Ok(()) => root_refusal(mount.host.empty, mount.host.components@, mount.host.canonical),
    }
}

/// The filesystem is the mount that was asked for.
pub open spec fn attaches(fs: EffectiveMicrovmFilesystem, mount: MicrovmMount) -> bool {
    let root = mount.host.canonical->Ok_0;
    &&& mount.host.canonical is Ok
    &&& fs.config.guest_mount_target@ == mount.guest_target@
    &&& fs.config.access == mount.access
    &&& fs.root_path@ == root.path@
    &&& fs.attachment@ == filesystem_attachment(root.identity)
}

/// Why a restored machine cannot have its filesystem back, if it cannot.
pub open spec fn remount_refusal(
    mount: MicrovmMount,
    saved: SnapshotMicrovmFilesystem,
    saved_check: Result<(), Refusal>,
    saved_attachment: Option<Attachment>,
) -> Option<Seq<char>> {
    let host = root_refusal(mount.host.empty, mount.host.components@, mount.host.canonical);
    let root = mount.host.canonical->Ok_0;
    if saved_filesystem_refusal(saved, saved_check) is Some {
        saved_filesystem_refusal(saved, saved_check)
    } else if mount.guest_target@ != saved.guest_mount_target@ || Some(mount.access) != access_of(
        saved.access_mode@,
    ) {
        Some("restore-time mount target or access mode does not match the snapshot contract"@)
    } else if host is Some {
        host
    } else if saved.canonical_host_path@.len() == 0 {
        Some(
            "snapshot filesystem canonical host path is missing; this snapshot predates path-bound filesystem restore"@,
        )
    } else if root.path@ != saved.canonical_host_path@ {
        Some(
            "restore-time filesystem canonical host path does not match the snapshot contract"@,
        )
    } else if saved_attachment != Some(filesystem_attachment(root.identity)) {
        Some("restore-time filesystem root identity does not match the snapshot attachment"@)
    } else {
        None
    }
}

/// Why a machine's filesystem is refused, if it is.
pub open spec fn filesystem_refusal(
    requested: Option<MicrovmMount>,
    restore: Option<SnapshotMachineContract>,
    saved_check: Result<(), Refusal>,
) -> Option<Seq<char>> {
    match restore {
        None => match requested {
            None => None,
            Some(mount) => mount_refusal(mount),
        },
        Some(contract) => {
            let device = has_device(contract.devices@, MICROVM_FILESYSTEM_STABLE_ID@);
            let attachment = find_attachment(
                contract.attachments@,
                MICROVM_FILESYSTEM_STABLE_ID@,
            );
            let attachable = contract.microvm_filesystem_slot_version
                == MICROVM_FILESYSTEM_SLOT_VERSION;
            if slot_refusal(contract) is Some {
                slot_refusal(contract)
            } else if attachment is Some != contract.microvm_filesystem is Some || !(attachable
                || device == contract.microvm_filesystem is Some) {
                Some(
                    "snapshot microVM filesystem slot, policy, and attachment inventories disagree"@,
                )
            } else {
                match (contract.microvm_filesystem, requested) {
                    (None, None) => None,
                    (None, Some(mount)) => if !attachable {
                        Some(
                            "snapshot does not support restore-time microVM filesystem attachment"@,
                        )
                    } else {
                        mount_refusal(mount)
                    },
                    (Some(_), None) => Some(
                        "snapshot restore requires a fresh --mount attachment for fs:microvm0"@,
                    ),
                    (Some(saved), Some(mount)) => remount_refusal(
                        mount,
                        saved,
                        saved_check,
                        attachment,
                    ),
                }
            }
        },
    }
}

fn attach_mount(mount: MicrovmMount) -> (r: Result<EffectiveMicrovmFilesystem, Refusal>)
    ensures
        refusal_of(r) == mount_refusal(mount),
        r is Ok ==> attaches(r->Ok_0, mount),
{
    if let Err(e) = mount.target_check {
        return Err(e);
    }
    match microvm_filesystem_attachment(mount.host) {
        Ok((root_path, attachment)) => Ok(
            EffectiveMicrovmFilesystem {
                config: MicrovmFilesystemConfig {
                    guest_mount_target: mount.guest_target,
                    access: mount.access,
                },
                root_path,
                attachment,
            },
        ),
        Err(e) => Err(e),
    }
}

/// Decides the filesystem of a machine: what was asked for on a fresh boot or
/// into a slot that was left empty, and nothing but the recorded directory on a
/// restore that records one.
pub fn effective_microvm_filesystem(
    requested: Option<MicrovmMount>,
    restore: Option<&SnapshotMachineContract>,
    saved_check: &Result<(), Refusal>,
) -> (r: Result<Option<EffectiveMicrovmFilesystem>, Refusal>)
    ensures
        ({
            let contract = match restore {
                Some(c) => Some(*c),
                None => None,
            };
            &&& refusal_of(r) == filesystem_refusal(requested, contract, *saved_check)
            &&& r is Ok ==> match (r->Ok_0, requested) {
                (Some(fs), Some(mount)) => attaches(fs, mount),
                (None, None) => true,
                _ => false,
            }
        }),
{
    let contract = match restore {
        Some(contract) => contract,
        None => {
            return match requested {
                None => Ok(None),
                Some(mount) => match attach_mount(mount) {
                    Ok(fs) => Ok(Some(fs)),
                    Err(e) => Err(e),
                },
            };
        },
    };
    let device = match microvm_filesystem_slot_from_snapshot(contract) {
        Ok(device) => device,
        Err(e) => return Err(e),
    };
    let saved_attachment = contract.attachment(MICROVM_FILESYSTEM_STABLE_ID);
    let attachable = contract.microvm_filesystem_slot_version == MICROVM_FILESYSTEM_SLOT_VERSION;
    if saved_attachment.is_some() != contract.microvm_filesystem.is_some() || !(attachable
        || device == contract.microvm_filesystem.is_some()) {
        return Err(
            refuse(
                "snapshot microVM filesystem slot, policy, and attachment inventories disagree",
            ),
        );
    }
    let saved = match &contract.microvm_filesystem {
        Some(saved) => saved,
        None => {
            return match requested {
                None => Ok(None),
                Some(mount) => {
                    if !attachable {
                        return Err(
                            refuse(
                                "snapshot does not support restore-time microVM filesystem attachment",
                            ),
                        );
                    }
                    match attach_mount(mount) {
                        Ok(fs) => Ok(Some(fs)),
                        Err(e) => Err(e),
                    }
                },
            };
        },
    };
    let mount = match requested {
        Some(mount) => mount,
        None => {
            return Err(
                refuse("snapshot restore requires a fresh --mount attachment for fs:microvm0"),
            );
        },
    };
    let config = match microvm_filesystem_from_snapshot(saved, saved_check) {
        Ok(config) => config,
        Err(e) => return Err(e),
    };
    if !same_text(mount.guest_target.as_str(), config.guest_mount_target.as_str())
        || mount.access != config.access {
        return Err(
            refuse(
                "restore-time mount target or access mode does not match the snapshot contract",
            ),
        );
    }
    let (root_path, attachment) = match microvm_filesystem_attachment(mount.host) {
        Ok(found) => found,
        Err(e) => return Err(e),
    };
    if saved.canonical_host_path.as_str().is_empty() {
        return Err(
            refuse(
                "snapshot filesystem canonical host path is missing; this snapshot predates path-bound filesystem restore",
            ),
        );
    }
    if !same_text(root_path.as_str(), saved.canonical_host_path.as_str()) {
        return Err(
            refuse(
                "restore-time filesystem canonical host path does not match the snapshot contract",
            ),
        );
    }
    let same: bool = match saved_attachment {
        Some(saved_attachment) => attachment.same(saved_attachment),
        None => false,
    };
    if !same {
        return Err(
            refuse(
                "restore-time filesystem root identity does not match the snapshot attachment",
            ),
        );
    }
    Ok(Some(EffectiveMicrovmFilesystem { config, root_path, attachment }))
}

/// A restore that gets its recorded filesystem back gets the recorded directory:
/// same path, same identity, same mount target, same access.
pub proof fn law_restored_filesystem_is_the_recorded_one(
    mount: MicrovmMount,
    contract: SnapshotMachineContract,
    saved_check: Result<(), Refusal>,
)
    requires
        contract.microvm_filesystem is Some,
        filesystem_refusal(Some(mount), Some(contract), saved_check) is None,
    ensures
        ({
            let saved = contract.microvm_filesystem->0;
            let root = mount.host.canonical->Ok_0;
            &&& mount.host.canonical is Ok
            &&& root.path@ == saved.canonical_host_path@
            &&& mount.guest_target@ == saved.guest_mount_target@
            &&& access_of(saved.access_mode@) == Some(mount.access)
            &&& find_attachment(contract.attachments@, MICROVM_FILESYSTEM_STABLE_ID@) == Some(
                filesystem_attachment(root.identity),
            )
        }),
{
}

} // verus!
