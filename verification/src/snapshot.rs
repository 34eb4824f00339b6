//! What a snapshot records of the machine it was taken of.

use vstd::prelude::*;

use crate::bytes::{copy_bytes, same_bytes};
use crate::text::same_text;

verus! {

/// A host resource that a restored machine needs again.
#[derive(Debug)]
pub struct SnapshotAttachment {
    pub stable_id: String,
    pub kind: String,
    pub required: bool,
    pub reconnect_policy: String,
    pub identity_kind: String,
    pub identity: Vec<u8>,
    pub length: u64,
    pub reconnect_timeout_ms: u64,
}

/// The mathematical value of a [`SnapshotAttachment`].
pub struct Attachment {
    pub stable_id: Seq<char>,
    pub kind: Seq<char>,
    pub required: bool,
    pub reconnect_policy: Seq<char>,
    pub identity_kind: Seq<char>,
    pub identity: Seq<u8>,
    pub length: nat,
    pub reconnect_timeout_ms: nat,
}

impl View for SnapshotAttachment {
    type V = Attachment;

    open spec fn view(&self) -> Attachment {
        Attachment {
            stable_id: self.stable_id@,
            kind: self.kind@,
            required: self.required,
            reconnect_policy: self.reconnect_policy@,
            identity_kind: self.identity_kind@,
            identity: self.identity@,
            length: self.length as nat,
            reconnect_timeout_ms: self.reconnect_timeout_ms as nat,
        }
    }
}

impl SnapshotAttachment {
    /// Whether two attachments are the same in every field.
    pub fn same(&self, other: &SnapshotAttachment) -> (same: bool)
        ensures
            same == (self@ == other@),
    {
        same_text(self.stable_id.as_str(), other.stable_id.as_str()) && same_text(
            self.kind.as_str(),
            other.kind.as_str(),
        ) && self.required == other.required && same_text(
            self.reconnect_policy.as_str(),
            other.reconnect_policy.as_str(),
        ) && same_text(self.identity_kind.as_str(), other.identity_kind.as_str()) && same_bytes(
            self.identity.as_slice(),
            other.identity.as_slice(),
        ) && self.length == other.length && self.reconnect_timeout_ms
            == other.reconnect_timeout_ms
    }

    /// A copy of the attachment.
    pub fn duplicate(&self) -> (r: SnapshotAttachment)
        ensures
            r@ == self@,
    {
        SnapshotAttachment {
            stable_id: self.stable_id.clone(),
            kind: self.kind.clone(),
            required: self.required,
            reconnect_policy: self.reconnect_policy.clone(),
            identity_kind: self.identity_kind.clone(),
            identity: copy_bytes(self.identity.as_slice()),
            length: self.length,
            reconnect_timeout_ms: self.reconnect_timeout_ms,
        }
    }
}

/// A device in the machine's inventory.
#[derive(Debug)]
pub struct SnapshotDevice {
    pub stable_id: String,
}

/// The saved static network identity and egress policy.
#[derive(Debug)]
pub struct SnapshotMicrovmNetwork {
    pub profile: String,
    pub guest_ipv4: u32,
    pub prefix_length: u32,
    pub gateway_ipv4: u32,
    pub guest_mac: Vec<u8>,
    pub gateway_mac: Vec<u8>,
    pub egress_policy_encoding_version: u32,
    pub egress_policy_sha256: Vec<u8>,
}

/// The mathematical value of a [`SnapshotMicrovmNetwork`].
pub struct SavedNetwork {
    pub profile: Seq<char>,
    pub guest_ipv4: nat,
    pub prefix_length: nat,
    pub gateway_ipv4: nat,
    pub guest_mac: Seq<u8>,
    pub gateway_mac: Seq<u8>,
    pub egress_policy_encoding_version: nat,
    pub egress_policy_sha256: Seq<u8>,
}

impl View for SnapshotMicrovmNetwork {
    type V = SavedNetwork;

    open spec fn view(&self) -> SavedNetwork {
        SavedNetwork {
            profile: self.profile@,
            guest_ipv4: self.guest_ipv4 as nat,
            prefix_length: self.prefix_length as nat,
            gateway_ipv4: self.gateway_ipv4 as nat,
            guest_mac: self.guest_mac@,
            gateway_mac: self.gateway_mac@,
            egress_policy_encoding_version: self.egress_policy_encoding_version as nat,
            egress_policy_sha256: self.egress_policy_sha256@,
        }
    }
}

/// The saved filesystem policy.
#[derive(Debug)]
pub struct SnapshotMicrovmFilesystem {
    pub guest_mount_target: String,
    pub access_mode: String,
    pub canonical_host_path: String,
}

/// A block device of the sandbox, and where its contents are.
#[derive(Debug)]
pub struct SnapshotMicrovmSandboxBlock {
    /// What the device is for.
    pub role: String,
    pub read_only: bool,
    /// The bytes of its contents.
    pub length: u64,
    pub identity_kind: String,
    pub identity: Vec<u8>,
    /// The snapshot file that holds the contents, or nothing.
    pub artifact: String,
}

/// A range of guest memory that a restore adds.
#[derive(Clone, Copy, Debug, PartialEq, Eq, Structural)]
pub struct SnapshotMemoryExpansionRange {
    pub gpa_start: u64,
    pub length: u64,
}

/// The restore-attachable filesystem slot capability.
pub const MICROVM_FILESYSTEM_SLOT_VERSION: u32 = 1;

/// The authoritative description of the machine a snapshot was taken of.
#[derive(Debug)]
pub struct SnapshotMachineContract {
    pub machine_profile: String,
    pub microvm_abi_version: u32,
    pub source_hypervisor: String,
    pub effective_command_line: String,
    pub devices: Vec<SnapshotDevice>,
    pub attachments: Vec<SnapshotAttachment>,
    pub microvm_network: Option<SnapshotMicrovmNetwork>,
    pub microvm_filesystem: Option<SnapshotMicrovmFilesystem>,
    pub microvm_filesystem_slot_version: u32,
    pub microvm_sandbox_blocks: Vec<SnapshotMicrovmSandboxBlock>,
    /// Zero where the machine cannot grow.
    pub memory_expansion_version: u32,
    pub memory_capacity_bytes: u64,
    pub state_unit_names: Vec<String>,
    pub tsc_frequency_hz: u64,
    pub apic_frequency_hz: Option<u64>,
    pub cpu_contract: Vec<u8>,
}

/// Some device of the inventory has this identifier.
pub open spec fn has_device(devices: Seq<SnapshotDevice>, id: Seq<char>) -> bool {
    exists|i: int| 0 <= i < devices.len() && (#[trigger] devices[i]).stable_id@ == id
}

/// The first attachment with this identifier.
pub open spec fn find_attachment(list: Seq<SnapshotAttachment>, id: Seq<char>) -> Option<Attachment>
    decreases list.len(),
{
    if list.len() == 0 {
        None
    } else if list[0].stable_id@ == id {
        Some(list[0]@)
    } else {
        find_attachment(list.skip(1), id)
    }
}

impl SnapshotMachineContract {
    pub fn has_device(&self, id: &str) -> (b: bool)
        ensures
            b == has_device(self.devices@, id@),
    {
        let mut i: usize = 0;
        while i < self.devices.len()
            invariant
                i <= self.devices@.len(),
                forall|k: int| 0 <= k < i ==> (#[trigger] self.devices@[k]).stable_id@ != id@,
            decreases self.devices@.len() - i,
        {
            if same_text(self.devices[i].stable_id.as_str(), id) {
                return true;
            }
            i += 1;
        }
        false
    }

    pub fn attachment(&self, id: &str) -> (r: Option<&SnapshotAttachment>)
        ensures
            match r {
                Some(a) => find_attachment(self.attachments@, id@) == Some(a@),
                None => find_attachment(self.attachments@, id@) is None,
            },
    {
        let mut i: usize = 0;
        assert(self.attachments@.skip(0) =~= self.attachments@);
        while i < self.attachments.len()
            invariant
                i <= self.attachments@.len(),
                find_attachment(self.attachments@, id@) == find_attachment(
                    self.attachments@.skip(i as int),
                    id@,
                ),
            decreases self.attachments@.len() - i,
        {
            proof {
                assert(self.attachments@.skip(i as int)[0] == self.attachments@[i as int]);
                assert(self.attachments@.skip(i as int).skip(1) =~= self.attachments@.skip(i + 1));
            }
            if same_text(self.attachments[i].stable_id.as_str(), id) {
                return Some(&self.attachments[i]);
            }
            i += 1;
        }
        None
    }
}

} // verus!
