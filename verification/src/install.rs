//! Installing a program file only where it differs.

use vstd::prelude::*;

use crate::bytes::same_bytes;

verus! {

/// How much of two files is compared at a time.
pub const CHUNK_LEN: u64 = 0x4000;

/// The comparison of two files of the same length, as far as it has come.
#[derive(Clone, Copy, Debug, PartialEq, Eq, Structural)]
pub struct FileComparison {
    /// How many bytes are still to be compared.
    pub remaining: u64,
}

/// How many bytes are compared next.
pub open spec fn next_chunk(remaining: u64) -> u64 {
    if remaining < CHUNK_LEN {
        remaining
    } else {
        CHUNK_LEN
    }
}

impl FileComparison {
    /// Starts a comparison, unless the lengths already tell the files apart.
    pub fn start(source_len: u64, destination_len: u64) -> (r: Option<FileComparison>)
        ensures
            r is Some <==> source_len == destination_len,
            r is Some ==> r->0.remaining == source_len,
    {
        if source_len != destination_len {
            return None;
        }
        Some(FileComparison { remaining: source_len })
    }

    /// How many bytes of each file are wanted next; none once all were compared.
    pub fn wanted(&self) -> (n: usize)
        ensures
            n == next_chunk(self.remaining),
    {
        if self.remaining < CHUNK_LEN {
            self.remaining as usize
        } else {
            CHUNK_LEN as usize
        }
    }

    /// Compares the next bytes of the files.
    pub fn accept(&mut self, source: &[u8], destination: &[u8]) -> (same: bool)
        requires
            source@.len() == next_chunk(old(self).remaining),
            destination@.len() == source@.len(),
        ensures
            same == (source@ == destination@),
            final(self).remaining == old(self).remaining - source@.len(),
    {
        self.remaining = self.remaining - source.len() as u64;
        same_bytes(source, destination)
    }
}

/// Two files compare equal, chunk by chunk.
pub open spec fn chunks_match(source: Seq<u8>, destination: Seq<u8>) -> bool
    decreases source.len(),
{
    let n = next_chunk(source.len() as u64) as int;
    if source.len() == 0 || source.len() > u64::MAX || n > source.len() || n <= 0 {
        true
    } else {
        &&& source.take(n) == destination.take(n)
        &&& chunks_match(source.skip(n), destination.skip(n))
    }
}

/// Comparing two files of the same length chunk by chunk finds exactly whether they
/// are the same.
pub proof fn law_chunkwise_comparison_is_equality(source: Seq<u8>, destination: Seq<u8>)
    requires
        source.len() == destination.len(),
        source.len() <= u64::MAX,
    ensures
        chunks_match(source, destination) <==> source == destination,
    decreases source.len(),
{
    let n = next_chunk(source.len() as u64) as int;
    if source.len() == 0 {
        assert(source =~= destination);
    } else {
        law_chunkwise_comparison_is_equality(source.skip(n), destination.skip(n));
        assert(source =~= source.take(n) + source.skip(n));
        assert(destination =~= destination.take(n) + destination.skip(n));
    }
}

/// What is done to an installed file.
#[derive(Clone, Copy, Debug, PartialEq, Eq, Structural)]
pub enum InstallAction {
    /// Its contents are replaced.
    Copy,
    /// Only its permissions are set. The file may be in use.
    SetPermissions,
    Nothing,
}

/// Decides what is done to an installed file. A file that is already there is
/// never overwritten by the same contents.
pub fn install_action(same_contents: bool, same_permissions: bool) -> (r: InstallAction)
    ensures
        r == (if !same_contents {
            InstallAction::Copy
        } else if !same_permissions {
            InstallAction::SetPermissions
        } else {
            InstallAction::Nothing
        }),
{
    if !same_contents {
        InstallAction::Copy
    } else if !same_permissions {
        InstallAction::SetPermissions
    } else {
        InstallAction::Nothing
    }
}

/// Whether an installed file, if there is one, has the contents of a source.
pub fn contents_match(source: &Vec<u8>, destination: Option<&Vec<u8>>) -> (same: bool)
    ensures
        same == (destination is Some && destination->0@ == source@),
{
    let installed = match destination {
        Some(installed) => installed,
        None => return false,
    };
    let total: usize = source.len();
    let mut comparison = match FileComparison::start(total as u64, installed.len() as u64) {
        Some(comparison) => comparison,
        None => return false,
    };
    let mut at: usize = 0;
    while comparison.remaining > 0
        invariant
            destination == Some(installed),
            total == source@.len() == installed@.len(),
            at + comparison.remaining == total,
            source@.take(at as int) == installed@.take(at as int),
        decreases comparison.remaining,
    {
        let n: usize = comparison.wanted();
        let left = vstd::slice::slice_subrange(source.as_slice(), at, at + n);
        let right = vstd::slice::slice_subrange(installed.as_slice(), at, at + n);
        let same_chunk = comparison.accept(left, right);
        if !same_chunk {
            proof {
                if source@ == installed@ {
                    assert(left@ =~= right@);
                }
            }
            return false;
        }
        proof {
            assert(source@.take(at + n) =~= source@.take(at as int) + left@);
            assert(installed@.take(at + n) =~= installed@.take(at as int) + right@);
        }
        at += n;
    }
    proof {
        assert(source@.take(at as int) =~= source@);
        assert(installed@.take(at as int) =~= installed@);
    }
    true
}

} // verus!
