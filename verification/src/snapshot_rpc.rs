//! Management requests while a microVM snapshot boundary is active.

use vstd::prelude::*;

use crate::rpc::{PulseSaveRestoreError, RemoteError, VmRpc};

verus! {

/// The text that a refused mutation is answered with.
pub const SNAPSHOT_BOUNDARY_ACTIVE: &'static str =
    "VM mutation is unavailable while a microVM snapshot boundary is active";

/// How a request that does not reach the worker is answered.
#[derive(Debug)]
pub enum RpcAnswer {
    /// The caller gets this failure.
    Failed(RemoteError),
    /// The caller of a save-and-restore pulse gets this failure.
    PulseFailed(PulseSaveRestoreError),
    /// The request cannot carry a failure: its reply channel is closed.
    Dropped,
}

/// The request belongs to the snapshot transaction itself, or only reads.
pub open spec fn allowed_at_boundary(message: VmRpc) -> bool {
    ||| message is QuiesceForSnapshot
    ||| message is ResumeAfterFailedSnapshot
    ||| message is ReleaseSnapshotBoundary
    ||| message is ReadMemory
}

/// The request's reply can only say that it was done.
pub open spec fn infallible(message: VmRpc) -> bool {
    message is Pause || message is ClearHalt || message is Nmi
}

/// The answer tells the caller that the boundary is active, in the form that the
/// request's reply has.
pub open spec fn answers(message: VmRpc, answer: RpcAnswer) -> bool {
    if infallible(message) {
        answer is Dropped
    } else if message is PulseSaveRestore {
        answer is PulseFailed && answer->PulseFailed_0 is Other
            && answer->PulseFailed_0->Other_0@ == SNAPSHOT_BOUNDARY_ACTIVE@
    } else {
        answer is Failed && answer->Failed_0@ == SNAPSHOT_BOUNDARY_ACTIVE@
    }
}

/// Passes a request on to the worker, or answers it at once when it would change
/// the machine across an active snapshot boundary.
pub fn filter(message: VmRpc, boundary_active: bool) -> (r: Result<VmRpc, RpcAnswer>)
    ensures
        match r {
            Ok(delivered) => delivered == message && (!boundary_active || allowed_at_boundary(
                message,
            )),
            Err(answer) => boundary_active && !allowed_at_boundary(message) && answers(
                message,
                answer,
            ),
        },
{
    if !boundary_active {
        return Ok(message);
    }
    let pulse: bool = match &message {
        VmRpc::QuiesceForSnapshot { .. }
        | VmRpc::ResumeAfterFailedSnapshot { .. }
        | VmRpc::ReleaseSnapshotBoundary
        | VmRpc::ReadMemory(_, _) => return Ok(message),
        VmRpc::Pause | VmRpc::ClearHalt | VmRpc::Nmi(_) => return Err(RpcAnswer::Dropped),
        VmRpc::PulseSaveRestore => true,
        _ => false,
    };
    let error = RemoteError { message: SNAPSHOT_BOUNDARY_ACTIVE.to_owned() };
    if pulse {
        Err(RpcAnswer::PulseFailed(PulseSaveRestoreError::Other(error)))
    } else {
        Err(RpcAnswer::Failed(error))
    }
}

} // verus!
