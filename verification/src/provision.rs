use vstd::prelude::*;
use crate::errors::ProvisionError;

verus! {

/// Mask of the file-type bits inside a mode word.
pub const FILE_TYPE_MASK: u32 = 0o170000;

/// File-type bits of a FIFO inside a mode word.
pub const FIFO_TYPE: u32 = 0o010000;

/// Owner read/write permission bits requested when the FIFO is created.
pub const FIFO_PERMISSIONS: u32 = 0o600;

/// A mode word describes a FIFO exactly when its type bits equal `FIFO_TYPE`.
pub open spec fn is_fifo_mode(mode: u32) -> bool {
    mode & FILE_TYPE_MASK == FIFO_TYPE
}

/// What a probe of the target path reported: no entry at all, or an entry
/// together with its mode word.
#[derive(Debug, Clone, Copy, PartialEq, Eq, Structural)]
pub enum EntryProbe {
    Missing,
    Present { mode: u32 },
}

/// The step to take after a probe: keep what stands there, or ask the
/// operating system to create the FIFO.
#[derive(Debug, Clone, Copy, PartialEq, Eq, Structural)]
pub enum ProvisionAction {
    Keep,
    CreateFifo,
}

/// The provisioning decision: a missing entry calls for creation, an
/// existing FIFO is kept as it is, and any other entry is an error.
pub open spec fn plan_spec(probe: EntryProbe) -> Result<ProvisionAction, ProvisionError> {
    match probe {
        EntryProbe::Missing => Ok(ProvisionAction::CreateFifo),
        EntryProbe::Present { mode } => if is_fifo_mode(mode) {
            Ok(ProvisionAction::Keep)
        } else {
            Err(ProvisionError::UnexpectedFileType)
        },
    }
}

/// Decide the provisioning step for what a probe of the target path found.
pub fn plan(probe: &EntryProbe) -> (r: Result<ProvisionAction, ProvisionError>)
    ensures
        r == plan_spec(*probe),
{
    match probe {
        EntryProbe::Missing => Ok(ProvisionAction::CreateFifo),
        EntryProbe::Present { mode } => if *mode & FILE_TYPE_MASK == FIFO_TYPE {
            Ok(ProvisionAction::Keep)
        } else {
            Err(ProvisionError::UnexpectedFileType)
        },
    }
}

/// Whether a mode word reported for a filesystem entry describes a FIFO.
pub fn is_fifo(mode: u32) -> (r: bool)
    ensures
        r == is_fifo_mode(mode),
{
    mode & FILE_TYPE_MASK == FIFO_TYPE
}

/// Interpret the return value of the creation call: zero is success, and
/// anything else is reported with the error code captured immediately after
/// the failing call and its resolved message bytes. A failure is never
/// retried: its cause would recur identically.
pub fn creation_outcome(ret: i32, code: i32, message: Vec<u8>) -> (r: Result<(), ProvisionError>)
    ensures
        r is Ok <==> ret == 0,
        ret != 0 ==> (r matches Err(e)
            && e matches ProvisionError::Creation { code: c, message: m }
            && c == code && m@ == message@),
{
    if ret == 0 {
        Ok(())
    } else {
        Err(ProvisionError::Creation { code, message })
    }
}

/// After the operating system creates a FIFO, the entry's mode word carries
/// the FIFO type bits beside the requested permission bits, so a type query
/// on the fresh entry reports a FIFO.
pub proof fn lemma_created_mode_is_fifo(perm: u32)
    requires
        perm & FILE_TYPE_MASK == 0,
    ensures
        is_fifo_mode(FIFO_TYPE | perm),
{
    assert((0o010000u32 | perm) & 0o170000u32 == 0o010000u32) by (bit_vector)
        requires
            perm & 0o170000u32 == 0,
    ;
}

/// Provisioning is idempotent: once a FIFO stands at the path — in
/// particular right after a successful creation — a further run keeps it
/// and succeeds, planning no second creation.
pub proof fn lemma_plan_idempotent(mode: u32)
    requires
        is_fifo_mode(mode),
    ensures
        plan_spec(EntryProbe::Present { mode }) == Ok::<ProvisionAction, ProvisionError>(
            ProvisionAction::Keep,
        ),
{
}

/// A pre-existing entry of any other type is reported as unexpected; no
/// creation step is planned, so the entry is left untouched.
pub proof fn lemma_non_fifo_rejected(mode: u32)
    requires
        !is_fifo_mode(mode),
    ensures
        plan_spec(EntryProbe::Present { mode }) == Err::<ProvisionAction, ProvisionError>(
            ProvisionError::UnexpectedFileType,
        ),
{
}

} // verus!
