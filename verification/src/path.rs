use vstd::prelude::*;
use crate::errors::ProvisionError;

verus! {

/// A filesystem path for the named pipe, held as bytes with no interior
/// terminator byte, so that it can be handed to an operating-system call
/// with a single terminator appended.
#[derive(Debug, Clone)]
pub struct PipePath {
    bytes: Vec<u8>,
}

impl View for PipePath {
    type V = Seq<u8>;

    closed spec fn view(&self) -> Seq<u8> {
        self.bytes@
    }
}

impl PipePath {
    /// The path bytes hold no terminator byte.
    pub open spec fn wf(&self) -> bool {
        forall|i: int| 0 <= i < self@.len() ==> self@[i] != 0
    }

    /// Accept the path bytes exactly when none of them is a terminator byte.
    pub fn new(bytes: Vec<u8>) -> (r: Result<PipePath, ProvisionError>)
        ensures
            r is Ok <==> (forall|i: int| 0 <= i < bytes@.len() ==> bytes@[i] != 0),
            (r matches Ok(p) ==> p@ == bytes@ && p.wf()),
            (r matches Err(e) ==> e is PathEncoding),
    {
        let mut i: usize = 0;
        while i < bytes.len()
            invariant
                i <= bytes.len(),
                forall|j: int| 0 <= j < i ==> bytes@[j] != 0,
            decreases bytes.len() - i,
        {
            if bytes[i] == 0 {
                return Err(ProvisionError::PathEncoding);
            }
            i += 1;
        }
        Ok(PipePath { bytes })
    }

    /// The bytes of the path, as they were accepted.
    pub fn bytes(&self) -> (r: &Vec<u8>)
        ensures
            r@ == self@,
    {
        &self.bytes
    }

    /// The path with the single terminator byte appended, in the form an
    /// operating-system call takes it.
    pub fn terminated(&self) -> (r: Vec<u8>)
        ensures
            r@ == self@.push(0u8),
    {
        let mut out: Vec<u8> = Vec::new();
        let mut i: usize = 0;
        while i < self.bytes.len()
            invariant
                i <= self.bytes.len(),
                out@ == self@.take(i as int),
            decreases self.bytes.len() - i,
        {
            out.push(self.bytes[i]);
            proof {
                assert(out@ =~= self@.take(i as int + 1));
            }
            i += 1;
        }
        out.push(0u8);
        proof {
            assert(self@.take(self@.len() as int) =~= self@);
        }
        out
    }
}

} // verus!
