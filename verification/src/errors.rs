use vstd::prelude::*;

verus! {

/// Why provisioning a named pipe failed.
#[derive(Debug, Clone)]
pub enum ProvisionError {
    /// The requested path holds an interior terminator byte, so it cannot be
    /// handed to the operating system as a terminated string.
    PathEncoding,
    /// A filesystem entry already exists at the requested path but is not a
    /// FIFO; it is reported rather than silently overwritten.
    UnexpectedFileType,
    /// The operating system refused to create the FIFO. Carries the error
    /// code captured right after the failing call and the resolved message
    /// bytes.
    Creation { code: i32, message: Vec<u8> },
}

/// The fixed-size OS message buffer held no terminator byte within its
/// bound, so no message could be resolved from it.
#[derive(Debug, Clone)]
pub struct MessageResolutionError;

} // verus!
