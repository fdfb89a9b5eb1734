//! Named-pipe (FIFO) provisioning and errno-message resolution.
//!
//! The library decides how a FIFO is provisioned at a filesystem path and
//! how a raw OS error code's message buffer is turned into a message, with
//! every decision verified. The raw OS calls themselves (probing a path,
//! creating the FIFO, filling the message buffer) are made by the caller,
//! which hands their plain results to these functions.

pub mod errno;
pub mod errors;
pub mod path;
pub mod provision;
