//! Why a registry operation did not succeed.

use vstd::prelude::*;

verus! {

/// Why a registry operation did not succeed.
#[derive(Clone, Copy, Debug, PartialEq, Eq, Structural)]
pub enum RegistryError {
    /// The session id cannot name files of the workers directory.
    InvalidSessionId,
    /// The workers directory or the generation lock could not be had.
    Lock,
    /// The record file exists and could not be read.
    Read,
    /// The record file holds no worker record.
    Parse,
    /// The record could not be written.
    Write,
    /// The workers directory could not be read.
    ReadDir,
    /// An entry of the workers directory could not be read.
    DirEntry,
    /// A reply came that does not answer what the operation had asked for.
    UnexpectedReply,
}

}
