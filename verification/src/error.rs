//! Why a launch of the server failed.

use vstd::prelude::*;

verus! {

/// The one kind of failure that the supervisor distinguishes: the server
/// process could not be started. The variants say why.
#[derive(Clone, Copy, Debug, PartialEq, Eq, Structural)]
pub enum ProcessSpawnError {
    /// No file at the resolved path of the executable, or no bundle to
    /// resolve the path in.
    ExecutableMissing,
    /// The file is there but may not be executed.
    NotExecutable,
    /// The operating system had no resources left for another process.
    ResourcesExhausted,
    /// Any other refusal, the location of the running binary being
    /// unknown among them.
    Refused,
}

} // verus!
