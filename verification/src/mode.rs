//! Open mode of a database handle.
use vstd::prelude::*;

use crate::error::HelixDbError;

verus! {

/// Open mode of a database handle.
#[derive(Debug, Clone, Copy, PartialEq, Eq, Structural)]
pub enum HelixDbMode {
    /// Read-only handle.
    ReadOnly,
    /// Read/write handle.
    Writer,
}

impl HelixDbMode {
    /// Stable lowercase name of the mode.
    pub open spec fn name(self) -> Seq<char> {
        match self {
            HelixDbMode::ReadOnly => "reader"@,
            HelixDbMode::Writer => "writer"@,
        }
    }

    /// Stable lowercase name for diagnostics and errors.
    pub fn as_str(self) -> (name: &'static str)
        ensures
            name@ == self.name(),
    {
        match self {
            HelixDbMode::ReadOnly => "reader",
            HelixDbMode::Writer => "writer",
        }
    }

    /// Whether a failure says that a handle in this mode cannot write.
    pub open spec fn is_refusal(self, error: HelixDbError) -> bool {
        self is ReadOnly && (error matches HelixDbError::WriterModeRequired { actual } && actual@
            == self.name())
    }

    /// Refuses work that only a writer can do.
    pub fn require_writer(self) -> (allowed: Result<(), HelixDbError>)
        ensures
            allowed is Ok <==> self is Writer,
            allowed matches Err(error) ==> self.is_refusal(error),
    {
        match self {
            HelixDbMode::Writer => Ok(()),
            HelixDbMode::ReadOnly => Err(
                HelixDbError::WriterModeRequired { actual: self.as_str() },
            ),
        }
    }
}

/// Only a reader is refused what a writer may do, and the failure names it.
pub proof fn law_only_readers_are_refused(mode: HelixDbMode, error: HelixDbError)
    ensures
        mode.is_refusal(error) ==> mode is ReadOnly && (error matches
            HelixDbError::WriterModeRequired { actual } && actual@ == "reader"@),
        HelixDbMode::ReadOnly.name() == "reader"@,
        HelixDbMode::Writer.name() == "writer"@,
{
}

} // verus!
