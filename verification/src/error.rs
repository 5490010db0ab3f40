//! The ways in which reading or writing a container can fail.

use vstd::prelude::*;

verus! {

/// Why an operation on a container was refused.
#[derive(Debug, Clone, Copy, PartialEq, Eq, Structural)]
pub enum HermesError {
    /// The bytes end early, or a field holds a value the format does not allow.
    MalformedInput,
    /// The header names a bytecode version that has no opcode table here.
    UnsupportedVersion,
    /// The footer is not the SHA-1 of the bytes before it.
    IntegrityFailure,
    /// The in-memory model contradicts itself (a flag claims data that is
    /// absent, an index points outside its table, a size does not fit its field).
    InternalConsistency,
}

impl HermesError {
    /// A short human-readable description of the failure.
    pub fn message(&self) -> (s: &'static str)
        ensures
            s@ == match *self {
                HermesError::MalformedInput => "malformed input"@,
                HermesError::UnsupportedVersion => "unsupported bytecode version"@,
                HermesError::IntegrityFailure => "footer hash mismatch"@,
                HermesError::InternalConsistency => "inconsistent file model"@,
            },
    {
        match self {
            HermesError::MalformedInput => "malformed input",
            HermesError::UnsupportedVersion => "unsupported bytecode version",
            HermesError::IntegrityFailure => "footer hash mismatch",
            HermesError::InternalConsistency => "inconsistent file model",
        }
    }
}

} // verus!
