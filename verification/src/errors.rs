//! The session's typed failures.
//!
//! Every failure surfaced by the coordination core is one of these; none is
//! silently swallowed. The one deliberate exception — the rebuild worker
//! becoming unreachable — is not an error at all: it degrades the session to
//! "no further spatial-index updates" instead of failing a step.

use vstd::prelude::*;

verus! {

/// Which required configuration path was found empty at construction.
#[derive(Clone, Copy, PartialEq, Eq, Structural, Debug)]
pub enum ConfigField {
    ScenePath,
    OutputPath,
}

/// Why a derived edge parameter record could not be built.
#[derive(Clone, Copy, PartialEq, Eq, Structural, Debug)]
pub enum IntegrityFault {
    /// A non-rod edge's neighbor list names a face that does not exist.
    InvalidFaceIndex { edge: usize, face: usize },
    /// A non-rod edge's neighboring faces contribute no positive area, so
    /// area-weighted averaging is undefined for it.
    ZeroNeighborArea { edge: usize },
}

/// A failure surfaced to the session's caller.
#[derive(Debug)]
pub enum SessionError {
    /// A required configuration path was empty.
    Configuration { field: ConfigField },
    /// A resume artifact was missing; `path` names the expected file.
    Io { path: String },
    /// The solver boundary rejected `initialize`.
    InitializationFailure,
    /// The solver boundary reported a failed `advance`; simulation time is
    /// left unmodified.
    StepFailure,
    /// A vertex override carried the wrong number of scalars, or the stable
    /// buffers were found at a size other than the original vertex count.
    SizeMismatch { expected: usize, actual: usize },
    /// A derived edge parameter record was inconsistent with the mesh.
    DataIntegrity { fault: IntegrityFault },
}

} // verus!
