//! Errors of logging setup.
//!
//! Resolution and aggregation abort on the first of these; sink assembly
//! recovers from them by falling back to a console-only logger.

use vstd::prelude::*;

verus! {

/// Why logging setup failed.
#[derive(Debug)]
pub enum SetupError {
    /// A raw destination could not be turned into a canonical path: the
    /// parent chain is unusable or canonicalization failed. Carries the
    /// original raw string for diagnostics.
    PathUnresolvable { raw: String },
    /// Intermediate directories required by a destination could not be
    /// created. Carries the original raw string for diagnostics.
    DirectoryCreationFailed { raw: String },
    /// A destination resolved but could not be opened for writing at
    /// assembly time.
    SinkOpenFailed { path: String },
    /// The combined sink list could not be installed as the active backend,
    /// for instance because a backend was installed already.
    BackendInstallationFailed,
}

/// The resolution errors at the level of the filesystem model: the same
/// two ways a single destination can fail, over character sequences.
pub ghost enum ResolveError {
    Unresolvable { raw: Seq<char> },
    CreationFailed { raw: Seq<char> },
}

/// How an executable resolution result corresponds to a result of the
/// filesystem model.
pub open spec fn result_matches(
    r: Result<String, SetupError>,
    m: Result<Seq<char>, ResolveError>,
) -> bool {
    match m {
        Ok(c) => r matches Ok(s) && s@ == c,
        Err(ResolveError::Unresolvable { raw }) => r matches Err(SetupError::PathUnresolvable {
            raw: s,
        }) && s@ == raw,
        Err(ResolveError::CreationFailed { raw }) => r matches Err(
            SetupError::DirectoryCreationFailed { raw: s },
        ) && s@ == raw,
    }
}

} // verus!
