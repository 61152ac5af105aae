//! Handle for the platform file-loading collaborator.
//!
//! Reading bytes from disk or over a fetch is I/O and lives outside the
//! verified core; the loading collaborator hands the core plain byte
//! vectors and strings.  This marker type names that collaborator in
//! signatures and keeps the boundary explicit.

use vstd::prelude::*;

verus! {

/// The platform file reader.  Its reading lives with the platform layer;
/// the core only ever sees the plain values it produces.
pub struct FileReader {}

} // verus!
