//! The error taxonomy of the library.
//!
//! Classification failures are route-guard conditions: the caller treats the
//! request as unmatched.  A missing record for the primary subject of a
//! resolution is surfaced as [`ResolveError::GroupNotFound`]; a malformed or
//! duplicated underlying record is a [`RepositoryError`], reported at load
//! time.

use vstd::prelude::*;

verus! {

/// An inbound path segment named no member of a closed classification.
#[derive(Clone, Copy, Debug, PartialEq, Eq, Structural)]
pub enum ClassificationError {
    /// The segment is none of the four canonical group-type strings.
    UnknownGroupType,
    /// The segment names no top-level site section.
    UnknownCategory,
}

/// No record exists for a requested exact (group type, slug) key.
#[derive(Clone, Copy, Debug, PartialEq, Eq, Structural)]
pub struct NotFound;

/// The underlying content store handed the repository an unusable record set.
#[derive(Debug)]
pub enum RepositoryError {
    /// Two records share one (group type, slug) key, which must be unique.
    DuplicateKey { group_type: crate::group_type::GroupType, slug: String },
    /// A record could not be read in the expected shape.  `record` names the
    /// offending record and `detail` says what was expected.
    MalformedRecord { record: String, detail: String },
}

/// A resolution failed as a whole.
#[derive(Clone, Copy, Debug, PartialEq, Eq, Structural)]
pub enum ResolveError {
    /// The primary subject of the resolution has no record; the requested
    /// page does not exist.
    GroupNotFound,
}

} // verus!
