//! The closed classification of governance groups.
//!
//! Each group type has a canonical lowercase plural string form, used both as
//! a key in presentation mappings and as a URL path segment.  Parsing accepts
//! exactly the four canonical forms; stringifying is total and is the exact
//! inverse of parsing on those forms.

use vstd::prelude::*;

use crate::errors::ClassificationError;
use crate::text::str_eq;

verus! {

/// The kind of a governance group.
#[derive(Clone, Copy, Debug, PartialEq, Eq, Structural)]
pub enum GroupType {
    Team,
    WorkingGroup,
    Peer,
    Shepherd,
}

/// The group type named by a path segment, if the segment is one of the four
/// canonical forms.
pub open spec fn spec_parse(s: Seq<char>) -> Result<GroupType, ClassificationError> {
    if s == "teams"@ {
        Ok(GroupType::Team)
    } else if s == "wgs"@ {
        Ok(GroupType::WorkingGroup)
    } else if s == "peers"@ {
        Ok(GroupType::Peer)
    } else if s == "shepards"@ {
        Ok(GroupType::Shepherd)
    } else {
        Err(ClassificationError::UnknownGroupType)
    }
}

impl GroupType {
    /// The canonical string form of this group type.
    pub open spec fn spec_str(self) -> Seq<char> {
        match self {
            GroupType::Team => "teams"@,
            GroupType::WorkingGroup => "wgs"@,
            GroupType::Peer => "peers"@,
            GroupType::Shepherd => "shepards"@,
        }
    }

    /// The canonical string form, total over the closed set.
    pub fn to_string(&self) -> (s: String)
        ensures
            s@ == self.spec_str(),
    {
        match self {
            GroupType::Team => "teams".to_owned(),
            GroupType::WorkingGroup => "wgs".to_owned(),
            GroupType::Peer => "peers".to_owned(),
            GroupType::Shepherd => "shepards".to_owned(),
        }
    }

    /// Classifies a path segment.  Exactly the four canonical plural forms
    /// are accepted; anything else fails with `UnknownGroupType`.
    pub fn parse(segment: &str) -> (r: Result<GroupType, ClassificationError>)
        ensures
            r == spec_parse(segment@),
    {
        if str_eq(segment, "teams") {
            Ok(GroupType::Team)
        } else if str_eq(segment, "wgs") {
            Ok(GroupType::WorkingGroup)
        } else if str_eq(segment, "peers") {
            Ok(GroupType::Peer)
        } else if str_eq(segment, "shepards") {
            Ok(GroupType::Shepherd)
        } else {
            Err(ClassificationError::UnknownGroupType)
        }
    }
}

/// Stringifying the group type parsed from a canonical segment gives back
/// exactly that segment: parsing and stringifying round-trip on the four
/// canonical forms.
pub proof fn lemma_parse_round_trip(s: Seq<char>)
    requires
        spec_parse(s) is Ok,
    ensures
        spec_parse(s)->Ok_0.spec_str() == s,
{
}

} // verus!
