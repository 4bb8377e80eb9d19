//! The closed classification of top-level site sections.
//!
//! A category is a route-matching guard: an unrecognized first path segment
//! makes the routing layer fall through to its not-found handling rather than
//! fail hard.  Every category maps to exactly one landing-page template.

use vstd::prelude::*;
use vstd::string::StringExecFns;

use crate::errors::ClassificationError;
use crate::text::str_eq;

verus! {

/// A top-level section of the site.
#[derive(Clone, Copy, Debug, PartialEq, Eq, Structural)]
pub enum Category {
    Governance,
    About,
    Community,
    Learn,
}

/// The category named by a path segment, if any.
pub open spec fn spec_parse(s: Seq<char>) -> Result<Category, ClassificationError> {
    if s == "governance"@ {
        Ok(Category::Governance)
    } else if s == "about"@ {
        Ok(Category::About)
    } else if s == "community"@ {
        Ok(Category::Community)
    } else if s == "learn"@ {
        Ok(Category::Learn)
    } else {
        Err(ClassificationError::UnknownCategory)
    }
}

impl Category {
    /// The category's name, as it appears in URLs and template paths.
    pub open spec fn spec_name(self) -> Seq<char> {
        match self {
            Category::Governance => "governance"@,
            Category::About => "about"@,
            Category::Community => "community"@,
            Category::Learn => "learn"@,
        }
    }

    /// The template identifier of the category's landing page.  Total over
    /// the closed set: every category has exactly one canonical template path.
    pub open spec fn spec_index_template(self) -> Seq<char> {
        self.spec_name() + "/index"@
    }

    /// The category's name as a fresh string.
    pub fn name(&self) -> (s: String)
        ensures
            s@ == self.spec_name(),
    {
        match self {
            Category::Governance => "governance".to_owned(),
            Category::About => "about".to_owned(),
            Category::Community => "community".to_owned(),
            Category::Learn => "learn".to_owned(),
        }
    }

    /// The template identifier of the category's landing page.
    pub fn index_template(&self) -> (s: String)
        ensures
            s@ == self.spec_index_template(),
    {
        self.name().concat("/index")
    }

    /// The template identifier of a subject page under this category.
    pub fn subject_page(&self, subject: &str) -> (s: String)
        ensures
            s@ == self.spec_name() + "/"@ + subject@,
    {
        self.name().concat("/").concat(subject)
    }

    /// Classifies a path segment as a route guard.  An unrecognized segment
    /// fails with `UnknownCategory`, which the caller treats as an unmatched
    /// route rather than a hard error.
    pub fn parse(segment: &str) -> (r: Result<Category, ClassificationError>)
        ensures
            r == spec_parse(segment@),
    {
        if str_eq(segment, "governance") {
            Ok(Category::Governance)
        } else if str_eq(segment, "about") {
            Ok(Category::About)
        } else if str_eq(segment, "community") {
            Ok(Category::Community)
        } else if str_eq(segment, "learn") {
            Ok(Category::Learn)
        } else {
            Err(ClassificationError::UnknownCategory)
        }
    }
}

} // verus!
