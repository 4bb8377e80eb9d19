//! A single governance unit and its mathematical view.
//!
//! A group record carries its type, its stable slug, a display name, an
//! optional description, an optional list of member references, and an
//! optional reference to the parent it declares.  Children are never embedded:
//! they are discovered by repository query.

use vstd::prelude::*;

use crate::group_type::GroupType;

verus! {

/// A reference to the parent a group declares, by the parent's composite key.
#[derive(Debug, PartialEq, Eq)]
pub struct ParentRef {
    pub group_type: GroupType,
    pub slug: String,
}

/// One governance group, as loaded from the content store.
#[derive(Debug, PartialEq, Eq)]
pub struct Group {
    /// Which namespace the group lives in.
    pub group_type: GroupType,
    /// The stable identifier used in lookups and URLs.
    pub slug: String,
    /// The display name.
    pub name: String,
    /// An optional free-form description.
    pub description: Option<String>,
    /// An optional list of member references.
    pub members: Option<Vec<String>>,
    /// The parent this group declares, if any.  A group without a parent is
    /// a top-level group.
    pub parent: Option<ParentRef>,
}

/// The mathematical value of a [`ParentRef`].
pub ghost struct ParentRefView {
    pub group_type: GroupType,
    pub slug: Seq<char>,
}

/// The mathematical value of a [`Group`]: every string replaced by its
/// character sequence.
pub ghost struct GroupView {
    pub group_type: GroupType,
    pub slug: Seq<char>,
    pub name: Seq<char>,
    pub description: Option<Seq<char>>,
    pub members: Option<Seq<Seq<char>>>,
    pub parent: Option<ParentRefView>,
}

impl DeepView for ParentRef {
    type V = ParentRefView;

    open spec fn deep_view(&self) -> ParentRefView {
        ParentRefView { group_type: self.group_type, slug: self.slug@ }
    }
}

impl DeepView for Group {
    type V = GroupView;

    open spec fn deep_view(&self) -> GroupView {
        GroupView {
            group_type: self.group_type,
            slug: self.slug@,
            name: self.name@,
            description: match self.description {
                Some(d) => Some(d@),
                None => None,
            },
            members: match self.members {
                Some(ref m) => Some(m.deep_view()),
                None => None,
            },
            parent: match self.parent {
                Some(ref p) => Some(p.deep_view()),
                None => None,
            },
        }
    }
}

/// Copies a list of strings, element for element.
fn clone_strings(v: &Vec<String>) -> (r: Vec<String>)
    ensures
        r@ == v@,
{
    let mut r: Vec<String> = Vec::new();
    let n = v.len();
    for i in 0..n
        invariant
            n == v.len(),
            r@ == v@.take(i as int),
    {
        r.push(v[i].clone());
        proof {
            assert(r@ =~= v@.take(i + 1));
        }
    }
    proof {
        assert(v@.take(n as int) =~= v@);
    }
    r
}

impl Clone for Group {
    /// A fresh record with the same mathematical value.
    fn clone(&self) -> (r: Self)
        ensures
            r.deep_view() == self.deep_view(),
    {
        let r = Group {
            group_type: self.group_type,
            slug: self.slug.clone(),
            name: self.name.clone(),
            description: match &self.description {
                Some(d) => Some(d.clone()),
                None => None,
            },
            members: match &self.members {
                Some(m) => Some(clone_strings(m)),
                None => None,
            },
            parent: match &self.parent {
                Some(p) => Some(ParentRef { group_type: p.group_type, slug: p.slug.clone() }),
                None => None,
            },
        };
        proof {
            match self.members {
                Some(ref m) => {
                    assert(r.members->0.deep_view() =~= m.deep_view());
                },
                None => {},
            }
        }
        r
    }
}

} // verus!
