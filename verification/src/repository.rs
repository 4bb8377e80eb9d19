//! Read-only queries over the loaded group records.
//!
//! The repository holds every record of the content store in declaration
//! order and answers three queries: the single record for an exact
//! (group type, slug) key, the direct children of a parent along one
//! group-type axis, and the top-level groups of a type.  Result sequences
//! keep the store's declaration order, so repeated queries agree.

use vstd::prelude::*;

use crate::errors::{NotFound, RepositoryError};
use crate::group::{Group, GroupView};
use crate::group_type::GroupType;
use crate::text::str_eq;

verus! {

/// Whether `g` sits at the exact key (`group_type`, `slug`).
pub open spec fn key_matches(g: GroupView, group_type: GroupType, slug: Seq<char>) -> bool {
    g.group_type == group_type && g.slug == slug
}

/// Whether two records collide on the composite key that must be unique.
pub open spec fn same_key(a: GroupView, b: GroupView) -> bool {
    a.group_type == b.group_type && a.slug == b.slug
}

/// Whether no two distinct records of `s` share a (group type, slug) key.
pub open spec fn keys_unique(s: Seq<GroupView>) -> bool {
    forall|i: int, j: int| 0 <= i < j < s.len() ==> !same_key(s[i], s[j])
}

/// Whether some two distinct records of `s` both sit at (`group_type`, `slug`).
pub open spec fn has_duplicate_key(s: Seq<GroupView>, group_type: GroupType, slug: Seq<char>) -> bool {
    exists|i: int, j: int|
        0 <= i < j < s.len() && key_matches(s[i], group_type, slug) && key_matches(
            s[j],
            group_type,
            slug,
        )
}

/// Whether `g` is a direct child of the parent keyed (`parent_type`,
/// `parent_slug`) along the `child_type` axis: it is of the child type and
/// declares exactly that parent.
pub open spec fn is_child(
    g: GroupView,
    parent_type: GroupType,
    parent_slug: Seq<char>,
    child_type: GroupType,
) -> bool {
    g.group_type == child_type && match g.parent {
        Some(p) => p.group_type == parent_type && p.slug == parent_slug,
        None => false,
    }
}

/// Whether `g` is a top-level group of type `group_type`: it declares no
/// parent at all, resolvable or not.
pub open spec fn is_toplevel(g: GroupView, group_type: GroupType) -> bool {
    g.group_type == group_type && g.parent is None
}

/// The direct children of a parent along one axis, in declaration order.
pub open spec fn children_of(
    s: Seq<GroupView>,
    parent_type: GroupType,
    parent_slug: Seq<char>,
    child_type: GroupType,
) -> Seq<GroupView> {
    s.filter(|g: GroupView| is_child(g, parent_type, parent_slug, child_type))
}

/// The top-level groups of a type, in declaration order.
pub open spec fn toplevel_of(s: Seq<GroupView>, group_type: GroupType) -> Seq<GroupView> {
    s.filter(|g: GroupView| is_toplevel(g, group_type))
}

/// The loaded content store: one record per group, declaration order kept,
/// composite keys unique.
pub struct Repository {
    groups: Vec<Group>,
}

impl View for Repository {
    type V = Seq<GroupView>;

    closed spec fn view(&self) -> Seq<GroupView> {
        self.groups.deep_view()
    }
}

impl Repository {
    #[verifier::type_invariant]
    pub closed spec fn inv(self) -> bool {
        keys_unique(self.groups.deep_view())
    }

    /// What the type invariant guarantees of every repository value: the
    /// composite keys of its records are unique.
    pub proof fn lemma_keys_unique(&self)
        requires
            self.inv(),
        ensures
            keys_unique(self@),
    {
    }

    /// Builds a repository from the records of the content store, in the
    /// order the store declares them.  Fails loudly when two records collide
    /// on the (group type, slug) key that must identify a group uniquely.
    pub fn new(groups: Vec<Group>) -> (r: Result<Repository, RepositoryError>)
        ensures
            r is Ok <==> keys_unique(groups.deep_view()),
            match r {
                Ok(repo) => repo@ == groups.deep_view(),
                Err(e) => (e matches RepositoryError::DuplicateKey { group_type, slug }
                    && has_duplicate_key(groups.deep_view(), group_type, slug@)),
            },
    {
        let n = groups.len();
        for i in 0..n
            invariant
                n == groups.len(),
                forall|x: int, y: int|
                    0 <= x < y < i ==> !same_key(groups.deep_view()[x], groups.deep_view()[y]),
        {
            for j in 0..i
                invariant
                    i < n == groups.len(),
                    forall|x: int, y: int|
                        0 <= x < y < i ==> !same_key(groups.deep_view()[x], groups.deep_view()[y]),
                    forall|x: int|
                        0 <= x < j ==> !same_key(groups.deep_view()[x], groups.deep_view()[i as int]),
            {
                let dup = groups[j].group_type == groups[i].group_type && str_eq(
                    groups[j].slug.as_str(),
                    groups[i].slug.as_str(),
                );
                if dup {
                    proof {
                        let s = groups.deep_view();
                        let gt = s[i as int].group_type;
                        let sl = s[i as int].slug;
                        assert(key_matches(s[j as int], gt, sl));
                        assert(key_matches(s[i as int], gt, sl));
                        assert(has_duplicate_key(s, gt, sl));
                        assert(same_key(s[j as int], s[i as int]));
                        assert(!keys_unique(s));
                    }
                    return Err(
                        RepositoryError::DuplicateKey {
                            group_type: groups[i].group_type,
                            slug: groups[i].slug.clone(),
                        },
                    );
                }
            }
        }
        let repo = Repository { groups };
        Ok(repo)
    }

    /// How many records the store holds.
    pub fn len(&self) -> (n: usize)
        ensures
            n == self@.len(),
    {
        self.groups.len()
    }

    /// The single metadata record at the exact key (`group_type`, `slug`).
    /// Succeeds exactly when such a record exists; its absence is surfaced as
    /// `NotFound`, for the caller to judge.
    pub fn get_info(&self, group_type: GroupType, slug: &str) -> (r: Result<Group, NotFound>)
        ensures
            match r {
                Ok(g) => self@.contains(g.deep_view()) && key_matches(
                    g.deep_view(),
                    group_type,
                    slug@,
                ),
                Err(e) => e == NotFound && forall|i: int|
                    0 <= i < self@.len() ==> !key_matches(#[trigger] self@[i], group_type, slug@),
            },
    {
        let n = self.groups.len();
        for i in 0..n
            invariant
                n == self.groups.len(),
                forall|x: int|
                    0 <= x < i ==> !key_matches(
                        #[trigger] self.groups.deep_view()[x],
                        group_type,
                        slug@,
                    ),
        {
            let g = &self.groups[i];
            if g.group_type == group_type && str_eq(g.slug.as_str(), slug) {
                let found = g.clone();
                proof {
                    assert(self@[i as int] == found.deep_view());
                }
                return Ok(found);
            }
        }
        Err(NotFound)
    }

    /// All groups of `child_type` whose declared parent is exactly
    /// (`parent_type`, `parent_slug`), in declaration order.  A parent with
    /// no children of that type yields an empty sequence, not an error.
    pub fn get_subordinates(
        &self,
        parent_type: GroupType,
        parent_slug: &str,
        child_type: GroupType,
    ) -> (r: Result<Vec<Group>, RepositoryError>)
        ensures
            r is Ok,
            r->Ok_0.deep_view() == children_of(self@, parent_type, parent_slug@, child_type),
    {
        let mut out: Vec<Group> = Vec::new();
        let n = self.groups.len();
        for i in 0..n
            invariant
                n == self.groups.len(),
                out.deep_view() == children_of(
                    self.groups.deep_view().take(i as int),
                    parent_type,
                    parent_slug@,
                    child_type,
                ),
        {
            let g = &self.groups[i];
            let hit = g.group_type == child_type && match &g.parent {
                Some(p) => p.group_type == parent_type && str_eq(p.slug.as_str(), parent_slug),
                None => false,
            };
            proof {
                let pred = |gv: GroupView|
                    is_child(gv, parent_type, parent_slug@, child_type);
                let prefix = self.groups.deep_view().take(i as int);
                prefix.lemma_filter_push(self.groups.deep_view()[i as int], pred);
                assert(self.groups.deep_view().take(i + 1) =~= prefix.push(
                    self.groups.deep_view()[i as int],
                ));
            }
            if hit {
                out.push(g.clone());
                proof {
                    assert(out.deep_view() =~= children_of(
                        self.groups.deep_view().take(i as int),
                        parent_type,
                        parent_slug@,
                        child_type,
                    ).push(self.groups.deep_view()[i as int]));
                }
            }
        }
        proof {
            assert(self.groups.deep_view().take(n as int) =~= self.groups.deep_view());
        }
        Ok(out)
    }

    /// All groups of `group_type` that declare no parent, in declaration
    /// order.  These populate directory landing pages.
    pub fn get_toplevel(&self, group_type: GroupType) -> (r: Result<Vec<Group>, RepositoryError>)
        ensures
            r is Ok,
            r->Ok_0.deep_view() == toplevel_of(self@, group_type),
    {
        let mut out: Vec<Group> = Vec::new();
        let n = self.groups.len();
        for i in 0..n
            invariant
                n == self.groups.len(),
                out.deep_view() == toplevel_of(self.groups.deep_view().take(i as int), group_type),
        {
            let g = &self.groups[i];
            let hit = g.group_type == group_type && match &g.parent {
                Some(_) => false,
                None => true,
            };
            proof {
                let pred = |gv: GroupView| is_toplevel(gv, group_type);
                let prefix = self.groups.deep_view().take(i as int);
                prefix.lemma_filter_push(self.groups.deep_view()[i as int], pred);
                assert(self.groups.deep_view().take(i + 1) =~= prefix.push(
                    self.groups.deep_view()[i as int],
                ));
            }
            if hit {
                out.push(g.clone());
                proof {
                    assert(out.deep_view() =~= toplevel_of(
                        self.groups.deep_view().take(i as int),
                        group_type,
                    ).push(self.groups.deep_view()[i as int]));
                }
            }
        }
        proof {
            assert(self.groups.deep_view().take(n as int) =~= self.groups.deep_view());
        }
        Ok(out)
    }
}

/// A parent with no children of the requested type has an empty child
/// sequence along that axis: "no children" is a normal outcome, never an
/// error.
pub proof fn lemma_no_children_empty(
    s: Seq<GroupView>,
    parent_type: GroupType,
    parent_slug: Seq<char>,
    child_type: GroupType,
)
    requires
        forall|i: int| 0 <= i < s.len() ==> !is_child(#[trigger] s[i], parent_type, parent_slug, child_type),
    ensures
        children_of(s, parent_type, parent_slug, child_type) == Seq::<GroupView>::empty(),
{
    let pred = |g: GroupView| is_child(g, parent_type, parent_slug, child_type);
    s.lemma_all_neg_filter_empty(pred);
    assert(children_of(s, parent_type, parent_slug, child_type) =~= Seq::<GroupView>::empty());
}

/// Every group in a top-level listing is of the requested type and declares
/// no parent: a group that declares a parent is excluded even when that
/// parent is itself not resolvable.
pub proof fn lemma_toplevel_excludes_parented(s: Seq<GroupView>, group_type: GroupType, i: int)
    requires
        0 <= i < toplevel_of(s, group_type).len(),
    ensures
        toplevel_of(s, group_type)[i].group_type == group_type,
        toplevel_of(s, group_type)[i].parent is None,
{
    let pred = |g: GroupView| is_toplevel(g, group_type);
    s.lemma_filter_pred(pred, i);
}

} // verus!
