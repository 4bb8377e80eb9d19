//! Hierarchy resolution: from a classified key to a presentation-ready
//! aggregate.
//!
//! `resolve` looks up a group's own record and discovers its direct children
//! along the two child axes; `load_group_data` and `load_governance_data`
//! shape the results into the keyed mapping the rendering layer consumes.
//! A child axis appears in that mapping only when it is non-empty, so the
//! renderer can distinguish an absent section by key presence alone.

use vstd::prelude::*;

use crate::errors::ResolveError;
use crate::group::{Group, GroupView};
use crate::group_type::GroupType;
use crate::repository::{
    children_of, key_matches, keys_unique, toplevel_of, Repository,
};
use crate::text::str_eq;

verus! {

/// A group's own record bundled with its direct children along both axes.
#[derive(Debug, PartialEq, Eq)]
pub struct GroupAggregate {
    /// The record of the resolved group itself.
    pub info: Group,
    /// The direct sub-teams, in declaration order; possibly empty.
    pub sub_teams: Vec<Group>,
    /// The direct sub-working-groups, in declaration order; possibly empty.
    pub sub_working_groups: Vec<Group>,
}

/// The mathematical value of a [`GroupAggregate`].
pub ghost struct AggregateView {
    pub info: GroupView,
    pub sub_teams: Seq<GroupView>,
    pub sub_working_groups: Seq<GroupView>,
}

impl DeepView for GroupAggregate {
    type V = AggregateView;

    open spec fn deep_view(&self) -> AggregateView {
        AggregateView {
            info: self.info.deep_view(),
            sub_teams: self.sub_teams.deep_view(),
            sub_working_groups: self.sub_working_groups.deep_view(),
        }
    }
}

/// The record of `s` at the key (`group_type`, `slug`), if one exists.  On a
/// store with unique keys there is at most one.
pub open spec fn lookup(s: Seq<GroupView>, group_type: GroupType, slug: Seq<char>) -> Option<
    GroupView,
> {
    if exists|i: int| 0 <= i < s.len() && key_matches(s[i], group_type, slug) {
        Some(s[choose|i: int| 0 <= i < s.len() && key_matches(s[i], group_type, slug)])
    } else {
        None
    }
}

/// What resolution returns, as a function of the store's contents alone:
/// the record at the requested key together with its direct children along
/// both axes, or `GroupNotFound` when no record sits at that key.
pub open spec fn spec_resolve(s: Seq<GroupView>, group_type: GroupType, slug: Seq<char>) -> Result<
    AggregateView,
    ResolveError,
> {
    match lookup(s, group_type, slug) {
        Some(info) => Ok(
            AggregateView {
                info,
                sub_teams: children_of(s, group_type, slug, GroupType::Team),
                sub_working_groups: children_of(s, group_type, slug, GroupType::WorkingGroup),
            },
        ),
        None => Err(ResolveError::GroupNotFound),
    }
}

/// The value of a resolution result, member for member.
pub open spec fn resolve_result_view(r: Result<GroupAggregate, ResolveError>) -> Result<
    AggregateView,
    ResolveError,
> {
    match r {
        Ok(a) => Ok(a.deep_view()),
        Err(e) => Err(e),
    }
}

/// On a store with unique keys, any record that sits at a key is the one
/// `lookup` yields for that key.
proof fn lemma_lookup_pins(s: Seq<GroupView>, group_type: GroupType, slug: Seq<char>, g: GroupView)
    requires
        keys_unique(s),
        s.contains(g),
        key_matches(g, group_type, slug),
    ensures
        lookup(s, group_type, slug) == Some(g),
{
    let i = choose|i: int| 0 <= i < s.len() && s[i] == g;
    assert(0 <= i < s.len() && key_matches(s[i], group_type, slug));
    let j = choose|j: int| 0 <= j < s.len() && key_matches(s[j], group_type, slug);
    if i < j {
        assert(crate::repository::same_key(s[i], s[j]));
    } else if j < i {
        assert(crate::repository::same_key(s[j], s[i]));
    }
}

/// Resolves a group page: the record at (`group_type`, `slug`), its direct
/// sub-teams, and its direct sub-working-groups.  Succeeds exactly when a
/// record sits at that key; a missing primary subject is `GroupNotFound`.
/// An axis with no children is an empty sequence here, never an error.
pub fn resolve(repo: &Repository, group_type: GroupType, slug: &str) -> (r: Result<
    GroupAggregate,
    ResolveError,
>)
    ensures
        resolve_result_view(r) == spec_resolve(repo@, group_type, slug@),
{
    proof {
        use_type_invariant(repo);
        repo.lemma_keys_unique();
    }
    match repo.get_info(group_type, slug) {
        Ok(info) => {
            proof {
                lemma_lookup_pins(repo@, group_type, slug@, info.deep_view());
            }
            let sub_teams = repo.get_subordinates(group_type, slug, GroupType::Team).unwrap();
            let sub_working_groups = repo.get_subordinates(
                group_type,
                slug,
                GroupType::WorkingGroup,
            ).unwrap();
            Ok(GroupAggregate { info, sub_teams, sub_working_groups })
        },
        Err(_) => Err(ResolveError::GroupNotFound),
    }
}

/// Resolves a directory landing listing: every top-level group of the given
/// type, in declaration order.
pub fn resolve_toplevel(repo: &Repository, group_type: GroupType) -> (r: Result<
    Vec<Group>,
    ResolveError,
>)
    ensures
        r is Ok,
        r->Ok_0.deep_view() == toplevel_of(repo@, group_type),
{
    Ok(repo.get_toplevel(group_type).unwrap())
}

/// The presentation mapping of one resolved group page: an `info` entry,
/// then a `subteams` entry only if there are sub-teams, then a `subwgs`
/// entry only if there are sub-working-groups.
pub open spec fn mapping_of(
    info: GroupView,
    sub_teams: Seq<GroupView>,
    sub_working_groups: Seq<GroupView>,
) -> Seq<(Seq<char>, Seq<GroupView>)> {
    let base = seq![("info"@, seq![info])];
    let with_teams = if sub_teams.len() > 0 {
        base.push(("subteams"@, sub_teams))
    } else {
        base
    };
    if sub_working_groups.len() > 0 {
        with_teams.push(("subwgs"@, sub_working_groups))
    } else {
        with_teams
    }
}

/// The presentation mapping for a group page, as a function of the store's
/// contents alone, or nothing when the group does not exist.
pub open spec fn spec_group_data(s: Seq<GroupView>, group_type: GroupType, slug: Seq<char>) -> Option<
    Seq<(Seq<char>, Seq<GroupView>)>,
> {
    match spec_resolve(s, group_type, slug) {
        Ok(a) => Some(mapping_of(a.info, a.sub_teams, a.sub_working_groups)),
        Err(_) => None,
    }
}

impl GroupAggregate {
    /// The keyed entries handed to the rendering layer, in stable order.  An
    /// empty child axis is omitted entirely rather than present and empty.
    pub fn into_entries(self) -> (r: Vec<(String, Vec<Group>)>)
        ensures
            r.deep_view() == mapping_of(
                self.info.deep_view(),
                self.sub_teams.deep_view(),
                self.sub_working_groups.deep_view(),
            ),
    {
        let ghost expected = mapping_of(
            self.info.deep_view(),
            self.sub_teams.deep_view(),
            self.sub_working_groups.deep_view(),
        );
        let mut r: Vec<(String, Vec<Group>)> = Vec::new();
        let mut info_entry: Vec<Group> = Vec::new();
        info_entry.push(self.info);
        r.push(("info".to_owned(), info_entry));
        if self.sub_teams.len() > 0 {
            r.push(("subteams".to_owned(), self.sub_teams));
        }
        if self.sub_working_groups.len() > 0 {
            r.push(("subwgs".to_owned(), self.sub_working_groups));
        }
        proof {
            assert(r.deep_view() =~~= expected);
        }
        r
    }
}

/// The presentation mapping for the page of one group: an `info` entry with
/// the group's own record, plus one entry per non-empty child axis.  Nothing
/// when no group sits at the requested key.
pub fn load_group_data(repo: &Repository, group_type: GroupType, group: &str) -> (r: Option<
    Vec<(String, Vec<Group>)>,
>)
    ensures
        match r {
            Some(entries) => spec_group_data(repo@, group_type, group@) == Some(
                entries.deep_view(),
            ),
            None => spec_group_data(repo@, group_type, group@) is None,
        },
{
    match resolve(repo, group_type, group) {
        Ok(aggregate) => Some(aggregate.into_entries()),
        Err(_) => None,
    }
}

/// The presentation mapping for a directory landing page.  Only the
/// governance index carries data: its top-level teams under the `teams` key
/// and its top-level working groups under the `wgs` key, each keyed by the
/// group type's canonical string form.
pub fn load_governance_data(repo: &Repository, page: &str) -> (r: Option<
    Vec<(String, Vec<Group>)>,
>)
    ensures
        page@ == "governance/index"@ ==> (r matches Some(entries) && entries.deep_view()
            =~~= seq![
            ("teams"@, toplevel_of(repo@, GroupType::Team)),
            ("wgs"@, toplevel_of(repo@, GroupType::WorkingGroup)),
        ]),
        page@ != "governance/index"@ ==> r is None,
{
    if str_eq(page, "governance/index") {
        let teams = resolve_toplevel(repo, GroupType::Team).unwrap();
        let wgs = resolve_toplevel(repo, GroupType::WorkingGroup).unwrap();
        let mut r: Vec<(String, Vec<Group>)> = Vec::new();
        r.push((GroupType::Team.to_string(), teams));
        r.push((GroupType::WorkingGroup.to_string(), wgs));
        Some(r)
    } else {
        None
    }
}

/// Resolution is idempotent: against an unchanged store, two resolutions of
/// the same group type and slug yield structurally identical aggregates,
/// child order included — each is the one value `spec_resolve` gives for
/// that store and key.
pub proof fn lemma_resolve_idempotent(
    s: Seq<GroupView>,
    group_type: GroupType,
    slug: Seq<char>,
    r1: Result<AggregateView, ResolveError>,
    r2: Result<AggregateView, ResolveError>,
)
    requires
        r1 == spec_resolve(s, group_type, slug),
        r2 == spec_resolve(s, group_type, slug),
    ensures
        r1 == r2,
{
}

/// A group with no children on either axis maps to the `info` entry alone:
/// neither a `subteams` nor a `subwgs` key appears.
pub proof fn lemma_mapping_without_children(
    info: GroupView,
    sub_teams: Seq<GroupView>,
    sub_working_groups: Seq<GroupView>,
)
    requires
        sub_teams.len() == 0,
        sub_working_groups.len() == 0,
    ensures
        mapping_of(info, sub_teams, sub_working_groups) == seq![("info"@, seq![info])],
{
}

} // verus!
