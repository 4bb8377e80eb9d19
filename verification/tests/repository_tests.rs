use governance::errors::RepositoryError;
use governance::group::{Group, ParentRef};
use governance::group_type::GroupType;
use governance::repository::Repository;

fn group(group_type: GroupType, slug: &str, name: &str, parent: Option<(GroupType, &str)>) -> Group {
    Group {
        group_type,
        slug: slug.to_string(),
        name: name.to_string(),
        description: None,
        members: None,
        parent: parent.map(|(t, s)| ParentRef { group_type: t, slug: s.to_string() }),
    }
}

fn sample_store() -> Repository {
    Repository::new(vec![
        group(GroupType::Team, "core", "Core Team", None),
        group(GroupType::Team, "core/libs", "Libraries Team", Some((GroupType::Team, "core"))),
        group(GroupType::Team, "core/compiler", "Compiler Team", Some((GroupType::Team, "core"))),
        group(
            GroupType::WorkingGroup,
            "core/wg-async",
            "Async Working Group",
            Some((GroupType::Team, "core")),
        ),
        group(GroupType::WorkingGroup, "wg-embedded", "Embedded Working Group", None),
        group(GroupType::Peer, "core", "Core Peers", None),
    ])
    .expect("sample store has unique keys")
}

#[test]
fn builds_from_records_with_unique_keys() {
    let repo = sample_store();
    assert_eq!(repo.len(), 6);
}

#[test]
fn refuses_records_that_share_a_key() {
    let r = Repository::new(vec![
        group(GroupType::Team, "core", "Core Team", None),
        group(GroupType::Team, "core", "Another Core Team", None),
    ]);
    match r {
        Err(RepositoryError::DuplicateKey { group_type, slug }) => {
            assert_eq!(group_type, GroupType::Team);
            assert_eq!(slug, "core");
        },
        _ => panic!("a duplicated key must be reported"),
    }
}

#[test]
fn same_slug_under_different_types_is_no_duplicate() {
    // "core" exists both as a Team and as a Peer group in the sample store.
    let repo = sample_store();
    let team = repo.get_info(GroupType::Team, "core").expect("team record exists");
    let peers = repo.get_info(GroupType::Peer, "core").expect("peer record exists");
    assert_eq!(team.name, "Core Team");
    assert_eq!(peers.name, "Core Peers");
}

#[test]
fn get_info_finds_the_exact_record() {
    let repo = sample_store();
    let g = repo.get_info(GroupType::Team, "core/libs").expect("record exists");
    assert_eq!(g.group_type, GroupType::Team);
    assert_eq!(g.slug, "core/libs");
    assert_eq!(g.name, "Libraries Team");
    assert_eq!(g.parent, Some(ParentRef { group_type: GroupType::Team, slug: "core".to_string() }));
}

#[test]
fn get_info_surfaces_a_missing_key() {
    let repo = sample_store();
    assert!(repo.get_info(GroupType::Team, "nonexistent").is_err());
    // The key is composite: the slug alone is not enough.
    assert!(repo.get_info(GroupType::Shepherd, "core").is_err());
}

#[test]
fn get_info_round_trips_full_records() {
    let rich = Group {
        group_type: GroupType::WorkingGroup,
        slug: "wg-traits".to_string(),
        name: "Traits Working Group".to_string(),
        description: Some("All about traits".to_string()),
        members: Some(vec!["alice".to_string(), "bob".to_string()]),
        parent: None,
    };
    let expected = Group {
        group_type: rich.group_type,
        slug: rich.slug.clone(),
        name: rich.name.clone(),
        description: rich.description.clone(),
        members: rich.members.clone(),
        parent: None,
    };
    let repo = Repository::new(vec![rich]).expect("unique keys");
    let got = repo.get_info(GroupType::WorkingGroup, "wg-traits").expect("record exists");
    assert_eq!(got, expected);
}

#[test]
fn subordinates_come_in_declaration_order() {
    let repo = sample_store();
    let subs = repo
        .get_subordinates(GroupType::Team, "core", GroupType::Team)
        .expect("child query never errors");
    let slugs: Vec<&str> = subs.iter().map(|g| g.slug.as_str()).collect();
    assert_eq!(slugs, vec!["core/libs", "core/compiler"]);
}

#[test]
fn no_children_of_the_requested_type_is_an_empty_sequence() {
    let repo = sample_store();
    // The embedded working group has no children at all.
    let subs = repo
        .get_subordinates(GroupType::WorkingGroup, "wg-embedded", GroupType::Team)
        .expect("an empty child axis is a normal outcome, not an error");
    assert!(subs.is_empty());
    // The core team has working-group children but no shepherd children.
    let subs = repo
        .get_subordinates(GroupType::Team, "core", GroupType::Shepherd)
        .expect("an empty child axis is a normal outcome, not an error");
    assert!(subs.is_empty());
}

#[test]
fn toplevel_lists_only_parentless_groups_of_the_type() {
    let repo = sample_store();
    let teams = repo.get_toplevel(GroupType::Team).expect("top-level query never errors");
    let slugs: Vec<&str> = teams.iter().map(|g| g.slug.as_str()).collect();
    assert_eq!(slugs, vec!["core"]);
    let wgs = repo.get_toplevel(GroupType::WorkingGroup).expect("top-level query never errors");
    let slugs: Vec<&str> = wgs.iter().map(|g| g.slug.as_str()).collect();
    assert_eq!(slugs, vec!["wg-embedded"]);
}

#[test]
fn toplevel_excludes_groups_with_unresolvable_parents() {
    let repo = Repository::new(vec![
        group(GroupType::Team, "alpha", "Alpha", Some((GroupType::Team, "never-defined"))),
        group(GroupType::Team, "beta", "Beta", None),
    ])
    .expect("unique keys");
    let teams = repo.get_toplevel(GroupType::Team).expect("top-level query never errors");
    let slugs: Vec<&str> = teams.iter().map(|g| g.slug.as_str()).collect();
    assert_eq!(slugs, vec!["beta"]);
}
