//! Governance hierarchy resolution for a project website.
//!
//! The library models a read-only directory of governance groups (teams,
//! working groups, peers, shepherds).  Path segments are classified into a
//! closed [`group_type::GroupType`] or [`category::Category`]; a
//! [`repository::Repository`] answers exact-key and child-axis queries over
//! the loaded records; and the resolver assembles the presentation mapping
//! for a single group page or a directory landing page.

pub mod category;
pub mod errors;
pub mod group;
pub mod group_type;
pub mod repository;
pub mod resolver;
pub mod text;
