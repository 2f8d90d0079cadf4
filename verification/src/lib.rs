//! An interactive branch switcher: it enumerates the local and remote branches
//! of a version-controlled working tree, narrows the set with a live fuzzy
//! text query, and checks out the selected branch, handling the
//! local/remote/tracking ambiguity.

pub mod config;
pub mod finder;
pub mod git;
pub mod ui;
