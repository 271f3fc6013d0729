//! Engine that keeps a set of local git working trees synchronized with their
//! remotes: a per-repository update state machine (branch detection, dirty-tree
//! protection, fetch, merge-strategy dispatch, shallow-clone handling, conflict
//! containment), a batch coordinator that runs many such state machines in
//! parallel with a live status board, and the credential-negotiation chain used
//! for authenticated fetches.

pub mod config;
pub mod credentials_manager;
pub mod git_update;
pub mod gitops;
pub mod merge;
pub mod progress;
pub mod results;
pub mod updater;
