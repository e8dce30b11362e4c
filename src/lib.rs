//! A store of blogs, posts, comments and reactions that keeps slugs unique, references
//! valid and denormalized counters exact across every mutation.
//!
//! `module::Module` holds the state and performs the mutations; each one is specified by a
//! transition of `model::ModuleView`, and keeps `ModuleView::valid`. `laws` states what
//! follows for callers: unique slugs, silent no-op updates, creator-only changes and
//! consecutive ids.

pub mod count;
pub mod invariants;
pub mod laws;
pub mod model;
pub mod module;
pub mod slug_index;
pub mod types;
