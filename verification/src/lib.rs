//! Lifecycle manager for satellite git worktrees around an anchor checkout.
//!
//! The crate normalizes a repository into a dual-root layout (an anchor
//! checkout under `main/` and satellite worktrees under `wt/`), creates,
//! lists and removes worktrees, and computes the per-worktree safety and
//! staleness facts that gate the destructive operations. Side effects on
//! the repository (subprocesses, filesystem mutation, prompts) are left to
//! the surrounding binary; this library decides, and proves its decisions.

pub mod agents;
pub mod commands;
pub mod config;
pub mod error;
pub mod generators;
pub mod ide;
pub mod layout;
pub mod lifecycle;
mod probes;
pub mod repo;
pub mod safety;
pub mod staleness;
pub mod template;
pub mod text;
pub mod worktree;

pub use error::KayfabeError;
pub use safety::SafetyCheck;
pub use worktree::{Worktree, WorktreeInfo};
