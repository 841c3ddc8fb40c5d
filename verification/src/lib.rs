//! Hot-reloading of dynamic libraries for development-time workflows.
//!
//! The crate tracks one build artifact (a dynamic library produced by a
//! workspace target), detects when it has been rebuilt, and drives a reload
//! protocol that stages every new build at a fresh, never-reused scratch
//! path before opening it, so that a platform loader which caches library
//! identity by path can never hand back a stale mapping.
//!
//! The crate itself performs no I/O: it resolves paths, decides staleness,
//! and commits or aborts reloads over plain values. A thin host layer owns
//! the operating-system calls (reading workspace metadata, copying files,
//! opening libraries) and feeds their results back in.

pub mod decimal;
pub mod locate;
pub mod manager;
pub mod plugin;
pub mod types;

pub use manager::HotCrate;
pub use manager::ManagerView;
pub use manager::ReloadOutcome;
pub use plugin::PluginA;
pub use plugin::PluginB;
pub use types::HotError;
pub use types::PackageMeta;
pub use types::Profile;
pub use types::TargetMeta;
pub use types::TargetOs;
pub use types::Timestamp;
pub use types::WorkspaceMetadata;
