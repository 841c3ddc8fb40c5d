//! Plain data carried through the reload logic.
//!
//! Workspace metadata is held as ordinary values (package names, manifest
//! paths, target kinds) so that every decision taken over it can be
//! verified; the host layer converts whatever its metadata provider
//! returns into these types once, at startup.

use vstd::prelude::*;

verus! {

/// A file modification time, as whole seconds and a nanosecond remainder
/// since some fixed epoch. Staleness is decided by equality alone, never
/// by ordering, so the epoch itself is irrelevant.
#[derive(Clone, Copy, Debug, PartialEq, Eq, Structural)]
pub struct Timestamp {
    pub secs: u64,
    pub nanos: u32,
}

/// The operating system the artifact is resolved for. It selects the
/// dynamic-library file-name extension; `Other` stands for a platform
/// with no known convention and yields a sentinel extension that later
/// file operations fail on cleanly instead of hitting a wrong path.
#[derive(Clone, Copy, Debug, PartialEq, Eq, Structural)]
pub enum TargetOs {
    MacOs,
    Linux,
    Windows,
    Other,
}

/// The build profile whose output directory the artifact lives under.
#[derive(Clone, Copy, Debug, PartialEq, Eq, Structural)]
pub enum Profile {
    Debug,
    Release,
}

/// One build target of a package: its logical name and the crate types
/// it is declared to produce (a dynamic library is declared as `dylib`).
#[derive(Clone, Debug)]
pub struct TargetMeta {
    pub name: String,
    pub crate_types: Vec<String>,
}

/// One package of the workspace, identified by its manifest path.
#[derive(Clone, Debug)]
pub struct PackageMeta {
    pub name: String,
    pub manifest_path: String,
    pub targets: Vec<TargetMeta>,
}

/// A snapshot of the workspace layout: its packages and the root
/// directory that build outputs are placed under. The layout is assumed
/// stable for the life of a manager; only artifact contents change.
#[derive(Clone, Debug)]
pub struct WorkspaceMetadata {
    pub packages: Vec<PackageMeta>,
    pub target_directory: String,
}

/// Everything that can go wrong while locating, loading or reloading the
/// artifact. Variants that carry a `String` hold the platform's own
/// diagnostic text, handed in by the host layer.
#[derive(Clone, Debug, PartialEq)]
pub enum HotError {
    /// No package in the workspace metadata matches the target's manifest path.
    TargetNotFound,
    /// The matched package declares no dynamic-library output.
    NotADynamicLibrary,
    /// The artifact file is missing or its timestamp cannot be read.
    ArtifactUnavailable,
    /// The loader rejected the artifact at initial load.
    LoadFailed(String),
    /// The named export does not exist in the active handle.
    SymbolNotFound(String),
    /// Copying the artifact to its staging path (or creating the staging
    /// directory) failed; the active handle is untouched.
    StageFailed(String),
    /// Opening the staged copy failed; the active handle is untouched.
    ReopenFailed(String),
}

/// Equality of two optional timestamps, usable from executable code.
pub fn timestamp_eq(a: &Option<Timestamp>, b: &Option<Timestamp>) -> (r: bool)
    ensures
        r == (a == b),
{
    match (a, b) {
        (Option::None, Option::None) => true,
        (Option::Some(x), Option::Some(y)) => x.secs == y.secs && x.nanos == y.nanos,
        _ => false,
    }
}

} // verus!
