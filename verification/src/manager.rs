//! The hot-reload manager.
//!
//! A [`HotCrate`] owns the active library handle together with the state
//! that reloading depends on: the workspace metadata snapshot, the target
//! descriptor, the artifact path, the last-seen modification time and the
//! reload counter. It is generic over the handle type `H`, which the host
//! layer instantiates with its loader's handle; the manager itself never
//! touches the operating system. The host performs each staging step
//! (copy the artifact to the staging path, open the staged copy) and
//! reports what happened as a [`ReloadOutcome`]; the manager commits the
//! new handle, or keeps the old one untouched on any failure, so that
//! there is never a moment without a valid handle.

use crate::locate::build_staging_path;
use crate::locate::find_dylib_path;
use crate::locate::find_dylib_pkg;
use crate::locate::find_dylib_target;
use crate::locate::lemma_staging_spec_distinct;
use crate::locate::resolve_spec;
use crate::locate::staging_spec;
use crate::types::HotError;
use crate::types::Profile;
use crate::types::TargetOs;
use crate::types::Timestamp;
use crate::types::WorkspaceMetadata;
use crate::types::timestamp_eq;
use vstd::pervasive::unreached;
use vstd::prelude::*;

verus! {

/// The mathematical state of a manager: every field the contracts
/// speak of, with paths as character sequences.
#[verifier::ext_equal]
pub struct ManagerView<H> {
    pub metadata: WorkspaceMetadata,
    pub dylib_toml: Seq<char>,
    pub os: TargetOs,
    pub profile: Profile,
    pub temp_root: Seq<char>,
    pub lib: H,
    pub lib_path: Seq<char>,
    pub lib_timestamp: Option<Timestamp>,
    pub reload_counter: u64,
}

/// What the host layer reports back from one staging attempt.
pub enum ReloadOutcome<H> {
    /// Creating the staging directory or copying the artifact failed;
    /// the string is the platform's diagnostic.
    StageFailed(String),
    /// The staged copy could not be opened; the string is the loader's
    /// diagnostic.
    OpenFailed(String),
    /// The staged copy was opened: the fresh handle, and the artifact's
    /// modification time as read during this attempt (if readable).
    Opened { handle: H, timestamp: Option<Timestamp> },
}

/// A reloadable dynamic library: the active handle plus the state that
/// locating, staleness and reloading are decided over.
pub struct HotCrate<H> {
    metadata: WorkspaceMetadata,
    dylib_toml: String,
    os: TargetOs,
    profile: Profile,
    temp_root: String,
    lib: H,
    lib_path: String,
    lib_timestamp: Option<Timestamp>,
    reload_counter: u64,
}

impl<H> View for HotCrate<H> {
    type V = ManagerView<H>;

    closed spec fn view(&self) -> ManagerView<H> {
        ManagerView {
            metadata: self.metadata,
            dylib_toml: self.dylib_toml@,
            os: self.os,
            profile: self.profile,
            temp_root: self.temp_root@,
            lib: self.lib,
            lib_path: self.lib_path@,
            lib_timestamp: self.lib_timestamp,
            reload_counter: self.reload_counter,
        }
    }
}

impl<H> HotCrate<H> {
    /// A constructed manager's artifact path is exactly what resolution
    /// over its own descriptor yields; every reload keeps this.
    pub open spec fn inv(self) -> bool {
        resolve_spec(self@.metadata, self@.dylib_toml, self@.os, self@.profile) == Result::Ok::<
            Seq<char>,
            HotError,
        >(self@.lib_path)
    }

    /// Constructs a manager around an already-opened handle.
    ///
    /// The artifact path is resolved from the metadata snapshot; when
    /// resolution fails no manager is produced and the exact locator
    /// error is returned. On success the staleness baseline is primed
    /// with the given timestamp and the reload counter starts at zero.
    pub fn load(
        metadata: WorkspaceMetadata,
        dylib_toml: String,
        os: TargetOs,
        profile: Profile,
        temp_root: String,
        lib: H,
        lib_timestamp: Option<Timestamp>,
    ) -> (r: Result<HotCrate<H>, HotError>)
        ensures
            match r {
                Result::Ok(m) => {
                    &&& m.inv()
                    &&& m@.metadata == metadata
                    &&& m@.dylib_toml == dylib_toml@
                    &&& m@.os == os
                    &&& m@.profile == profile
                    &&& m@.temp_root == temp_root@
                    &&& m@.lib == lib
                    &&& m@.lib_timestamp == lib_timestamp
                    &&& m@.reload_counter == 0
                    &&& resolve_spec(metadata, dylib_toml@, os, profile) == Result::Ok::<
                        Seq<char>,
                        HotError,
                    >(m@.lib_path)
                },
                Result::Err(e) => resolve_spec(metadata, dylib_toml@, os, profile) == Result::Err::<
                    Seq<char>,
                    HotError,
                >(e),
            },
    {
        let lib_path = match find_dylib_path(&metadata, &dylib_toml, os, profile) {
            Result::Ok(p) => p,
            Result::Err(e) => {
                return Result::Err(e);
            },
        };
        Result::Ok(
            HotCrate {
                metadata,
                dylib_toml,
                os,
                profile,
                temp_root,
                lib,
                lib_path,
                lib_timestamp,
                reload_counter: 0,
            },
        )
    }

    /// The active handle.
    pub fn lib(&self) -> (r: &H)
        ensures
            *r == self@.lib,
    {
        &self.lib
    }

    /// The resolved artifact path the manager watches and copies from.
    pub fn lib_path(&self) -> (r: &String)
        ensures
            r@ == self@.lib_path,
    {
        &self.lib_path
    }

    /// The last-seen modification time of the artifact.
    pub fn lib_timestamp(&self) -> (r: Option<Timestamp>)
        ensures
            r == self@.lib_timestamp,
    {
        self.lib_timestamp
    }

    /// How many reloads have committed since construction.
    pub fn reload_counter(&self) -> (r: u64)
        ensures
            r == self@.reload_counter,
    {
        self.reload_counter
    }

    /// Whether a freshly read modification time differs from the
    /// last-seen one. Equality, not ordering: a rebuild that lands on an
    /// identical timestamp (coarse filesystem clocks) is a known,
    /// accepted false negative.
    pub fn is_stale(&self, current: Option<Timestamp>) -> (r: bool)
        ensures
            r == (current != self@.lib_timestamp),
    {
        !timestamp_eq(&current, &self.lib_timestamp)
    }

    /// The staging path the next executed reload will copy the artifact
    /// to: a scratch location embedding the current reload counter,
    /// never reused once a reload commits.
    pub fn tmp_dylib_path(&self) -> (r: Result<String, HotError>)
        ensures
            match r {
                Result::Ok(p) => staging_spec(
                    self@.metadata,
                    self@.dylib_toml,
                    self@.temp_root,
                    self@.reload_counter,
                    self@.os,
                ) == Result::Ok::<Seq<char>, HotError>(p@),
                Result::Err(e) => staging_spec(
                    self@.metadata,
                    self@.dylib_toml,
                    self@.temp_root,
                    self@.reload_counter,
                    self@.os,
                ) == Result::Err::<Seq<char>, HotError>(e),
            },
    {
        let pkg = match find_dylib_pkg(&self.metadata, &self.dylib_toml) {
            Result::Ok(p) => p,
            Result::Err(e) => {
                return Result::Err(e);
            },
        };
        let target = match find_dylib_target(&self.metadata, &self.dylib_toml) {
            Result::Ok(t) => t,
            Result::Err(e) => {
                return Result::Err(e);
            },
        };
        Result::Ok(
            build_staging_path(&self.temp_root, &pkg.name, &target.name, self.reload_counter, self.os),
        )
    }

    /// Applies the host's staging outcome unconditionally.
    ///
    /// On `Opened` the new handle is swapped in, the staleness baseline
    /// is reset to the timestamp read during staging, the reload counter
    /// advances by one, and the previous handle is returned to the host
    /// so it can be closed — only now, after the new handle is fully
    /// open, so there is no moment without a valid handle. On either
    /// failure the manager is left exactly as it was, the active handle
    /// included, and the failure is surfaced as `StageFailed` or
    /// `ReopenFailed`.
    pub fn force_reload(&mut self, outcome: ReloadOutcome<H>) -> (r: Result<H, HotError>)
        requires
            old(self)@.reload_counter < u64::MAX,
        ensures
            old(self).inv() ==> final(self).inv(),
            match outcome {
                ReloadOutcome::Opened { handle, timestamp } => {
                    &&& r == Result::Ok::<H, HotError>(old(self)@.lib)
                    &&& final(self)@ == (ManagerView {
                        lib: handle,
                        lib_timestamp: timestamp,
                        reload_counter: (old(self)@.reload_counter + 1) as u64,
                        ..old(self)@
                    })
                },
                ReloadOutcome::StageFailed(msg) => {
                    &&& r == Result::Err::<H, HotError>(HotError::StageFailed(msg))
                    &&& *final(self) == *old(self)
                },
                ReloadOutcome::OpenFailed(msg) => {
                    &&& r == Result::Err::<H, HotError>(HotError::ReopenFailed(msg))
                    &&& *final(self) == *old(self)
                },
            },
    {
        match outcome {
            ReloadOutcome::StageFailed(msg) => Result::Err(HotError::StageFailed(msg)),
            ReloadOutcome::OpenFailed(msg) => Result::Err(HotError::ReopenFailed(msg)),
            ReloadOutcome::Opened { handle, timestamp } => {
                let mut previous = handle;
                core::mem::swap(&mut self.lib, &mut previous);
                self.lib_timestamp = timestamp;
                self.reload_counter = self.reload_counter + 1;
                Result::Ok(previous)
            },
        }
    }

    /// Applies one poll: when the timestamp the host just read equals
    /// the last-seen one, nothing happens at all and no reload outcome
    /// is consumed; when it differs, the host's staging outcome is
    /// applied as in [`Self::force_reload`], and a committed reload
    /// returns the superseded handle.
    ///
    /// As long as the artifact's timestamp never changes between polls,
    /// every call returns `Ok(None)` and leaves the manager — reload
    /// counter included — exactly as it was.
    pub fn try_reload(&mut self, current: Option<Timestamp>, outcome: Option<ReloadOutcome<H>>) -> (r:
        Result<Option<H>, HotError>)
        requires
            old(self)@.reload_counter < u64::MAX,
            current != old(self)@.lib_timestamp ==> outcome is Some,
        ensures
            old(self).inv() ==> final(self).inv(),
            current == old(self)@.lib_timestamp ==> {
                &&& r == Result::Ok::<Option<H>, HotError>(Option::None)
                &&& *final(self) == *old(self)
            },
            current != old(self)@.lib_timestamp ==> match outcome {
                Option::Some(oc) => match oc {
                    ReloadOutcome::Opened { handle, timestamp } => {
                        &&& r == Result::Ok::<Option<H>, HotError>(Option::Some(old(self)@.lib))
                        &&& final(self)@ == (ManagerView {
                            lib: handle,
                            lib_timestamp: timestamp,
                            reload_counter: (old(self)@.reload_counter + 1) as u64,
                            ..old(self)@
                        })
                    },
                    ReloadOutcome::StageFailed(msg) => {
                        &&& r == Result::Err::<Option<H>, HotError>(HotError::StageFailed(msg))
                        &&& *final(self) == *old(self)
                    },
                    ReloadOutcome::OpenFailed(msg) => {
                        &&& r == Result::Err::<Option<H>, HotError>(HotError::ReopenFailed(msg))
                        &&& *final(self) == *old(self)
                    },
                },
                Option::None => true,
            },
    {
        if timestamp_eq(&current, &self.lib_timestamp) {
            Result::Ok(Option::None)
        } else {
            match outcome {
                Option::Some(oc) => match self.force_reload(oc) {
                    Result::Ok(h) => Result::Ok(Option::Some(h)),
                    Result::Err(e) => Result::Err(e),
                },
                Option::None => unreached(),
            }
        }
    }

    /// Consumes the manager and hands the active handle back to the
    /// host, which owns closing it. No further operation is possible.
    pub fn unload(self) -> (r: H)
        ensures
            r == self@.lib,
    {
        let HotCrate { lib, .. } = self;
        lib
    }
}

/// A committed reload never reuses a staging path. The two views are a
/// manager's state before and after any run of reloads that advanced the
/// counter — a commit changes nothing else that staging depends on — and
/// whenever both states resolve a staging path at all, the paths differ,
/// so the loader is always handed a path this manager has never used.
pub proof fn lemma_reload_stages_at_fresh_path<H>(v1: ManagerView<H>, v2: ManagerView<H>)
    requires
        v2.metadata == v1.metadata,
        v2.dylib_toml == v1.dylib_toml,
        v2.temp_root == v1.temp_root,
        v2.os == v1.os,
        v2.reload_counter != v1.reload_counter,
    ensures
        match (
            staging_spec(v1.metadata, v1.dylib_toml, v1.temp_root, v1.reload_counter, v1.os),
            staging_spec(v2.metadata, v2.dylib_toml, v2.temp_root, v2.reload_counter, v2.os),
        ) {
            (Result::Ok(p1), Result::Ok(p2)) => p1 != p2,
            (Result::Err(e1), Result::Err(e2)) => e1 == e2,
            _ => false,
        },
{
    lemma_staging_spec_distinct(
        v1.metadata,
        v1.dylib_toml,
        v1.temp_root,
        v1.reload_counter,
        v2.reload_counter,
        v1.os,
    );
}

} // verus!
