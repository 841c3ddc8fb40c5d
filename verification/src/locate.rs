//! Resolving the on-disk artifact and staging paths of a dynamic-library
//! target from a workspace metadata snapshot.
//!
//! Resolution is a pure function of its inputs: it finds the first package
//! whose manifest path matches the target descriptor, the first of that
//! package's targets declared to produce a `dylib`, and combines the
//! workspace output directory, build profile and a platform file-name
//! convention into the artifact path. Staging paths additionally embed
//! the reload counter so that no two executed reloads share a path.

use crate::decimal::dec_rep;
use crate::decimal::lemma_dec_rep_injective;
use crate::decimal::u64_to_decimal;
use crate::types::HotError;
use crate::types::PackageMeta;
use crate::types::Profile;
use crate::types::TargetMeta;
use crate::types::TargetOs;
use crate::types::WorkspaceMetadata;
use vstd::prelude::*;
use vstd::string::StringExecFns;

verus! {

/// The smallest index of a package whose manifest path matches the
/// descriptor, if any.
pub open spec fn first_matching_pkg(packages: Seq<PackageMeta>, dylib_toml: Seq<char>) -> Option<
    int,
>
    decreases packages.len(),
{
    if packages.len() == 0 {
        Option::None
    } else if pkg_matches(packages[0], dylib_toml) {
        Option::Some(0int)
    } else {
        match first_matching_pkg(packages.drop_first(), dylib_toml) {
            Option::Some(i) => Option::Some(i + 1),
            Option::None => Option::None,
        }
    }
}

/// What [`first_matching_pkg`] returns: the first matching index, or none.
pub proof fn lemma_first_matching_pkg(packages: Seq<PackageMeta>, dylib_toml: Seq<char>)
    ensures
        match first_matching_pkg(packages, dylib_toml) {
            Option::Some(i) => 0 <= i < packages.len() && pkg_matches(packages[i], dylib_toml) && (
            forall|j: int| 0 <= j < i ==> !pkg_matches(#[trigger] packages[j], dylib_toml)),
            Option::None => forall|j: int|
                0 <= j < packages.len() ==> !pkg_matches(#[trigger] packages[j], dylib_toml),
        },
    decreases packages.len(),
{
    if packages.len() == 0 {
    } else if pkg_matches(packages[0], dylib_toml) {
    } else {
        lemma_first_matching_pkg(packages.drop_first(), dylib_toml);
        match first_matching_pkg(packages.drop_first(), dylib_toml) {
            Option::Some(i) => {
                assert forall|j: int| 0 <= j < i + 1 implies !pkg_matches(
                    #[trigger] packages[j],
                    dylib_toml,
                ) by {
                    if j >= 1 {
                        assert(packages[j] == packages.drop_first()[j - 1]);
                    }
                }
            },
            Option::None => {
                assert forall|j: int| 0 <= j < packages.len() implies !pkg_matches(
                    #[trigger] packages[j],
                    dylib_toml,
                ) by {
                    if j >= 1 {
                        assert(packages[j] == packages.drop_first()[j - 1]);
                    }
                }
            },
        }
    }
}

/// The smallest index of a target declaring a `dylib` output, if any.
pub open spec fn first_dylib_target(targets: Seq<TargetMeta>) -> Option<int>
    decreases targets.len(),
{
    if targets.len() == 0 {
        Option::None
    } else if target_is_dylib(targets[0]) {
        Option::Some(0int)
    } else {
        match first_dylib_target(targets.drop_first()) {
            Option::Some(i) => Option::Some(i + 1),
            Option::None => Option::None,
        }
    }
}

/// What [`first_dylib_target`] returns: the first `dylib` index, or none.
pub proof fn lemma_first_dylib_target(targets: Seq<TargetMeta>)
    ensures
        match first_dylib_target(targets) {
            Option::Some(i) => 0 <= i < targets.len() && target_is_dylib(targets[i]) && (forall|
                j: int,
            | 0 <= j < i ==> !target_is_dylib(#[trigger] targets[j])),
            Option::None => forall|j: int|
                0 <= j < targets.len() ==> !target_is_dylib(#[trigger] targets[j]),
        },
    decreases targets.len(),
{
    if targets.len() == 0 {
    } else if target_is_dylib(targets[0]) {
    } else {
        lemma_first_dylib_target(targets.drop_first());
        match first_dylib_target(targets.drop_first()) {
            Option::Some(i) => {
                assert forall|j: int| 0 <= j < i + 1 implies !target_is_dylib(
                    #[trigger] targets[j],
                ) by {
                    if j >= 1 {
                        assert(targets[j] == targets.drop_first()[j - 1]);
                    }
                }
            },
            Option::None => {
                assert forall|j: int| 0 <= j < targets.len() implies !target_is_dylib(
                    #[trigger] targets[j],
                ) by {
                    if j >= 1 {
                        assert(targets[j] == targets.drop_first()[j - 1]);
                    }
                }
            },
        }
    }
}

/// The platform's dynamic-library file-name extension. An unrecognized
/// platform gets a sentinel that no build ever produces, so that later
/// file operations fail cleanly instead of touching a wrong path.
pub open spec fn extension_chars(os: TargetOs) -> Seq<char> {
    match os {
        TargetOs::MacOs => "dylib"@,
        TargetOs::Linux => "so"@,
        TargetOs::Windows => "dll"@,
        TargetOs::Other => "unsupported-dylib-extension"@,
    }
}

/// Executable counterpart of [`extension_chars`].
pub fn dylib_extension(os: TargetOs) -> (r: String)
    ensures
        r@ == extension_chars(os),
{
    match os {
        TargetOs::MacOs => String::from_str("dylib"),
        TargetOs::Linux => String::from_str("so"),
        TargetOs::Windows => String::from_str("dll"),
        TargetOs::Other => String::from_str("unsupported-dylib-extension"),
    }
}

/// The directory name a build profile's outputs live under.
pub open spec fn profile_chars(profile: Profile) -> Seq<char> {
    match profile {
        Profile::Debug => "debug"@,
        Profile::Release => "release"@,
    }
}

/// Executable counterpart of [`profile_chars`].
pub fn profile_dir(profile: Profile) -> (r: String)
    ensures
        r@ == profile_chars(profile),
{
    match profile {
        Profile::Debug => String::from_str("debug"),
        Profile::Release => String::from_str("release"),
    }
}

/// Whether a package is the one the target descriptor names.
pub open spec fn pkg_matches(pkg: PackageMeta, dylib_toml: Seq<char>) -> bool {
    pkg.manifest_path@ == dylib_toml
}

/// Whether a target declares a dynamic-library (`dylib`) output.
pub open spec fn target_is_dylib(target: TargetMeta) -> bool {
    exists|i: int| 0 <= i < target.crate_types@.len() && target.crate_types@[i]@ == "dylib"@
}

/// The index of the first package matching the descriptor, if any.
pub open spec fn located_pkg_idx(meta: WorkspaceMetadata, dylib_toml: Seq<char>) -> Option<int> {
    first_matching_pkg(meta.packages@, dylib_toml)
}

/// The first package matching the descriptor, if any.
pub open spec fn located_pkg(meta: WorkspaceMetadata, dylib_toml: Seq<char>) -> Option<
    PackageMeta,
> {
    match located_pkg_idx(meta, dylib_toml) {
        Option::Some(i) => Option::Some(meta.packages@[i]),
        Option::None => Option::None,
    }
}

/// The index of the first dynamic-library target of a package, if any.
pub open spec fn located_target_idx(pkg: PackageMeta) -> Option<int> {
    first_dylib_target(pkg.targets@)
}

/// The dynamic-library target the descriptor resolves to, or the exact
/// error: no matching package, or a package with no `dylib` output.
pub open spec fn target_spec(meta: WorkspaceMetadata, dylib_toml: Seq<char>) -> Result<
    TargetMeta,
    HotError,
> {
    match located_pkg(meta, dylib_toml) {
        Option::None => Result::Err(HotError::TargetNotFound),
        Option::Some(pkg) => match located_target_idx(pkg) {
            Option::None => Result::Err(HotError::NotADynamicLibrary),
            Option::Some(i) => Result::Ok(pkg.targets@[i]),
        },
    }
}

/// The artifact path: output directory, profile directory, and the
/// platform's `lib<name>.<ext>` file-name convention.
pub open spec fn artifact_path_chars(
    dir: Seq<char>,
    profile: Profile,
    target_name: Seq<char>,
    os: TargetOs,
) -> Seq<char> {
    dir + "/"@ + profile_chars(profile) + "/lib"@ + target_name + "."@ + extension_chars(os)
}

/// Full resolution: the artifact path of the descriptor's dynamic-library
/// target, or the exact error.
pub open spec fn resolve_spec(
    meta: WorkspaceMetadata,
    dylib_toml: Seq<char>,
    os: TargetOs,
    profile: Profile,
) -> Result<Seq<char>, HotError> {
    match target_spec(meta, dylib_toml) {
        Result::Err(e) => Result::Err(e),
        Result::Ok(t) => Result::Ok(
            artifact_path_chars(meta.target_directory@, profile, t.name@, os),
        ),
    }
}

/// The staging path for one executed reload: a scratch location under the
/// host's temporary root, naming the package and target and embedding the
/// reload counter, so that every counter value yields a fresh path.
pub open spec fn staging_path_chars(
    temp_root: Seq<char>,
    pkg_name: Seq<char>,
    target_name: Seq<char>,
    counter: u64,
    os: TargetOs,
) -> Seq<char> {
    temp_root + "/hot_crate/"@ + pkg_name + "/lib"@ + target_name + "-"@ + dec_rep(counter as nat)
        + "."@ + extension_chars(os)
}

/// The staging path the manager would use with the given counter, or the
/// exact resolution error.
pub open spec fn staging_spec(
    meta: WorkspaceMetadata,
    dylib_toml: Seq<char>,
    temp_root: Seq<char>,
    counter: u64,
    os: TargetOs,
) -> Result<Seq<char>, HotError> {
    match located_pkg(meta, dylib_toml) {
        Option::None => Result::Err(HotError::TargetNotFound),
        Option::Some(pkg) => match located_target_idx(pkg) {
            Option::None => Result::Err(HotError::NotADynamicLibrary),
            Option::Some(i) => Result::Ok(
                staging_path_chars(temp_root, pkg.name@, pkg.targets@[i].name@, counter, os),
            ),
        },
    }
}

/// Whether `target` declares a `dylib` output, decided over its declared
/// crate types.
pub fn target_has_dylib(target: &TargetMeta) -> (r: bool)
    ensures
        r == target_is_dylib(*target),
{
    let needle = String::from_str("dylib");
    let mut j: usize = 0;
    while j < target.crate_types.len()
        invariant
            0 <= j <= target.crate_types@.len(),
            needle@ == "dylib"@,
            forall|k: int| 0 <= k < j ==> target.crate_types@[k]@ != "dylib"@,
        decreases target.crate_types@.len() - j,
    {
        if target.crate_types[j] == needle {
            assert(target.crate_types@[j as int]@ == "dylib"@);
            return true;
        }
        j += 1;
    }
    false
}

/// The first package whose manifest path matches the descriptor, or
/// `TargetNotFound` when the workspace has none.
pub fn find_dylib_pkg<'a>(meta: &'a WorkspaceMetadata, dylib_toml: &String) -> (r: Result<
    &'a PackageMeta,
    HotError,
>)
    ensures
        match r {
            Result::Ok(pkg) => located_pkg(*meta, dylib_toml@) == Option::Some(*pkg),
            Result::Err(e) => e == HotError::TargetNotFound && located_pkg(*meta, dylib_toml@)
                is None,
        },
{
    let mut i: usize = 0;
    while i < meta.packages.len()
        invariant
            0 <= i <= meta.packages@.len(),
            forall|k: int| 0 <= k < i ==> !pkg_matches(#[trigger] meta.packages@[k], dylib_toml@),
        decreases meta.packages@.len() - i,
    {
        if meta.packages[i].manifest_path == *dylib_toml {
            proof {
                lemma_first_matching_pkg(meta.packages@, dylib_toml@);
                assert(pkg_matches(meta.packages@[i as int], dylib_toml@));
            }
            return Result::Ok(&meta.packages[i]);
        }
        i += 1;
    }
    proof {
        lemma_first_matching_pkg(meta.packages@, dylib_toml@);
    }
    Result::Err(HotError::TargetNotFound)
}

/// The dynamic-library target the descriptor resolves to, or the exact
/// error of [`target_spec`].
pub fn find_dylib_target<'a>(meta: &'a WorkspaceMetadata, dylib_toml: &String) -> (r: Result<
    &'a TargetMeta,
    HotError,
>)
    ensures
        match r {
            Result::Ok(t) => target_spec(*meta, dylib_toml@) == Result::Ok::<TargetMeta, HotError>(
                *t,
            ),
            Result::Err(e) => target_spec(*meta, dylib_toml@) == Result::Err::<
                TargetMeta,
                HotError,
            >(e),
        },
{
    let pkg = match find_dylib_pkg(meta, dylib_toml) {
        Result::Ok(pkg) => pkg,
        Result::Err(e) => {
            return Result::Err(e);
        },
    };
    let mut i: usize = 0;
    while i < pkg.targets.len()
        invariant
            0 <= i <= pkg.targets@.len(),
            located_pkg(*meta, dylib_toml@) == Option::Some(*pkg),
            forall|k: int| 0 <= k < i ==> !target_is_dylib(#[trigger] pkg.targets@[k]),
        decreases pkg.targets@.len() - i,
    {
        if target_has_dylib(&pkg.targets[i]) {
            proof {
                lemma_first_dylib_target(pkg.targets@);
            }
            return Result::Ok(&pkg.targets[i]);
        }
        i += 1;
    }
    proof {
        lemma_first_dylib_target(pkg.targets@);
    }
    Result::Err(HotError::NotADynamicLibrary)
}

/// The artifact path the descriptor resolves to, or the exact error of
/// [`resolve_spec`].
pub fn find_dylib_path(
    meta: &WorkspaceMetadata,
    dylib_toml: &String,
    os: TargetOs,
    profile: Profile,
) -> (r: Result<String, HotError>)
    ensures
        match r {
            Result::Ok(path) => resolve_spec(*meta, dylib_toml@, os, profile) == Result::Ok::<
                Seq<char>,
                HotError,
            >(path@),
            Result::Err(e) => resolve_spec(*meta, dylib_toml@, os, profile) == Result::Err::<
                Seq<char>,
                HotError,
            >(e),
        },
{
    let target = match find_dylib_target(meta, dylib_toml) {
        Result::Ok(t) => t,
        Result::Err(e) => {
            return Result::Err(e);
        },
    };
    let mut path = meta.target_directory.clone();
    path.append("/");
    let profile_part = profile_dir(profile);
    path.append(profile_part.as_str());
    path.append("/lib");
    path.append(target.name.as_str());
    path.append(".");
    let ext = dylib_extension(os);
    path.append(ext.as_str());
    Result::Ok(path)
}

/// Builds the staging path of [`staging_path_chars`] as a string.
pub fn build_staging_path(
    temp_root: &String,
    pkg_name: &String,
    target_name: &String,
    counter: u64,
    os: TargetOs,
) -> (r: String)
    ensures
        r@ == staging_path_chars(temp_root@, pkg_name@, target_name@, counter, os),
{
    let mut path = temp_root.clone();
    path.append("/hot_crate/");
    path.append(pkg_name.as_str());
    path.append("/lib");
    path.append(target_name.as_str());
    path.append("-");
    let digits = u64_to_decimal(counter);
    path.append(digits.as_str());
    path.append(".");
    let ext = dylib_extension(os);
    path.append(ext.as_str());
    path
}

/// Two sequences that differ somewhere in the middle differ as wholes,
/// whatever surrounds them.
proof fn lemma_concat_mid_distinct(p: Seq<char>, a: Seq<char>, b: Seq<char>, q: Seq<char>)
    requires
        a != b,
    ensures
        p + a + q != p + b + q,
{
    if a.len() != b.len() {
        assert((p + a + q).len() != (p + b + q).len());
    } else {
        if forall|k: int| 0 <= k < a.len() ==> a[k] == b[k] {
            assert(a =~= b);
        }
        let k = choose|k: int| 0 <= k < a.len() && a[k] != b[k];
        assert((p + a + q)[p.len() + k] == a[k]);
        assert((p + b + q)[p.len() + k] == b[k]);
    }
}

/// Staging paths derived from distinct reload counters are distinct, for
/// any temporary root, package and target: an executed reload never
/// presents the loader with a path it has already seen from this manager.
pub proof fn lemma_staging_paths_distinct(
    temp_root: Seq<char>,
    pkg_name: Seq<char>,
    target_name: Seq<char>,
    c1: u64,
    c2: u64,
    os: TargetOs,
)
    requires
        c1 != c2,
    ensures
        staging_path_chars(temp_root, pkg_name, target_name, c1, os) != staging_path_chars(
            temp_root,
            pkg_name,
            target_name,
            c2,
            os,
        ),
{
    lemma_dec_rep_injective(c1 as nat, c2 as nat);
    let prefix = temp_root + "/hot_crate/"@ + pkg_name + "/lib"@ + target_name + "-"@;
    let suffix = "."@ + extension_chars(os);
    assert(staging_path_chars(temp_root, pkg_name, target_name, c1, os) =~= prefix + dec_rep(
        c1 as nat,
    ) + suffix);
    assert(staging_path_chars(temp_root, pkg_name, target_name, c2, os) =~= prefix + dec_rep(
        c2 as nat,
    ) + suffix);
    lemma_concat_mid_distinct(prefix, dec_rep(c1 as nat), dec_rep(c2 as nat), suffix);
}

/// Two staging resolutions of one manager state at distinct counters
/// never yield the same path. The metadata, descriptor, temporary root
/// and platform are exactly the state a committed reload leaves
/// untouched while advancing the counter, so consecutive executed
/// reloads always present the loader with fresh paths.
pub proof fn lemma_staging_spec_distinct(
    meta: WorkspaceMetadata,
    dylib_toml: Seq<char>,
    temp_root: Seq<char>,
    c1: u64,
    c2: u64,
    os: TargetOs,
)
    requires
        c1 != c2,
    ensures
        match (
            staging_spec(meta, dylib_toml, temp_root, c1, os),
            staging_spec(meta, dylib_toml, temp_root, c2, os),
        ) {
            (Result::Ok(p1), Result::Ok(p2)) => p1 != p2,
            (Result::Err(e1), Result::Err(e2)) => e1 == e2,
            _ => false,
        },
{
    match located_pkg(meta, dylib_toml) {
        Option::None => {
        },
        Option::Some(pkg) => {
            match located_target_idx(pkg) {
                Option::None => {
                },
                Option::Some(i) => {
                    lemma_staging_paths_distinct(
                        temp_root,
                        pkg.name@,
                        pkg.targets@[i].name@,
                        c1,
                        c2,
                        os,
                    );
                },
            }
        },
    }
}

} // verus!
