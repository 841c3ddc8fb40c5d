use hot_crate::HotCrate;
use hot_crate::HotError;
use hot_crate::PackageMeta;
use hot_crate::PluginA;
use hot_crate::PluginB;
use hot_crate::Profile;
use hot_crate::ReloadOutcome;
use hot_crate::TargetMeta;
use hot_crate::TargetOs;
use hot_crate::Timestamp;
use hot_crate::WorkspaceMetadata;
use hot_crate::types::timestamp_eq;

fn plugin_meta() -> WorkspaceMetadata {
    WorkspaceMetadata {
        packages: vec![PackageMeta {
            name: String::from("plugins"),
            manifest_path: String::from("/w/plugins/Cargo.toml"),
            targets: vec![TargetMeta {
                name: String::from("plugins"),
                crate_types: vec![String::from("dylib")],
            }],
        }],
        target_directory: String::from("/w/target"),
    }
}

fn ts(secs: u64) -> Option<Timestamp> {
    Some(Timestamp { secs, nanos: 0 })
}

fn loaded(handle: u32) -> HotCrate<u32> {
    HotCrate::load(
        plugin_meta(),
        String::from("/w/plugins/Cargo.toml"),
        TargetOs::Linux,
        Profile::Debug,
        String::from("/tmp"),
        handle,
        ts(100),
    )
    .unwrap()
}

#[test]
fn load_primes_manager_state() {
    let m = loaded(7);
    assert_eq!(*m.lib(), 7);
    assert_eq!(m.lib_path().as_str(), "/w/target/debug/libplugins.so");
    assert_eq!(m.lib_timestamp(), ts(100));
    assert_eq!(m.reload_counter(), 0);
}

#[test]
fn load_fails_without_matching_package() {
    let r = HotCrate::load(
        plugin_meta(),
        String::from("/elsewhere/Cargo.toml"),
        TargetOs::Linux,
        Profile::Debug,
        String::from("/tmp"),
        7u32,
        ts(100),
    );
    assert!(matches!(r, Err(HotError::TargetNotFound)));
}

#[test]
fn load_fails_without_dylib_output() {
    let meta = WorkspaceMetadata {
        packages: vec![PackageMeta {
            name: String::from("plugins"),
            manifest_path: String::from("/w/plugins/Cargo.toml"),
            targets: vec![TargetMeta {
                name: String::from("plugins"),
                crate_types: vec![String::from("lib")],
            }],
        }],
        target_directory: String::from("/w/target"),
    };
    let r = HotCrate::load(
        meta,
        String::from("/w/plugins/Cargo.toml"),
        TargetOs::Linux,
        Profile::Debug,
        String::from("/tmp"),
        7u32,
        ts(100),
    );
    assert!(matches!(r, Err(HotError::NotADynamicLibrary)));
}

#[test]
fn staleness_is_timestamp_inequality() {
    let m = loaded(7);
    assert!(!m.is_stale(ts(100)));
    assert!(m.is_stale(ts(101)));
    assert!(m.is_stale(None));
    assert!(m.is_stale(Some(Timestamp { secs: 100, nanos: 1 })));
}

#[test]
fn unchanged_timestamp_never_reloads() {
    let mut m = loaded(7);
    for _ in 0..5 {
        let r = m.try_reload(ts(100), None).unwrap();
        assert!(r.is_none());
        assert_eq!(m.reload_counter(), 0);
        assert_eq!(*m.lib(), 7);
        assert_eq!(m.lib_timestamp(), ts(100));
    }
}

#[test]
fn committed_reload_swaps_handle_and_counts() {
    let mut m = loaded(7);
    let old = m
        .force_reload(ReloadOutcome::Opened { handle: 9, timestamp: ts(200) })
        .unwrap();
    assert_eq!(old, 7);
    assert_eq!(*m.lib(), 9);
    assert_eq!(m.lib_timestamp(), ts(200));
    assert_eq!(m.reload_counter(), 1);
}

#[test]
fn failed_stage_keeps_active_handle() {
    let mut m = loaded(7);
    let r = m.force_reload(ReloadOutcome::StageFailed(String::from("disk full")));
    assert!(matches!(r, Err(HotError::StageFailed(ref msg)) if msg == "disk full"));
    assert_eq!(*m.lib(), 7);
    assert_eq!(m.lib_timestamp(), ts(100));
    assert_eq!(m.reload_counter(), 0);
}

#[test]
fn failed_reopen_keeps_active_handle() {
    let mut m = loaded(7);
    let before = *m.lib();
    let r = m.force_reload(ReloadOutcome::OpenFailed(String::from("not an object file")));
    assert!(matches!(r, Err(HotError::ReopenFailed(ref msg)) if msg == "not an object file"));
    assert_eq!(*m.lib(), before);
    assert_eq!(m.reload_counter(), 0);
    assert_eq!(m.lib_path().as_str(), "/w/target/debug/libplugins.so");
}

#[test]
fn poll_scenario_with_coarse_clock() {
    let mut m = loaded(1);
    assert_eq!(m.lib_timestamp(), ts(100));

    let staging = m.tmp_dylib_path().unwrap();
    assert_eq!(staging, "/tmp/hot_crate/plugins/libplugins-0.so");
    assert!(staging.ends_with("-0.so"));

    let old = m
        .try_reload(ts(101), Some(ReloadOutcome::Opened { handle: 2, timestamp: ts(101) }))
        .unwrap();
    assert_eq!(old, Some(1));
    assert_eq!(m.reload_counter(), 1);
    assert_eq!(*m.lib(), 2);

    let r = m.try_reload(ts(101), None).unwrap();
    assert!(r.is_none());
    assert_eq!(m.reload_counter(), 1);
    assert_eq!(*m.lib(), 2);
}

#[test]
fn consecutive_reloads_use_fresh_staging_paths() {
    let mut m = loaded(1);
    let first = m.tmp_dylib_path().unwrap();
    m.force_reload(ReloadOutcome::Opened { handle: 2, timestamp: ts(200) })
        .unwrap();
    let second = m.tmp_dylib_path().unwrap();
    assert_ne!(first, second);
    assert_eq!(first, "/tmp/hot_crate/plugins/libplugins-0.so");
    assert_eq!(second, "/tmp/hot_crate/plugins/libplugins-1.so");
}

#[test]
fn aborted_reload_reuses_staging_path() {
    let mut m = loaded(1);
    let first = m.tmp_dylib_path().unwrap();
    let r = m.force_reload(ReloadOutcome::StageFailed(String::from("copy failed")));
    assert!(r.is_err());
    let second = m.tmp_dylib_path().unwrap();
    assert_eq!(first, second);
}

#[test]
fn unload_returns_active_handle() {
    let m = loaded(7);
    assert_eq!(m.unload(), 7);
}

#[test]
fn timestamp_equality_cases() {
    assert!(timestamp_eq(&None, &None));
    assert!(!timestamp_eq(&None, &ts(1)));
    assert!(!timestamp_eq(&ts(1), &None));
    assert!(timestamp_eq(&ts(1), &ts(1)));
    assert!(!timestamp_eq(&ts(1), &ts(2)));
    assert!(!timestamp_eq(
        &Some(Timestamp { secs: 1, nanos: 0 }),
        &Some(Timestamp { secs: 1, nanos: 5 })
    ));
}

#[test]
fn error_variants_carry_diagnostics() {
    let errs = vec![
        HotError::TargetNotFound,
        HotError::NotADynamicLibrary,
        HotError::ArtifactUnavailable,
        HotError::LoadFailed(String::from("bad magic")),
        HotError::SymbolNotFound(String::from("load_plugin")),
        HotError::StageFailed(String::from("copy")),
        HotError::ReopenFailed(String::from("open")),
    ];
    assert!(matches!(errs[3], HotError::LoadFailed(ref m) if m == "bad magic"));
    assert!(matches!(errs[4], HotError::SymbolNotFound(ref m) if m == "load_plugin"));
    assert_eq!(errs.len(), 7);
}

#[test]
fn sample_plugins() {
    let a = PluginA::new(42);
    assert_eq!(a.typeid_of_x(), 42);
    let b = PluginB {};
    assert_eq!(b, PluginB {});
}
