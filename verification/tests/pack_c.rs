use boltffi_bindgen::cli::pack_c::{
    c_package_copies, ensure_c_library_outputs, ensure_c_pack_cargo_args_supported, ensure_c_pack_enabled,
    require_host_platform, BindingExpansion, CPackCopy, CPackDir, LibraryFileNames, LibraryTarget, PackCAction,
    PackCEvent, PackCFailure, PackCPhase, PackCState,
};

#[test]
fn c_pack_requires_shared_and_static_library_outputs() {
    for (staticlib, cdylib) in [(false, true), (true, false), (false, false)] {
        let expansion = BindingExpansion::fixture(
            "/external/workspace/Cargo.toml",
            "/external/workspace/demo/Cargo.toml",
            Vec::new(),
        )
        .fixture_outputs(staticlib, cdylib);
        let error = ensure_c_library_outputs(&expansion).expect_err("missing output rejects");
        assert!(error.to_string().contains("both cdylib and staticlib"));
    }
}

#[test]
fn c_pack_accepts_a_library_with_both_outputs() {
    let expansion = BindingExpansion::fixture(
        "/external/workspace/Cargo.toml",
        "/external/workspace/demo/Cargo.toml",
        vec!["extra".to_string()],
    )
    .fixture_outputs(true, true);
    assert!(ensure_c_library_outputs(&expansion).is_ok());
    assert_eq!(expansion.features, vec!["extra"]);
}

#[test]
fn c_pack_is_host_only() {
    assert!(ensure_c_pack_cargo_args_supported(None, None).is_ok());
    let error = ensure_c_pack_cargo_args_supported(Some("aarch64-apple-darwin"), Some("x86_64-unknown-linux-gnu"))
        .expect_err("target flag");
    assert_eq!(error.to_string(), "pack c is host-only; remove cargo --target 'aarch64-apple-darwin'");
    let error = ensure_c_pack_cargo_args_supported(None, Some("x86_64-unknown-linux-gnu")).expect_err("build.target");
    assert_eq!(error.to_string(), "pack c is host-only; remove cargo build.target 'x86_64-unknown-linux-gnu'");
}

#[test]
fn c_pack_requires_the_target_enabled_and_opted_in() {
    assert!(ensure_c_pack_enabled(true, true).is_ok());
    let error = ensure_c_pack_enabled(true, false).expect_err("experimental without opt-in");
    assert!(error.to_string().contains("c is experimental"));
    assert_eq!(error.to_string(), "c is experimental, use --experimental or add \"c\" to experimental");
    let error = ensure_c_pack_enabled(false, false).expect_err("disabled");
    assert_eq!(error.to_string(), "targets.c.enabled = false");
    let error = ensure_c_pack_enabled(false, true).expect_err("disabled");
    assert_eq!(error.to_string(), "targets.c.enabled = false");
}

#[test]
fn c_pack_rejects_an_unknown_host() {
    let error = require_host_platform(None).expect_err("no platform");
    assert_eq!(error.to_string(), "pack c is unsupported on this host platform");
    let names = LibraryFileNames { shared: "libx.so".to_string(), static_archive: "libx.a".to_string(), import: None };
    let got = require_host_platform(Some(LibraryFileNames {
        shared: "libx.so".to_string(),
        static_archive: "libx.a".to_string(),
        import: None,
    }))
    .expect("platform");
    assert_eq!(got, names);
}

fn copy(from_dir: CPackDir, from_name: &str, to_dir: CPackDir, to_name: &str) -> CPackCopy {
    CPackCopy { from_dir, from_name: from_name.to_string(), to_dir, to_name: to_name.to_string() }
}

#[test]
fn c_package_copies_header_and_libraries() {
    let artifact = LibraryFileNames {
        shared: "libdemo_ffi.so".to_string(),
        static_archive: "libdemo_ffi.a".to_string(),
        import: None,
    };
    let library = LibraryFileNames { shared: "libdemo.so".to_string(), static_archive: "libdemo.a".to_string(), import: None };
    let copies = c_package_copies("demo", &artifact, &library);
    assert_eq!(
        copies,
        vec![
            copy(CPackDir::Output, "boltffi.h", CPackDir::Include, "demo.h"),
            copy(CPackDir::Profile, "libdemo_ffi.so", CPackDir::Lib, "libdemo.so"),
            copy(CPackDir::Profile, "libdemo_ffi.a", CPackDir::Lib, "libdemo.a"),
        ]
    );
}

#[test]
fn c_package_copies_the_import_library_where_both_have_one() {
    let artifact = LibraryFileNames {
        shared: "demo_ffi.dll".to_string(),
        static_archive: "demo_ffi.lib".to_string(),
        import: Some("demo_ffi.dll.lib".to_string()),
    };
    let library = LibraryFileNames {
        shared: "demo.dll".to_string(),
        static_archive: "demo.lib".to_string(),
        import: Some("demo.dll.lib".to_string()),
    };
    let copies = c_package_copies("demo", &artifact, &library);
    assert_eq!(copies.len(), 4);
    assert_eq!(copies[3], copy(CPackDir::Profile, "demo_ffi.dll.lib", CPackDir::Lib, "demo.dll.lib"));
    let library_without = LibraryFileNames { import: None, ..library };
    assert_eq!(c_package_copies("demo", &artifact, &library_without).len(), 3);
}

fn names(import: bool) -> Option<(LibraryFileNames, LibraryFileNames)> {
    let artifact = LibraryFileNames {
        shared: "libdemo_ffi.so".to_string(),
        static_archive: "libdemo_ffi.a".to_string(),
        import: if import { Some("demo_ffi.dll.lib".to_string()) } else { None },
    };
    let library = LibraryFileNames {
        shared: "libdemo.so".to_string(),
        static_archive: "libdemo.a".to_string(),
        import: if import { Some("demo.dll.lib".to_string()) } else { None },
    };
    Some((artifact, library))
}

fn both() -> LibraryTarget {
    LibraryTarget { cdylib: true, staticlib: true }
}

#[test]
fn c_pack_steps_run_every_check_then_build_and_package() {
    let state = PackCState::new("demo".to_string(), true, false);
    let (state, action) = state.step(PackCEvent::Begin { c_enabled: true, c_selected: true });
    assert_eq!(action, PackCAction::ResolveCargo);
    let (state, action) =
        state.step(PackCEvent::CargoResolved { target_selector: None, configured_build_target: None });
    assert_eq!(action, PackCAction::ResolveExpansion);
    let (state, action) = state.step(PackCEvent::ExpansionResolved { library: both() });
    assert_eq!(action, PackCAction::Generate);
    let (state, action) = state.step(PackCEvent::Generated);
    assert_eq!(action, PackCAction::ResolveHost);
    let (state, action) = state.step(PackCEvent::HostResolved { names: names(false) });
    assert_eq!(action, PackCAction::Build);
    let (state, action) = state.step(PackCEvent::Built { success: true });
    assert_eq!(
        action,
        PackCAction::Package(vec![
            copy(CPackDir::Output, "boltffi.h", CPackDir::Include, "demo.h"),
            copy(CPackDir::Profile, "libdemo_ffi.so", CPackDir::Lib, "libdemo.so"),
            copy(CPackDir::Profile, "libdemo_ffi.a", CPackDir::Lib, "libdemo.a"),
        ])
    );
    let (state, action) = state.step(PackCEvent::Packaged);
    assert_eq!(action, PackCAction::Finish);
    assert_eq!(state.phase, PackCPhase::Done);
}

#[test]
fn c_pack_steps_skip_generation_and_build_when_asked() {
    let state = PackCState::new("demo".to_string(), false, true);
    let (state, _) = state.step(PackCEvent::Begin { c_enabled: true, c_selected: true });
    let (state, _) = state.step(PackCEvent::CargoResolved { target_selector: None, configured_build_target: None });
    let (state, action) = state.step(PackCEvent::ExpansionResolved { library: both() });
    assert_eq!(action, PackCAction::ResolveHost);
    let (state, action) = state.step(PackCEvent::HostResolved { names: names(true) });
    match action {
        PackCAction::Package(copies) => {
            assert_eq!(copies.len(), 4);
            assert_eq!(copies[3], copy(CPackDir::Profile, "demo_ffi.dll.lib", CPackDir::Lib, "demo.dll.lib"));
        }
        other => panic!("expected packaging, got {:?}", other),
    }
    assert_eq!(state.phase, PackCPhase::Packaging);
}

fn check_error(action: PackCAction) -> String {
    match action {
        PackCAction::Fail(PackCFailure::Check(error)) => error.to_string(),
        other => panic!("expected a failed check, got {:?}", other),
    }
}

#[test]
fn c_pack_steps_stop_at_the_first_failed_check() {
    let (state, action) = PackCState::new("demo".to_string(), false, false)
        .step(PackCEvent::Begin { c_enabled: true, c_selected: false });
    assert!(check_error(action).contains("c is experimental"));
    assert_eq!(state.phase, PackCPhase::Failed);

    let (state, _) = PackCState::new("demo".to_string(), false, false).step(PackCEvent::Begin { c_enabled: true, c_selected: true });
    let (_, action) = state.step(PackCEvent::CargoResolved {
        target_selector: Some("aarch64-apple-darwin".to_string()),
        configured_build_target: None,
    });
    assert_eq!(check_error(action), "pack c is host-only; remove cargo --target 'aarch64-apple-darwin'");

    let (state, _) = PackCState::new("demo".to_string(), false, false).step(PackCEvent::Begin { c_enabled: true, c_selected: true });
    let (state, _) = state.step(PackCEvent::CargoResolved { target_selector: None, configured_build_target: None });
    let (_, action) = state.step(PackCEvent::ExpansionResolved { library: LibraryTarget { cdylib: true, staticlib: false } });
    assert!(check_error(action).contains("both cdylib and staticlib"));

    let (state, _) = PackCState::new("demo".to_string(), false, false).step(PackCEvent::Begin { c_enabled: true, c_selected: true });
    let (state, _) = state.step(PackCEvent::CargoResolved { target_selector: None, configured_build_target: None });
    let (state, _) = state.step(PackCEvent::ExpansionResolved { library: both() });
    let (_, action) = state.step(PackCEvent::HostResolved { names: None });
    assert_eq!(check_error(action), "pack c is unsupported on this host platform");
}

#[test]
fn c_pack_steps_report_a_failed_build_and_ignore_stray_events() {
    let (state, _) = PackCState::new("demo".to_string(), false, false).step(PackCEvent::Begin { c_enabled: true, c_selected: true });
    let (state, action) = state.step(PackCEvent::Generated);
    assert_eq!(action, PackCAction::Wait);
    assert_eq!(state.phase, PackCPhase::CheckCargo);
    let (state, _) = state.step(PackCEvent::CargoResolved { target_selector: None, configured_build_target: None });
    let (state, _) = state.step(PackCEvent::ExpansionResolved { library: both() });
    let (state, _) = state.step(PackCEvent::HostResolved { names: names(false) });
    let (state, action) = state.step(PackCEvent::Built { success: false });
    assert_eq!(action, PackCAction::Fail(PackCFailure::BuildFailed));
    assert_eq!(state.phase, PackCPhase::Failed);
}
