use boltffi_bindgen::cli::native_link::{
    extract_native_static_libraries, link_search_paths, parse_native_static_libraries, BuildScriptMessage,
    NativeLinkMetadata,
};

#[test]
fn parses_native_static_library_flags_from_cargo_output() {
    let parsed = parse_native_static_libraries("note: native-static-libs: -framework Security -lresolv -lc++")
        .expect("expected static library flags");

    assert_eq!(parsed, vec!["-framework", "Security", "-lresolv", "-lc++"]);
}

#[test]
fn parses_native_static_library_flags_from_ansi_colored_cargo_output() {
    let parsed = parse_native_static_libraries("note: native-static-libs: -lSystem -lc -lm\u{1b}[0m")
        .expect("expected static library flags");

    assert_eq!(parsed, vec!["-lSystem", "-lc", "-lm"]);
}

#[test]
fn preserves_repeated_framework_prefixes_in_native_static_library_flags() {
    let parsed = parse_native_static_libraries(
        "note: native-static-libs: -framework Security -framework SystemConfiguration -lobjc",
    )
    .expect("expected static library flags");

    assert_eq!(
        parsed,
        vec!["-framework", "Security", "-framework", "SystemConfiguration", "-lobjc",]
    );
}

#[test]
fn extracts_last_native_static_library_line_from_combined_output() {
    let parsed = extract_native_static_libraries(
        "Compiling demo\nnote: native-static-libs: -lSystem\nFinished\nnote: native-static-libs: -framework CoreFoundation -lSystem\n",
    )
    .expect("expected static library flags");

    assert_eq!(parsed, vec!["-framework", "CoreFoundation", "-lSystem"]);
}

fn message(reason: &str, paths: &[&str]) -> BuildScriptMessage {
    BuildScriptMessage {
        reason: reason.to_string(),
        linked_paths: paths.iter().map(|p| p.to_string()).collect(),
    }
}

#[test]
fn extracts_link_search_paths_from_build_script_messages() {
    let messages = vec![
        message("compiler-artifact", &[]),
        message("build-script-executed", &["native=/tmp/out", "framework=/tmp/frameworks", "native=/tmp/out"]),
    ];
    let linked_paths = link_search_paths(&messages);

    assert_eq!(
        linked_paths,
        vec!["native=/tmp/out".to_string(), "framework=/tmp/frameworks".to_string(),]
    );
}

#[test]
fn link_search_paths_keep_first_mention_across_messages() {
    let messages = vec![
        message("build-script-executed", &["native=/b"]),
        message("compiler-artifact", &["native=/ignored"]),
        message("build-script-executed", &["native=/a", "native=/b"]),
    ];
    assert_eq!(link_search_paths(&messages), vec!["native=/b", "native=/a"]);
}

#[test]
fn rejects_lines_without_flags() {
    assert!(parse_native_static_libraries("note: native-static-libs:").is_none());
    assert!(parse_native_static_libraries("note: native-static-libs:   \t ").is_none());
    assert!(parse_native_static_libraries("warning: unused import").is_none());
    assert!(extract_native_static_libraries("").is_none());
    assert!(extract_native_static_libraries("Compiling demo\nFinished\n").is_none());
}

#[test]
fn strips_escapes_inside_the_note() {
    let parsed = parse_native_static_libraries("\u{1b}[1mnote\u{1b}[0m: native-static-libs: \u{1b}[32m-lz\u{1b}[0m -lm")
        .expect("flags");
    assert_eq!(parsed, vec!["-lz", "-lm"]);
    let parsed = parse_native_static_libraries("native-static-libs:\u{1b}X-lfoo").expect("flags");
    assert_eq!(parsed, vec!["-lfoo"]);
}

#[test]
fn takes_flags_from_a_windows_line_ending() {
    let parsed = extract_native_static_libraries("note: native-static-libs: -lws2_32\r\nFinished\r\n").expect("flags");
    assert_eq!(parsed, vec!["-lws2_32"]);
}

#[test]
fn metadata_from_output_combines_both_streams() {
    let messages = vec![message("build-script-executed", &["native=/x"])];
    let meta = NativeLinkMetadata::from_output_text("Compiling demo", "note: native-static-libs: -lc", &messages)
        .expect("metadata");
    assert_eq!(meta.native_static_libraries, vec!["-lc"]);
    assert_eq!(meta.native_link_search_paths, vec!["native=/x"]);

    let error = NativeLinkMetadata::from_output_text("Compiling demo", "Finished", &messages)
        .expect_err("no note");
    assert_eq!(
        error.to_string(),
        "cargo rustc --print=native-static-libs did not emit link metadata"
    );
}
