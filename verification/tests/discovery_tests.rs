use module_host::discovery::{build_env_string, classify_entry, classify_file_name,
    classify_listing, EntryAction};
use module_host::types::ModuleKind;

#[test]
fn suffixes_classify_in_order() {
    assert_eq!(classify_file_name("a_run.wasm"), Some(ModuleKind::BytecodeRunner));
    assert_eq!(classify_file_name("a.wasm"), Some(ModuleKind::BytecodeWorker));
    assert_eq!(classify_file_name("a_run.so"), Some(ModuleKind::NativeRunner));
    assert_eq!(classify_file_name("a.so"), Some(ModuleKind::NativeWorker));
    assert_eq!(classify_file_name("readme.txt"), None);
    assert_eq!(classify_file_name("wasm"), None);
}

#[test]
fn runner_suffix_wins_over_worker_suffix() {
    // `_run.wasm` also ends with `.wasm`; the longer suffix decides.
    assert_eq!(classify_file_name("x_run.wasm"), Some(ModuleKind::BytecodeRunner));
    assert_eq!(classify_file_name("x_run.so"), Some(ModuleKind::NativeRunner));
}

#[test]
fn lost_and_found_directory_is_skipped() {
    assert_eq!(classify_entry("lost+found", true), EntryAction::Skip);
}

#[test]
fn other_directories_abort_startup() {
    assert_eq!(classify_entry("plugins", true), EntryAction::Fatal);
}

#[test]
fn plain_files_with_odd_names_are_ignored() {
    assert_eq!(classify_entry("lost+found", false), EntryAction::Ignore);
    assert_eq!(classify_entry("notes.md", false), EntryAction::Ignore);
}

#[test]
fn empty_directory_yields_no_modules() {
    let entries: Vec<(String, bool)> = Vec::new();
    let classified = classify_listing(&entries).unwrap();
    assert!(!classified.has_modules());
}

#[test]
fn listing_buckets_modules_by_kind() {
    let entries = vec![
        ("alive-mod.wasm".to_string(), false),
        ("r_run.wasm".to_string(), false),
        ("lost+found".to_string(), true),
        ("native.so".to_string(), false),
        ("n_run.so".to_string(), false),
        ("readme.txt".to_string(), false),
    ];
    let classified = classify_listing(&entries).unwrap();
    assert_eq!(classified.bytecode_workers, vec!["alive-mod.wasm".to_string()]);
    assert_eq!(classified.bytecode_runners, vec!["r_run.wasm".to_string()]);
    assert_eq!(classified.native_workers, vec!["native.so".to_string()]);
    assert_eq!(classified.native_runners, vec!["n_run.so".to_string()]);
    assert!(classified.has_modules());
}

#[test]
fn listing_with_unexpected_directory_fails_with_its_name() {
    let entries = vec![
        ("ok.wasm".to_string(), false),
        ("lost+found".to_string(), true),
        ("stray".to_string(), true),
    ];
    let err = classify_listing(&entries).unwrap_err();
    assert_eq!(err, "stray");
}

#[test]
fn env_string_renders_pairs_with_trailing_separator() {
    let pairs = vec![
        ("HOME".to_string(), "/root".to_string()),
        ("TERM".to_string(), "xterm".to_string()),
    ];
    assert_eq!(build_env_string(&pairs), "HOME=/root;;;TERM=xterm;;;");
    let none: Vec<(String, String)> = Vec::new();
    assert_eq!(build_env_string(&none), "");
}
