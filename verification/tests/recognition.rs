use presence_core::classify::AllowedProcess;
use presence_core::classify::classify_window;
use presence_core::classify::compile_entry;
use presence_core::classify::extract_document_name;
use presence_core::classify::file_name_of_path;

fn entry(process_name: &str, patterns: Vec<&str>) -> AllowedProcess {
    AllowedProcess {
        process_name: process_name.to_string(),
        icon_path: format!("icons/{}.png", process_name),
        display_name: process_name.to_uppercase(),
        app_id: None,
        title_extract_patterns: Some(patterns.into_iter().map(|s| s.to_string()).collect()),
    }
}

#[test]
fn invalid_patterns_are_dropped_on_compile() {
    let compiled = compile_entry(&entry("code.exe", vec!["^(.+) - Visual", "["]));
    assert_eq!(compiled.patterns.len(), 1);
    assert_eq!(compiled.process_name, "code.exe");
    assert_eq!(compiled.icon_path, "icons/code.exe.png");
    assert_eq!(compiled.display_name, "CODE.EXE");
}

#[test]
fn extraction_prefers_the_first_capture_group() {
    let compiled = compile_entry(&entry("code.exe", vec!["^(.+) - Visual Studio Code$"]));
    let doc = extract_document_name(&compiled, "notes.md - Visual Studio Code");
    assert_eq!(doc, "notes.md");
}

#[test]
fn extraction_falls_back_to_the_whole_match() {
    let compiled = compile_entry(&entry("any.exe", vec!["interlude"]));
    let doc = extract_document_name(&compiled, "an interlude plays");
    assert_eq!(doc, "interlude");
}

#[test]
fn first_matching_pattern_wins() {
    let compiled = compile_entry(&entry("any.exe", vec!["nomatch(\\d+)", "- (.+)$", "(.+)"]));
    let doc = extract_document_name(&compiled, "player - song");
    assert_eq!(doc, "song");
}

#[test]
fn no_matching_pattern_yields_empty() {
    let compiled = compile_entry(&entry("any.exe", vec!["\\d{4}"]));
    assert_eq!(extract_document_name(&compiled, "no digits here"), "");
    let bare = compile_entry(&AllowedProcess {
        process_name: "bare.exe".to_string(),
        icon_path: String::new(),
        display_name: String::new(),
        app_id: None,
        title_extract_patterns: None,
    });
    assert_eq!(bare.patterns.len(), 0);
    assert_eq!(extract_document_name(&bare, "anything"), "");
}

#[test]
fn classification_reports_allowed_windows_only() {
    let entries = vec![
        compile_entry(&entry("code.exe", vec!["^(.+) - Visual Studio Code$"])),
        compile_entry(&entry("word.exe", vec![])),
    ];
    let hit = classify_window(42, "a.rs - Visual Studio Code", "code.exe", &entries)
        .expect("allowed process should be reported");
    assert_eq!(hit.hwnd, 42);
    assert_eq!(hit.title, "a.rs - Visual Studio Code");
    assert_eq!(hit.process_name, "code.exe");
    assert_eq!(hit.icon_path, "icons/code.exe.png");
    assert_eq!(hit.display_name, "CODE.EXE");
    assert_eq!(hit.document_name, "a.rs");

    assert!(classify_window(7, "whatever", "games.exe", &entries).is_none());
}

#[test]
fn image_paths_reduce_to_their_file_name() {
    assert_eq!(file_name_of_path("\\Device\\HarddiskVolume3\\app\\code.exe"), "code.exe");
    assert_eq!(file_name_of_path("code.exe"), "code.exe");
    assert_eq!(file_name_of_path(""), "");
    assert_eq!(file_name_of_path("dir\\"), "");
}
