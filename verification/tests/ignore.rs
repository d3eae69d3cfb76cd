use baker::cli::processor::{entry_action, EntryAction};
use baker::ignore::{ignore_pattern_list, parse_bakerignore_file};
use baker::import::{build_templates_import_globset, imported_paths};

#[test]
fn parse_bakerignore_file_adds_default_patterns() {
    let globset = parse_bakerignore_file("/tpl", None).unwrap();
    assert!(globset.is_match("/tpl/.git"));
    assert!(globset.is_match("/tpl/foo/.DS_Store"));
    assert!(globset.is_match("/tpl/baker.yaml"));
    assert!(globset.is_match("/tpl/baker.yml"));
    assert!(globset.is_match("/tpl/.bakerignore"));
    assert!(!globset.is_match("/tpl/src/main.rs"));
}

#[test]
fn parse_bakerignore_file_adds_custom_patterns() {
    let contents = "target/\n*.tmp\n# A comment\n   \nsecret.key\n";
    let globset = parse_bakerignore_file("/tpl", Some(contents)).unwrap();
    assert!(globset.is_match("/tpl/target/"));
    assert!(globset.is_match("/tpl/test.tmp"));
    assert!(globset.is_match("/tpl/secret.key"));
    assert!(!globset.is_match("/tpl/normal.txt"));
    assert!(globset.is_match("/tpl/baker.yaml"));
}

#[test]
fn ignore_list_trims_lines_and_drops_comments() {
    let list = ignore_pattern_list("/r", Some("  a.txt  \r\n#x\n\n b/**\n"));
    assert_eq!(list.len(), 15);
    assert_eq!(list[0], "/r/.git/**");
    assert_eq!(list[12], "/r/baker.json");
    assert_eq!(list[13], "/r/a.txt");
    assert_eq!(list[14], "/r/b/**");
}

#[test]
fn invalid_ignore_pattern_is_an_error() {
    assert!(parse_bakerignore_file("/tpl", Some("a[\n")).is_err());
}

#[test]
fn build_templates_import_globset_matches_files() {
    let patterns = vec!["**/*.j2".to_string()];
    let globset = build_templates_import_globset("/tmp/tpl", &patterns).unwrap();
    assert!(globset.is_match("/tmp/tpl/example.j2"));
    assert!(!globset.is_match("/tmp/tpl/example.txt"));
}

#[test]
fn build_templates_import_globset_returns_none_when_empty() {
    let patterns: Vec<String> = Vec::new();
    assert!(build_templates_import_globset("/tmp/tpl", &patterns).is_none());
}

#[test]
fn build_templates_import_globset_skips_invalid_patterns() {
    let patterns = vec!["a[".to_string(), "*.j2".to_string()];
    let globset = build_templates_import_globset("/t", &patterns).unwrap();
    assert!(globset.is_match("/t/x.j2"));
    assert_eq!(globset.len(), 1);
}

#[test]
fn a_set_of_no_parsing_pattern_is_still_built() {
    let patterns = vec!["[".to_string()];
    let set = baker::globs::build_lenient_glob_set(&patterns).unwrap();
    assert!(!set.is_match("anything"));
    assert!(baker::globs::build_lenient_glob_set(&Vec::new()).is_some());
}

#[test]
fn entry_action_skips_ignored_entries_and_sorts_the_rest() {
    let set = parse_bakerignore_file("/tpl", Some("*.tmp\n")).unwrap();
    assert_eq!(entry_action(&set, "/tpl/a.tmp", "a.tmp", false, false, false, ".j2"), EntryAction::Skip);
    assert_eq!(entry_action(&set, "/tpl/baker.yaml", "baker.yaml", false, false, false, ".j2"), EntryAction::Skip);
    assert_eq!(entry_action(&set, "/tpl", "", true, false, false, ".j2"), EntryAction::Skip);
    assert_eq!(entry_action(&set, "/tpl/src", "src", true, false, false, ".j2"), EntryAction::Directory);
    assert_eq!(entry_action(&set, "/tpl/l", "l", false, true, false, ".j2"), EntryAction::Link);
    assert_eq!(entry_action(&set, "/tpl/l.j2", "l.j2", false, true, false, ".j2"), EntryAction::Render);
    assert_eq!(entry_action(&set, "/tpl/l", "l", false, true, true, ".j2"), EntryAction::Copy);
    assert_eq!(entry_action(&set, "/tpl/main.py.j2", "main.py.j2", false, false, false, ".j2"), EntryAction::Render);
    assert_eq!(entry_action(&set, "/tpl/README.md", "README.md", false, false, false, ".j2"), EntryAction::Copy);
}

#[test]
fn imported_paths_keeps_matching_files_in_order() {
    let patterns = vec!["*.j2".to_string(), "macros/*.txt".to_string()];
    let globset = build_templates_import_globset("/tpl", &patterns).unwrap();
    let files = vec![
        "/tpl/b.j2".to_string(),
        "/tpl/readme.md".to_string(),
        "/tpl/macros/m.txt".to_string(),
        "/tpl/a.j2".to_string(),
    ];
    assert_eq!(
        imported_paths(&globset, &files),
        vec!["/tpl/b.j2".to_string(), "/tpl/macros/m.txt".to_string(), "/tpl/a.j2".to_string()]
    );
}
