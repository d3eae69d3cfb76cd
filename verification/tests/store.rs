use baker::loader::{is_git_url, source_kind, SourceKind};
use baker::paths::file_name;
use baker::error::Error;
use baker::store::{chrono_lite_timestamp, civil_date, derive_template_name, format_timestamp, is_leap_year, TemplateMetadata, TemplateStore};

#[test]
fn test_chrono_lite_timestamp() {
    let ts = chrono_lite_timestamp();
    assert!(ts.contains("T"));
    assert!(ts.ends_with("Z"));
    assert_eq!(ts.len(), 20);
}

#[test]
fn timestamps_of_known_instants() {
    assert_eq!(format_timestamp(0), "1970-01-01T00:00:00Z");
    assert_eq!(format_timestamp(951782400), "2000-02-29T00:00:00Z");
    assert_eq!(format_timestamp(1700000000), "2023-11-14T22:13:20Z");
    assert_eq!(civil_date(365), (1971, 1, 1));
}

#[test]
fn leap_years() {
    assert!(is_leap_year(2000));
    assert!(is_leap_year(2024));
    assert!(!is_leap_year(1900));
    assert!(!is_leap_year(2023));
}

#[test]
fn store_paths_are_inside_the_store() {
    let store = TemplateStore::with_dir("/data/baker/templates".to_string());
    assert_eq!(store.store_dir(), "/data/baker/templates");
    assert_eq!(store.template_archive_path("demo"), "/data/baker/templates/demo.tar.gz");
    assert_eq!(store.template_metadata_path("demo"), "/data/baker/templates/demo.json");
    assert!(!store.is_installed("surely-not-installed-template"));
}

#[test]
fn store_in_data_dir() {
    let store = TemplateStore::in_data_dir(Some("/home/u/.local/share".to_string())).unwrap();
    assert_eq!(store.store_dir(), "/home/u/.local/share/baker/templates");
    match TemplateStore::in_data_dir(None) {
        Err(Error::Other(m)) => assert_eq!(m, "Could not determine data directory"),
        _ => panic!("expected an error"),
    }
}

#[test]
fn install_refuses_existing_without_force() {
    match TemplateStore::check_install("demo", true, false) {
        Err(Error::Other(m)) => assert_eq!(m, "Template 'demo' already exists. Use --force to overwrite."),
        _ => panic!("expected an error"),
    }
    assert!(TemplateStore::check_install("demo", true, true).is_ok());
    assert!(TemplateStore::check_install("demo", false, false).is_ok());
}

#[test]
fn remove_and_info_need_an_installed_template() {
    match TemplateStore::check_remove("demo", false) {
        Err(Error::Other(m)) => assert_eq!(m, "Template 'demo' is not installed"),
        _ => panic!("expected an error"),
    }
    assert!(TemplateStore::check_remove("demo", true).is_ok());
    let store = TemplateStore::with_dir("/s".to_string());
    assert!(store.get_metadata("demo", None).is_err());
    let meta = TemplateMetadata::new("demo", "/src", "2024-01-01T00:00:00Z".to_string(), None);
    assert_eq!(store.get_metadata("demo", Some(Ok(meta))).unwrap().name, "demo");
}

#[test]
fn listing_skips_unreadable_and_sorts_by_name() {
    let loaded = vec![
        Ok(TemplateMetadata::new("zeta", "z", "t".to_string(), None)),
        Err(Error::Other("bad".to_string())),
        Ok(TemplateMetadata::new("alpha", "a", "t".to_string(), Some("first".to_string()))),
        Ok(TemplateMetadata::new("mid", "m", "t".to_string(), None)),
    ];
    let listed = TemplateStore::list_installed(loaded);
    let names: Vec<&str> = listed.iter().map(|m| m.name.as_str()).collect();
    assert_eq!(names, vec!["alpha", "mid", "zeta"]);
}

#[test]
fn derive_template_name_from_sources() {
    assert_eq!(derive_template_name("https://github.com/user/repo.git"), "repo");
    assert_eq!(derive_template_name("https://gitlab.com/group/project"), "project");
    assert_eq!(derive_template_name("git@example.org:team/thing.git"), "thing");
    assert_eq!(derive_template_name("/home/me/templates/python"), "python");
    assert_eq!(derive_template_name("local-dir"), "local-dir");
    assert_eq!(derive_template_name("/"), "template");
}

#[test]
fn archive_skips_the_root_and_git_directories() {
    assert!(!baker::store::keeps_in_archive(""));
    assert!(!baker::store::keeps_in_archive(".git"));
    assert!(!baker::store::keeps_in_archive(".git/HEAD"));
    assert!(!baker::store::keeps_in_archive("sub/.git/config"));
    assert!(baker::store::keeps_in_archive("baker.yaml"));
    assert!(baker::store::keeps_in_archive(".gitignore"));
    assert!(baker::store::keeps_in_archive("src/my.git/x"));
}

fn metadata(name: &str, description: Option<&str>) -> baker::store::TemplateMetadata {
    baker::store::TemplateMetadata {
        name: name.to_string(),
        source: format!("https://example.com/{name}"),
        installed_at: "2024-01-02T03:04:05Z".to_string(),
        description: description.map(|d| d.to_string()),
    }
}

#[test]
fn listing_shows_a_hint_when_nothing_is_installed() {
    assert_eq!(
        baker::store::listing_lines(&vec![]),
        vec![
            "No templates installed.",
            "",
            "Install a template with:",
            "  baker install <git-url-or-path> --name <name>",
        ]
    );
}

#[test]
fn listing_describes_each_template() {
    let lines = baker::store::listing_lines(&vec![metadata("demo", Some("A demo")), metadata("bare", None)]);
    assert_eq!(
        lines,
        vec![
            "Installed templates:",
            "",
            "  demo ",
            "    Description: A demo",
            "    Source: https://example.com/demo",
            "    Installed: 2024-01-02T03:04:05Z",
            "",
            "  bare ",
            "    Source: https://example.com/bare",
            "    Installed: 2024-01-02T03:04:05Z",
            "",
        ]
    );
    assert_eq!(
        baker::store::info_lines(&metadata("demo", Some("A demo"))),
        vec![
            "Template: demo",
            "Source: https://example.com/demo",
            "Installed: 2024-01-02T03:04:05Z",
            "Description: A demo",
        ]
    );
}

#[test]
fn last_second_before_the_year_ten_thousand() {
    assert_eq!(format_timestamp(253_402_300_799), "9999-12-31T23:59:59Z");
    assert_eq!(format_timestamp(baker::store::TIMESTAMP_SHAPE_LIMIT), "10000-01-01T00:00:00Z");
}

#[test]
fn template_sources_are_tried_in_order() {
    assert!(is_git_url("https://github.com/aliev/baker"));
    assert!(is_git_url("git@github.com:aliev/baker.git"));
    assert!(is_git_url("file:///srv/repo.git"));
    assert!(!is_git_url("./templates/demo"));
    assert_eq!(source_kind("https://github.com/x/y", true, true), SourceKind::Directory);
    assert_eq!(source_kind("demo", false, true), SourceKind::Installed);
    assert_eq!(source_kind("https://github.com/x/y", false, false), SourceKind::Repository);
    assert_eq!(source_kind("demo", false, false), SourceKind::Missing);
}

#[test]
fn archive_sizes_pick_their_unit() {
    assert_eq!(baker::store::size_unit(0), baker::store::SizeUnit::Bytes);
    assert_eq!(baker::store::size_unit(1023), baker::store::SizeUnit::Bytes);
    assert_eq!(baker::store::size_unit(1024), baker::store::SizeUnit::Kilobytes);
    assert_eq!(baker::store::size_unit(1024 * 1024 - 1), baker::store::SizeUnit::Kilobytes);
    assert_eq!(baker::store::size_unit(1024 * 1024), baker::store::SizeUnit::Megabytes);
}

#[test]
fn derive_template_name_takes_the_last_path_component() {
    assert_eq!(derive_template_name("/home/me/my-template"), "my-template");
    assert_eq!(derive_template_name("/home/me/my-template/"), "my-template");
    assert_eq!(derive_template_name("/"), "template");
    assert_eq!(derive_template_name("templates/.."), "template");
    assert_eq!(derive_template_name("git@github.com:user/repo.git"), "repo");
}

#[test]
fn file_name_is_the_last_normal_component() {
    assert_eq!(file_name("/home/me/my-template"), Some("my-template".to_string()));
    assert_eq!(file_name("a/b/./"), Some("b".to_string()));
    assert_eq!(file_name("/"), None);
    assert_eq!(file_name("a/.."), None);
    assert_eq!(file_name(""), None);
}

#[test]
fn timestamps_show_the_calendar_date() {
    assert_eq!(format_timestamp(951782400), "2000-02-29T00:00:00Z");
    assert_eq!(format_timestamp(951868799), "2000-02-29T23:59:59Z");
    assert_eq!(format_timestamp(1709164800), "2024-02-29T00:00:00Z");
    assert_eq!(format_timestamp(4107542400), "2100-03-01T00:00:00Z");
}
