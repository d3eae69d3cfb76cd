use indexmap::IndexMap;
use baker::config::types::Type;
use baker::error::{Error, Result};
use baker::json::{Json, JsonMap, JsonValue};
use baker::renderer::{is_blank_expression, render_error, slugify, TemplateRenderer, Templates, Text};
use baker::web::form::{
    is_checked, selected_choices, shown_text, toggle_choice, BakerConfig,
    default_suffix, looks_like_json, parse_config, should_show, shows, FieldType, FormField, RawQuestion,
};
use baker::web::github::{
    config_urls, fetched_files, file_url, first_config, template_file_paths, template_prefix,
};
use baker::web::models::{AppState, CustomLoad, Loadable, Tab, TemplateEntry};
use baker::web::render::{
    assemble_project, inject_path_newlines, render_path, render_project, split_rendered_paths, FileRendering,
};
use baker::web::templates::{community_templates, filter_templates, is_selected, matches_search, parse_github_url};
use baker::web::preview::{file_icon, preview_content, preview_title};

fn entry(path: &str) -> TemplateEntry {
    TemplateEntry {
        name: "n".to_string(),
        description: "d".to_string(),
        tags: vec![],
        owner: "aliev".to_string(),
        repo: "baker".to_string(),
        branch: "main".to_string(),
        path: path.to_string(),
    }
}

#[test]
fn raw_base_url_of_root_and_sub_path() {
    assert_eq!(entry("").raw_base_url(), "https://raw.githubusercontent.com/aliev/baker/main/");
    assert_eq!(
        entry("/examples/demo/").raw_base_url(),
        "https://raw.githubusercontent.com/aliev/baker/main/examples/demo/"
    );
    assert_eq!(
        entry("").tree_api_url(),
        "https://api.github.com/repos/aliev/baker/git/trees/main?recursive=1"
    );
    assert_eq!(entry("").slug(), "baker");
}

#[test]
fn loadable_states() {
    let idle: Loadable<u8> = Loadable::default();
    assert!(!idle.is_loading() && !idle.is_failed());
    assert!(Loadable::<u8>::Loading.is_loading());
    let failed: Loadable<u8> = Loadable::Failed("boom".to_string());
    assert!(failed.is_failed());
    assert_eq!(failed.err_msg(), Some("boom"));
    assert_eq!(Loadable::Ready(7u8).ready(), Some(7));
    assert_eq!(Loadable::<u8>::Loading.ready(), None);
}

#[test]
fn app_state_starts_on_community_tab() {
    let state = AppState::default();
    assert_eq!(state.active_tab, Tab::Community);
    assert!(state.selected_template.is_none());
    assert!(!state.generating);
}

#[test]
fn community_registry_lists_nine_templates() {
    let templates = community_templates();
    assert_eq!(templates.len(), 9);
    assert_eq!(templates[0].name, "Demo (Python)");
    assert_eq!(templates[0].path, "examples/demo");
    assert_eq!(templates[5].repo, "baker-template-python-package");
    assert_eq!(templates[7].tags, vec!["python", "fastapi", "docker"]);
    assert_eq!(templates[8].name, "TypeScript Library");
}

#[test]
fn parse_github_url_forms() {
    let e = parse_github_url("https://github.com/owner/repo").unwrap();
    assert_eq!((e.name.as_str(), e.description.as_str(), e.branch.as_str(), e.path.as_str()), ("repo", "owner/repo", "main", ""));
    assert_eq!(e.tags, vec!["custom"]);
    let e = parse_github_url("  github.com/owner/repo/tree/dev/  ").unwrap();
    assert_eq!((e.name.as_str(), e.description.as_str(), e.branch.as_str()), ("repo", "owner/repo @ dev", "dev"));
    let e = parse_github_url("http://github.com/o/r/tree/b/sub/path").unwrap();
    assert_eq!(e.name, "r/sub/path");
    assert_eq!(e.description, "o/r/sub/path @ b");
    assert_eq!(e.path, "sub/path");
    assert_eq!(
        parse_github_url("https://gitlab.com/o/r").unwrap_err(),
        "Only GitHub URLs are supported (https://github.com/owner/repo)"
    );
    assert_eq!(parse_github_url("https://github.com/o").unwrap_err(), "Cannot parse GitHub URL: https://github.com/o");
    assert_eq!(
        parse_github_url("https://github.com/o/r/blob/main").unwrap_err(),
        "Cannot parse GitHub URL: https://github.com/o/r/blob/main"
    );
}

#[test]
fn field_initial_values() {
    assert_eq!(format!("{:?}", FieldType::Bool.initial_value(&JsonValue::Null)), format!("{:?}", JsonValue::Bool(false)));
    assert_eq!(format!("{:?}", FieldType::Bool.initial_value(&JsonValue::Bool(true))), format!("{:?}", JsonValue::Bool(true)));
    assert_eq!(format!("{:?}", FieldType::MultiSelect.initial_value(&JsonValue::String("x".to_string()))), format!("{:?}", JsonValue::Array(vec![])));
    assert_eq!(format!("{:?}", FieldType::Text.initial_value(&JsonValue::String("x".to_string()))), format!("{:?}", JsonValue::String("x".to_string())));
}

#[test]
fn form_fields_take_their_kind_from_the_question() {
    let f = FormField::from_question("k".to_string(), "h".to_string(), Type::Str, JsonValue::Null, vec!["a".to_string()], true, String::new());
    assert_eq!(f.field_type, FieldType::MultiSelect);
    assert_eq!(FieldType::for_question(Type::Str, true, false), FieldType::Select);
    assert_eq!(FieldType::for_question(Type::Str, false, true), FieldType::Text);
    assert_eq!(FieldType::for_question(Type::Yaml, false, false), FieldType::Yaml);
    assert_eq!(default_suffix(), ".baker.j2");
    assert!(looks_like_json("  {\"schemaVersion\": \"v1\"}"));
    assert!(!looks_like_json("schemaVersion: v1"));
}

#[test]
fn newlines_are_injected_before_endfor() {
    assert_eq!(inject_path_newlines("plain.txt"), "plain.txt");
    assert_eq!(
        inject_path_newlines("{% for i in items %}{{ i }}.md{% endfor %}"),
        "{% for i in items %}{{ i }}.md\n{% endfor %}"
    );
    assert_eq!(inject_path_newlines("{%for i in x%}{{i}}{%endfor%}"), "{%for i in x%}{{i}}\n{%endfor%}");
}

#[test]
fn rendered_paths_are_trimmed_lines() {
    assert_eq!(split_rendered_paths(" a.md \n\n b.md\n"), vec!["a.md", "b.md"]);
    assert!(split_rendered_paths("  \n").is_empty());
}

/// Renders by substituting `{{ name }}` with "proj" and expanding the loop
/// marker used in tests.
struct Fake;

impl TemplateRenderer for Fake {
    fn registered(&self) -> Templates {
        unreachable!("specification functions are not run")
    }

    fn rendered(&self, _template: Text, _context: Json, _name: Option<Text>) -> Result<String> {
        unreachable!("specification functions are not run")
    }

    fn evaluated(&self, _expression: Text, _context: Json) -> Result<bool> {
        unreachable!("specification functions are not run")
    }

    fn render(&self, template: &str, _context: &JsonValue, _name: Option<&str>) -> Result<String> {
        if template.contains("FAIL") {
            return Err(Error::MinijinjaError("fail".to_string()));
        }
        Ok(template.replace("{{ name }}", "proj"))
    }
    fn execute_expression(&self, _expression: &str, _context: &JsonValue) -> Result<bool> {
        Ok(true)
    }
    fn add_template(&mut self, _name: &str, _content: &str) -> Result<()> {
        Ok(())
    }
}

#[test]
fn render_path_splits_lines() {
    let ctx = JsonValue::Object(JsonMap::new());
    assert_eq!(render_path(&Fake, "{{ name }}/main.py", &ctx).unwrap(), vec!["proj/main.py"]);
    assert!(render_path(&Fake, "FAIL", &ctx).is_err());
}

#[test]
fn render_project_strips_suffix_and_skips_config() {
    let ctx = JsonValue::Object(JsonMap::new());
    let mut files = IndexMap::new();
    files.insert("baker.yaml".to_string(), "schemaVersion: v1".to_string());
    files.insert("{{ name }}/README.md.baker.j2".to_string(), "# {{ name }}".to_string());
    files.insert("static.txt".to_string(), "{{ name }}".to_string());
    files.insert("broken.baker.j2".to_string(), "FAIL {{ name }}".to_string());
    files.insert("static.txt".to_string(), "second".to_string());
    let out = render_project(&Fake, ".baker.j2", &files, &ctx).unwrap();
    assert_eq!(
        out.into_iter().collect::<Vec<_>>(),
        vec![
            ("proj/README.md".to_string(), "# proj".to_string()),
            ("static.txt".to_string(), "second".to_string()),
            ("broken".to_string(), "FAIL {{ name }}".to_string()),
        ]
    );
}

#[test]
fn conditions_read_false_only_for_false_words() {
    assert!(!shows(Ok("false".to_string())));
    assert!(!shows(Ok("  False \n".to_string())));
    assert!(!shows(Ok("0".to_string())));
    assert!(!shows(Ok("".to_string())));
    assert!(!shows(Ok("NO".to_string())));
    assert!(!shows(Ok("None".to_string())));
    assert!(shows(Ok("true".to_string())));
    assert!(shows(Ok("nope".to_string())));
    assert!(shows(Err(Error::MinijinjaError("bad".to_string()))));
}

#[test]
fn fields_without_condition_are_always_shown() {
    let mut values = JsonMap::new();
    values.insert("use_db".to_string(), JsonValue::Bool(true));
    let mut field =
        FormField::from_question("db".to_string(), String::new(), Type::Str, JsonValue::Null, vec![], false, String::new());
    assert!(should_show(&Fake, &field, &values));
    field.ask_if = "false".to_string();
    assert!(!should_show(&Fake, &field, &values));
    field.ask_if = "FAIL".to_string();
    assert!(should_show(&Fake, &field, &values));
}

#[test]
fn parse_config_builds_one_field_per_question() {
    let questions = vec![
        (
            "name".to_string(),
            RawQuestion {
                help: "Project name".to_string(),
                question_type: Type::Str,
                default: JsonValue::String("demo".to_string()),
                choices: vec![],
                multiselect: false,
                ask_if: String::new(),
            },
        ),
        (
            "langs".to_string(),
            RawQuestion {
                help: String::new(),
                question_type: Type::Str,
                default: JsonValue::Null,
                choices: vec!["py".to_string(), "rs".to_string()],
                multiselect: true,
                ask_if: "name".to_string(),
            },
        ),
    ];
    let config = parse_config(None, questions);
    assert_eq!(config.template_suffix, ".baker.j2");
    assert_eq!(config.fields.len(), 2);
    assert_eq!(config.fields[0].key, "name");
    assert_eq!(config.fields[0].field_type, FieldType::Text);
    assert_eq!(config.fields[1].field_type, FieldType::MultiSelect);
    assert_eq!(config.fields[1].ask_if, "name");
    let custom = parse_config(Some(".tpl".to_string()), vec![]);
    assert_eq!(custom.template_suffix, ".tpl");
    assert!(custom.fields.is_empty());
}

#[test]
fn config_urls_try_yaml_then_yml_then_json() {
    let urls = config_urls(&entry("demo"));
    assert_eq!(
        urls,
        vec![
            "https://raw.githubusercontent.com/aliev/baker/main/demo/baker.yaml",
            "https://raw.githubusercontent.com/aliev/baker/main/demo/baker.yml",
            "https://raw.githubusercontent.com/aliev/baker/main/demo/baker.json",
        ]
    );
    assert_eq!(file_url(&entry(""), "a/b.txt"), "https://raw.githubusercontent.com/aliev/baker/main/a/b.txt");
}

#[test]
fn first_config_takes_the_first_text_that_arrived() {
    let outcomes = vec![Err("404".to_string()), Ok("yml".to_string()), Ok("json".to_string())];
    assert_eq!(first_config(&entry(""), &outcomes), Ok("yml".to_string()));
    let none = vec![Err("404".to_string()), Err("404".to_string())];
    assert_eq!(
        first_config(&entry(""), &none),
        Err("No baker.yaml found in aliev/baker:(root)".to_string())
    );
    assert_eq!(
        first_config(&entry("examples/x"), &vec![]),
        Err("No baker.yaml found in aliev/baker:examples/x".to_string())
    );
}

#[test]
fn template_files_are_the_blobs_under_the_prefix() {
    assert_eq!(template_prefix(&entry("")), "");
    assert_eq!(template_prefix(&entry("/examples/demo/")), "examples/demo/");
    let tree = vec![
        ("examples/demo/baker.yaml".to_string(), "blob".to_string()),
        ("examples/demo/src".to_string(), "tree".to_string()),
        ("examples/demo/src/main.py".to_string(), "blob".to_string()),
        ("examples/other/x.txt".to_string(), "blob".to_string()),
        ("README.md".to_string(), "blob".to_string()),
    ];
    assert_eq!(template_file_paths(&tree, "examples/demo/"), vec!["baker.yaml", "src/main.py"]);
    assert_eq!(template_file_paths(&tree, "").len(), 4);
}

#[test]
fn fetched_files_keep_what_arrived() {
    let fetched = vec![
        ("a.txt".to_string(), Ok("A".to_string())),
        ("logo.png".to_string(), Err("not UTF-8".to_string())),
        ("b.txt".to_string(), Ok("B".to_string())),
    ];
    assert_eq!(
        fetched_files(fetched),
        vec![("a.txt".to_string(), "A".to_string()), ("b.txt".to_string(), "B".to_string())]
    );
}

#[test]
fn load_custom_adds_a_github_repository() {
    let mut state = AppState::default();
    state.custom_url_input = "   ".to_string();
    assert!(matches!(state.load_custom(), CustomLoad::Ignored));
    assert!(state.custom_templates.is_empty());
    assert_eq!(state.active_tab, Tab::Community);

    state.custom_url_input = "https://github.com/aliev/baker/tree/dev/examples".to_string();
    assert!(matches!(state.load_custom(), CustomLoad::Added));
    assert_eq!(state.active_tab, Tab::Custom);
    assert_eq!(state.custom_templates.len(), 1);
    assert_eq!(state.custom_templates[0].branch, "dev");
    assert_eq!(state.custom_templates[0].path, "examples");

    state.active_tab = Tab::Community;
    state.custom_url_input = "https://gitlab.com/x/y".to_string();
    match state.load_custom() {
        CustomLoad::Refused(m) => assert!(!m.is_empty()),
        other => panic!("unexpected {:?}", other),
    }
    assert_eq!(state.custom_templates.len(), 1);
    assert_eq!(state.active_tab, Tab::Community);
}

fn rendering(path: &str, content: &str, expanded: &[&str], rendered: Option<&str>) -> FileRendering {
    FileRendering {
        path: path.to_string(),
        content: content.to_string(),
        expanded: expanded.iter().map(|s| s.to_string()).collect(),
        rendered: rendered.map(|s| s.to_string()),
    }
}

#[test]
fn assemble_project_replaces_repeated_paths_in_place() {
    let files = vec![
        rendering("baker.yml", "schemaVersion: v1", &["baker.yml"], None),
        rendering("a.txt", "first", &["a.txt"], None),
        rendering("{{ x }}.md.baker.j2", "raw", &["one.md.baker.j2", "two.md.baker.j2"], Some("done")),
        rendering("gone.baker.j2", "raw", &[".baker.j2"], Some("x")),
        rendering("broken.baker.j2", "raw body", &["broken.baker.j2"], None),
        rendering("a.txt", "second", &["a.txt"], None),
    ];
    let out = assemble_project(".baker.j2", &files);
    assert_eq!(
        out.into_iter().collect::<Vec<_>>(),
        vec![
            ("a.txt".to_string(), "second".to_string()),
            ("one.md".to_string(), "done".to_string()),
            ("two.md".to_string(), "done".to_string()),
            ("broken".to_string(), "raw body".to_string()),
        ]
    );
}

#[test]
fn search_matches_name_description_or_tags_in_any_case() {
    let all = community_templates();
    assert_eq!(filter_templates(community_templates(), "").len(), all.len());
    let rust = filter_templates(community_templates(), "RUST");
    assert!(!rust.is_empty());
    for t in &rust {
        assert!(matches_search(t, "rust"));
    }
    assert!(filter_templates(community_templates(), "no-such-template-anywhere").is_empty());
    let mut e = entry("");
    e.tags = vec!["Docker".to_string()];
    assert!(matches_search(&e, "dock"));
    assert!(!matches_search(&e, "podman"));
}

#[test]
fn selection_is_by_name_and_owner() {
    let e = entry("");
    assert!(!is_selected(&None, &e));
    assert!(is_selected(&Some(entry("other/path")), &e));
    let mut other = entry("");
    other.owner = "someone".to_string();
    assert!(!is_selected(&Some(other), &e));
}

#[test]
fn preview_shows_the_selected_file() {
    let files = vec![("a.txt".to_string(), "A".to_string()), ("b/c.rs".to_string(), "fn main() {}".to_string())];
    assert_eq!(preview_content(&files, &Some("b/c.rs".to_string())), "fn main() {}");
    assert_eq!(preview_content(&files, &Some("missing".to_string())), "");
    assert_eq!(preview_content(&files, &None), "");
    assert_eq!(preview_title(&Some("a.txt".to_string())), "a.txt");
    assert_eq!(preview_title(&None), "\u{2014}");
}

#[test]
fn file_icons_follow_the_extension() {
    assert_eq!(file_icon("src/main.rs"), "\u{1f980}");
    assert_eq!(file_icon("app.PY"), "\u{1f40d}");
    assert_eq!(file_icon("data.json"), "{}");
    assert_eq!(file_icon("config.yml"), "\u{2699}");
    assert_eq!(file_icon("Dockerfile"), "\u{1f433}");
    assert_eq!(file_icon("notes"), "\u{1f4c4}");
}

#[test]
fn app_state_walks_through_a_generation() {
    let mut state = AppState::default();
    assert!(!state.start_generation());
    assert_eq!(state.zip_name(), "project.zip");
    state.select_template(entry("demo"));
    assert!(state.config_load.is_loading());
    assert_eq!(state.zip_name(), "baker.zip");
    state.config_parsed(Err("bad yaml".to_string()));
    assert_eq!(state.config_load.err_msg(), Some("Config parse error: bad yaml"));
    state.select_template(entry("demo"));
    let fields = vec![
        FormField::from_question("name".to_string(), String::new(), Type::Str, JsonValue::String("demo".to_string()), vec![], false, String::new()),
        FormField::from_question("tests".to_string(), String::new(), Type::Bool, JsonValue::Null, vec![], false, String::new()),
    ];
    state.config_parsed(Ok(BakerConfig { template_suffix: ".baker.j2".to_string(), fields }));
    assert!(matches!(state.form_values.get("name"), Some(JsonValue::String(s)) if s == "demo"));
    assert!(matches!(state.form_values.get("tests"), Some(JsonValue::Bool(false))));
    assert!(state.start_generation());
    assert!(state.generating);
    state.generation_finished(Ok(vec![("README.md".to_string(), "# demo".to_string())]));
    assert!(!state.generating);
    assert_eq!(state.selected_preview_file, Some("README.md".to_string()));
    assert_eq!(state.output_files.as_ref().map(|f| f.len()), Some(1));
}

#[test]
fn app_state_reports_a_failed_fetch() {
    let mut state = AppState::default();
    state.select_template(entry(""));
    state.config_fetch_failed("No baker.yaml found in aliev/baker:(root)".to_string());
    assert_eq!(state.config_load.err_msg(), Some("No baker.yaml found in aliev/baker:(root)"));
    assert!(!state.start_generation());
}

#[test]
fn form_values_and_multi_select_toggling() {
    let field = FormField::from_question(
        "langs".to_string(),
        String::new(),
        Type::Str,
        JsonValue::Null,
        vec!["py".to_string(), "rs".to_string()],
        true,
        String::new(),
    );
    let mut values = JsonMap::new();
    let start = field.current_value(&values);
    assert!(matches!(&start, JsonValue::Array(items) if items.is_empty()));
    let picked = toggle_choice(&selected_choices(&start), "rs");
    assert_eq!(selected_choices(&picked), vec!["rs"]);
    let both = toggle_choice(&selected_choices(&picked), "py");
    assert_eq!(selected_choices(&both), vec!["rs", "py"]);
    let back = toggle_choice(&selected_choices(&both), "rs");
    assert_eq!(selected_choices(&back), vec!["py"]);
    values.insert("langs".to_string(), back);
    assert_eq!(selected_choices(&field.current_value(&values)), vec!["py"]);
    assert!(is_checked(&JsonValue::Bool(true)));
    assert!(!is_checked(&JsonValue::String("true".to_string())));
    assert_eq!(shown_text(&JsonValue::String("x".to_string())), "x");
    assert_eq!(shown_text(&JsonValue::Null), "");
}

#[test]
fn clicking_a_choice_twice_restores_the_selection() {
    let start = vec!["py".to_string()];
    let once = toggle_choice(&start, "rs");
    let twice = toggle_choice(&selected_choices(&once), "rs");
    assert_eq!(selected_choices(&twice), start);
}

#[test]
fn one_line_break_before_each_closing_endfor() {
    assert_eq!(inject_path_newlines("a/{{ x }}.txt"), "a/{{ x }}.txt");
    assert_eq!(inject_path_newlines("{%- endfor -%}"), "\n{%- endfor -%}");
    assert_eq!(inject_path_newlines("{%for i in xs%}{{i}}{%- endfor -%}"), "{%for i in xs%}{{i}}\n{%- endfor -%}");
}

#[test]
fn github_url_reads_the_same_with_blanks_and_trailing_slash() {
    let plain = format!("{:?}", parse_github_url("https://github.com/owner/repo/tree/dev"));
    assert_eq!(format!("{:?}", parse_github_url("  https://github.com/owner/repo/tree/dev ")), plain);
    assert_eq!(format!("{:?}", parse_github_url("https://github.com/owner/repo/tree/dev/")), plain);
    assert!(plain.contains("dev"));
}

#[test]
fn slugify_filter_hyphenates_snake_case() {
    assert_eq!(slugify("Hello World"), "hello-world");
    assert_eq!(slugify("MyProjectName"), "my-project-name");
    assert_eq!(slugify("already-slug"), "already-slug");
}

#[test]
fn blank_conditions_need_no_evaluation() {
    assert!(is_blank_expression(""));
    assert!(is_blank_expression("  \t "));
    assert!(!is_blank_expression(" x == 1 "));
}

#[test]
fn render_errors_name_their_template() {
    assert_eq!(render_error(Some("help"), "undefined value"), Error::MinijinjaError("help: undefined value".to_string()));
    assert_eq!(render_error(None, "undefined value"), Error::MinijinjaError("undefined value".to_string()));
}

#[test]
fn github_url_scheme_is_optional() {
    let https = format!("{:?}", parse_github_url("https://github.com/owner/repo/tree/main/sub"));
    assert_eq!(format!("{:?}", parse_github_url("http://github.com/owner/repo/tree/main/sub")), https);
    assert_eq!(format!("{:?}", parse_github_url("github.com/owner/repo/tree/main/sub")), https);
    assert_eq!(format!("{:?}", parse_github_url(" github.com/owner/repo/tree/main/sub/\n")), https);
}
