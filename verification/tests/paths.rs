use openapi_validator::util::{
    absolute_spec_path, add_gitignore_entries, components, dashboard_path, discover_spec,
    ensure_gitignore, extension, file_name, file_stem, is_openapi_spec, is_script, is_yaml,
    join_path, normalize_spec_path, parse_selection, prepare_runtime_dirs, remove_gitignore_entries,
    selection_menu, selection_prompt, should_skip_entry, status_path, strip_prefix, to_posix_path,
    workspace, Discovery, Selection, SpecPathError, OAV_DIR,
};

fn strings(items: &[&str]) -> Vec<String> {
    items.iter().map(|s| s.to_string()).collect()
}

#[test]
fn joining_paths() {
    assert_eq!(join_path("/repo", ".oav"), "/repo/.oav");
    assert_eq!(join_path("/repo/", ".oav"), "/repo/.oav");
    assert_eq!(join_path("", "a"), "a");
    assert_eq!(join_path("/repo", "/etc/x"), "/etc/x");
    assert_eq!(join_path("a", ""), "a/");
    assert_eq!(join_path("/", "a"), "/a");
    assert_eq!(OAV_DIR, ".oav");
    assert_eq!(workspace("/repo"), "/repo/.oav");
}

#[test]
fn joining_agrees_with_std() {
    for base in ["/repo", "/repo/", "", "a/b", "/"] {
        for rel in ["x", "x/y.yaml", "/abs", "", ".oav"] {
            let expected = std::path::Path::new(base).join(rel);
            assert_eq!(join_path(base, rel), expected.to_string_lossy());
        }
    }
}

#[test]
fn components_of_paths() {
    assert_eq!(components("/repo/api/openapi.yaml"), strings(&["repo", "api", "openapi.yaml"]));
    assert_eq!(components("a//b/./c/"), strings(&["a", "b", "c"]));
    assert_eq!(components("/"), Vec::<String>::new());
    assert_eq!(components(""), Vec::<String>::new());
    assert_eq!(components("../x"), strings(&["..", "x"]));
}

#[test]
fn file_names() {
    assert_eq!(file_name("/repo/.oav/reports/lint/redocly.log"), Some("redocly.log".to_string()));
    assert_eq!(file_name("a/b/"), Some("b".to_string()));
    assert_eq!(file_name("a/b/."), Some("b".to_string()));
    assert_eq!(file_name(".."), None);
    assert_eq!(file_name("a/.."), None);
    assert_eq!(file_name("/"), None);
    assert_eq!(file_name(""), None);
    assert_eq!(file_name("."), None);
}

#[test]
fn extensions_and_stems() {
    assert_eq!(extension("spring.yaml"), Some("yaml".to_string()));
    assert_eq!(file_stem("spring.yaml"), Some("spring".to_string()));
    assert_eq!(extension("a.b.yaml"), Some("yaml".to_string()));
    assert_eq!(file_stem("a.b.yaml"), Some("a.b".to_string()));
    assert_eq!(extension(".yaml"), None);
    assert_eq!(file_stem(".yaml"), Some(".yaml".to_string()));
    assert_eq!(extension("README"), None);
    assert_eq!(file_stem("README"), Some("README".to_string()));
    assert_eq!(extension("name."), Some(String::new()));
    assert_eq!(file_stem("name."), Some("name".to_string()));
    assert_eq!(extension("/d/x.tar.gz"), Some("gz".to_string()));
    assert_eq!(file_stem(".."), None);
}

#[test]
fn names_agree_with_std() {
    for path in [
        "spring.yaml", "a/b.c/d", "a/b/", "a/.hidden", "x.", "..", ".", "", "/", "a/..", "a/./b.yml",
        "a//b.tar.gz", ".a.b",
    ] {
        let p = std::path::Path::new(path);
        assert_eq!(file_name(path), p.file_name().map(|s| s.to_string_lossy().to_string()));
        assert_eq!(extension(path), p.extension().map(|s| s.to_string_lossy().to_string()));
        assert_eq!(file_stem(path), p.file_stem().map(|s| s.to_string_lossy().to_string()));
    }
}

#[test]
fn posix_paths() {
    assert_eq!(to_posix_path("api\\v1\\openapi.yaml"), "api/v1/openapi.yaml");
    assert_eq!(to_posix_path("api/openapi.yaml"), "api/openapi.yaml");
}

#[test]
fn stripping_prefixes() {
    assert_eq!(strip_prefix("/repo/api/openapi.yaml", "/repo"), Some("api/openapi.yaml".to_string()));
    assert_eq!(strip_prefix("/repo/api/openapi.yaml", "/repo/"), Some("api/openapi.yaml".to_string()));
    assert_eq!(strip_prefix("/repo", "/repo"), Some(String::new()));
    assert_eq!(strip_prefix("/repository/x", "/repo"), None);
    assert_eq!(strip_prefix("/other/x", "/repo"), None);
    assert_eq!(strip_prefix("repo/x", "/repo"), None);
    assert_eq!(strip_prefix("/repo", "/repo/x"), None);
    assert_eq!(strip_prefix("a/b/c", "a"), Some("b/c".to_string()));
}

#[test]
fn spec_path_is_made_relative() {
    assert_eq!(absolute_spec_path("/repo", "api/openapi.yaml"), "/repo/api/openapi.yaml");
    assert_eq!(absolute_spec_path("/repo", "/repo/openapi.yaml"), "/repo/openapi.yaml");
    assert_eq!(normalize_spec_path("/repo", "api/openapi.yaml", true).unwrap(), "api/openapi.yaml");
    assert_eq!(normalize_spec_path("/repo", "/repo/openapi.yaml", true).unwrap(), "openapi.yaml");
}

#[test]
fn spec_path_errors() {
    match normalize_spec_path("/repo", "missing.yaml", false) {
        Err(e) => {
            assert!(matches!(&e, SpecPathError::NotFound { path } if path == "/repo/missing.yaml"));
            assert_eq!(e.message(), "Spec file not found: /repo/missing.yaml");
        }
        Ok(_) => panic!("the file does not exist"),
    }
    match normalize_spec_path("/repo", "/elsewhere/openapi.yaml", true) {
        Err(e) => {
            assert!(matches!(e, SpecPathError::OutsideRepository));
            assert_eq!(e.message(), "Spec path must be inside the repository");
        }
        Ok(_) => panic!("the file lies outside"),
    }
}

#[test]
fn yaml_files() {
    assert!(is_yaml("openapi.yaml"));
    assert!(is_yaml("a/b/api.yml"));
    assert!(is_yaml("API.YAML"));
    assert!(is_yaml("x.Yml"));
    assert!(!is_yaml("openapi.json"));
    assert!(!is_yaml("yaml"));
    assert!(!is_yaml(".yaml"));
    assert!(is_script("run.sh"));
    assert!(!is_script("run.SH"));
    assert!(!is_script("sh"));
}

#[test]
fn openapi_documents() {
    assert!(is_openapi_spec("openapi: 3.0.3\ninfo:\n  title: x\n"));
    assert!(is_openapi_spec("{info: {}, openapi: '3.1.0'}"));
    assert!(!is_openapi_spec("swagger: '2.0'\n"));
    assert!(!is_openapi_spec("- openapi\n"));
    assert!(!is_openapi_spec("openapi"));
    assert!(!is_openapi_spec("1: openapi\n"));
    assert!(!is_openapi_spec("a: [unclosed"));
    assert!(!is_openapi_spec(""));
}

#[test]
fn skipped_directories() {
    for name in [".git", ".oav", "target", "node_modules", ".idea", ".vscode"] {
        assert!(should_skip_entry(1, true, name));
        assert!(should_skip_entry(3, true, name));
        assert!(!should_skip_entry(0, true, name));
        assert!(!should_skip_entry(1, false, name));
    }
    assert!(!should_skip_entry(1, true, "src"));
    assert!(!should_skip_entry(1, true, ""));
}

#[test]
fn discovery() {
    assert!(matches!(discover_spec(true, true, strings(&["b.yaml"])), Discovery::Found(p) if p == "openapi.yaml"));
    assert!(matches!(discover_spec(false, true, Vec::new()), Discovery::Found(p) if p == "openapi.yml"));
    assert!(matches!(discover_spec(false, false, Vec::new()), Discovery::Nothing));
    match discover_spec(false, false, strings(&["b/api.yaml", "a/api.yml"])) {
        Discovery::Choose(paths) => assert_eq!(paths, strings(&["a/api.yml", "b/api.yaml"])),
        _ => panic!("two documents are up for choice"),
    }
}

#[test]
fn selection_menu_lines() {
    assert_eq!(
        selection_menu(&strings(&["a/api.yml", "b/api.yaml"])),
        strings(&[
            "No default OpenAPI spec found.",
            "Select a spec to use:",
            "  1) a/api.yml",
            "  2) b/api.yaml",
            "  q) quit"
        ])
    );
    assert_eq!(selection_prompt(2), "Select [1-2] or q: ");
    assert_eq!(selection_prompt(12), "Select [1-12] or q: ");
}

#[test]
fn selections() {
    assert_eq!(parse_selection("q\n", 3), Selection::Quit);
    assert_eq!(parse_selection(" Q ", 3), Selection::Quit);
    assert_eq!(parse_selection("1\n", 3), Selection::Chosen(0));
    assert_eq!(parse_selection(" 3 ", 3), Selection::Chosen(2));
    assert_eq!(parse_selection("+2", 3), Selection::Chosen(1));
    assert_eq!(parse_selection("002", 3), Selection::Chosen(1));
    assert_eq!(parse_selection("0", 3), Selection::Invalid);
    assert_eq!(parse_selection("4", 3), Selection::Invalid);
    assert_eq!(parse_selection("-1", 3), Selection::Invalid);
    assert_eq!(parse_selection("", 3), Selection::Invalid);
    assert_eq!(parse_selection("+", 3), Selection::Invalid);
    assert_eq!(parse_selection("1 2", 3), Selection::Invalid);
    assert_eq!(parse_selection("two", 3), Selection::Invalid);
    assert_eq!(parse_selection("qq", 3), Selection::Invalid);
    assert_eq!(parse_selection("99999999999999999999999999", 3), Selection::Invalid);
    assert_eq!(parse_selection("1", 0), Selection::Invalid);
    assert_eq!(parse_selection("18446744073709551615", usize::MAX), Selection::Chosen(usize::MAX - 1));
}

#[test]
fn ignore_file_gets_its_entries() {
    assert_eq!(ensure_gitignore("", false), Some(".oav/\n".to_string()));
    assert_eq!(ensure_gitignore("", true), Some(".oav/\n.oavc\n".to_string()));
    assert_eq!(ensure_gitignore("target", false), Some("target\n.oav/\n".to_string()));
    assert_eq!(ensure_gitignore("target\n", true), Some("target\n.oav/\n.oavc\n".to_string()));
    assert_eq!(ensure_gitignore("target\n  .oav/  \n", false), None);
    assert_eq!(ensure_gitignore(".oav/\n", true), Some(".oav/\n.oavc\n".to_string()));
    assert_eq!(ensure_gitignore(".oavc\n.oav/", true), None);
    assert_eq!(ensure_gitignore(".oav", false), Some(".oav\n.oav/\n".to_string()));
}

#[test]
fn ignore_file_entries_are_added_once() {
    let entries = strings(&["a", "b", "a"]);
    assert_eq!(add_gitignore_entries("b\n", &entries), Some("b\na\n".to_string()));
    assert_eq!(add_gitignore_entries("a\nb\n", &entries), None);
    assert_eq!(add_gitignore_entries("x", &Vec::new()), None);
    let added = ensure_gitignore("node_modules\n", true).unwrap();
    assert_eq!(ensure_gitignore(&added, true), None);
}

#[test]
fn ignore_file_loses_its_entries() {
    let entries = strings(&[".oavc"]);
    assert_eq!(remove_gitignore_entries("target\n.oavc\n.oav/\n", &entries), "target\n.oav/\n");
    assert_eq!(remove_gitignore_entries("  .oavc \n", &entries), "");
    assert_eq!(remove_gitignore_entries("target", &entries), "target\n");
    assert_eq!(remove_gitignore_entries("", &entries), "");
    assert_eq!(remove_gitignore_entries("a\r\n.oavc\r\nb", &entries), "a\nb\n");
}

#[test]
fn workspace_layout() {
    assert_eq!(
        prepare_runtime_dirs("/repo"),
        strings(&[
            "/repo/.oav/reports/lint",
            "/repo/.oav/reports/generate/server",
            "/repo/.oav/reports/generate/client",
            "/repo/.oav/reports/compile/server",
            "/repo/.oav/reports/compile/client",
            "/repo/.oav/generated"
        ])
    );
    assert_eq!(status_path("/repo"), "/repo/.oav/status.tsv");
    assert_eq!(dashboard_path("/repo"), "/repo/.oav/reports/dashboard.html");
}
