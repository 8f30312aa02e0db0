use openapi_validator::cli::{Cli, Commands, ConfigCommand, ConfigKey, Mode};
use openapi_validator::config::{
    bool_named, config_value_text, field_named, mode_named, mode_to_string, parse_bool, parse_key,
    parse_list, parse_mode, parse_yaml_list, parse_yaml_map, print_value, set_config_value,
    set_value, Config, Field, ValueError, CONFIG_FILE,
};

fn strings(items: &[&str]) -> Vec<String> {
    items.iter().map(|s| s.to_string()).collect()
}

fn pair(name: &str, value: &str) -> (String, String) {
    (name.to_string(), value.to_string())
}

#[test]
fn default_configuration() {
    let config = Config::default();
    assert_eq!(config.spec, None);
    assert_eq!(config.mode, Mode::Server);
    assert!(config.lint && config.generate && config.compile);
    assert!(config.server_generators.is_empty());
    assert!(config.client_generators.is_empty());
    assert!(config.generator_overrides.is_empty());
    assert_eq!(config.generator_image, "openapitools/openapi-generator-cli:v7.17.0");
    assert_eq!(config.redocly_image, "redocly/cli:1.25.5");
    assert_eq!(CONFIG_FILE, ".oavc");
}

#[test]
fn mode_names() {
    assert_eq!(Mode::Server.as_str(), "server");
    assert_eq!(Mode::Client.as_str(), "client");
    assert_eq!(Mode::Both.as_str(), "both");
    assert_eq!(mode_to_string(Mode::Both), "both");
    assert!(Mode::Both.includes_server() && Mode::Both.includes_client());
    assert!(Mode::Server.includes_server() && !Mode::Server.includes_client());
    assert!(!Mode::Client.includes_server() && Mode::Client.includes_client());
}

#[test]
fn modes_are_read_in_any_case() {
    assert_eq!(parse_mode("server").unwrap(), Mode::Server);
    assert_eq!(parse_mode(" CLIENT\n").unwrap(), Mode::Client);
    assert_eq!(parse_mode("Both").unwrap(), Mode::Both);
    assert_eq!(mode_named("both"), Some(Mode::Both));
    assert_eq!(mode_named("Both"), None);
}

#[test]
fn unknown_mode_is_refused() {
    match parse_mode(" all ") {
        Err(e) => {
            assert!(matches!(&e, ValueError::InvalidMode { raw } if raw == " all "));
            assert_eq!(e.message(), "Invalid mode:  all  (expected server, client, or both)");
        }
        Ok(_) => panic!("all is no mode"),
    }
}

#[test]
fn truth_values_are_read_in_any_case() {
    for word in ["true", "1", "yes", "y", " TRUE ", "Yes", "Y"] {
        assert_eq!(parse_bool(word).unwrap(), true);
    }
    for word in ["false", "0", "no", "n", "False", " NO", "N\t"] {
        assert_eq!(parse_bool(word).unwrap(), false);
    }
    assert_eq!(bool_named("yes"), Some(true));
    assert_eq!(bool_named("n"), Some(false));
    assert_eq!(bool_named("YES"), None);
}

#[test]
fn unknown_truth_value_is_refused() {
    match parse_bool("maybe") {
        Err(e) => {
            assert!(matches!(&e, ValueError::InvalidBoolean { raw } if raw == "maybe"));
            assert_eq!(e.message(), "Invalid boolean: maybe (expected true/false)");
        }
        Ok(_) => panic!("maybe is no truth value"),
    }
    assert!(parse_bool("").is_err());
}

#[test]
fn lists_with_commas() {
    assert_eq!(parse_list("spring, go-server ,,aspnetcore"), strings(&["spring", "go-server", "aspnetcore"]));
    assert_eq!(parse_list(""), Vec::<String>::new());
    assert_eq!(parse_list(" , "), Vec::<String>::new());
}

#[test]
fn yaml_lists() {
    assert_eq!(parse_yaml_list("[spring, kotlin]").unwrap(), strings(&["spring", "kotlin"]));
    assert_eq!(parse_yaml_list("- a\n- b\n").unwrap(), strings(&["a", "b"]));
    assert_eq!(parse_yaml_list("[]").unwrap(), Vec::<String>::new());
    assert_eq!(parse_yaml_list("   ").unwrap(), Vec::<String>::new());
    assert!(parse_yaml_list("{a: b}").is_err());
    assert!(parse_yaml_list("[a, [b]]").is_err());
    assert!(parse_yaml_list("[unclosed").is_err());
}

#[test]
fn yaml_maps() {
    assert_eq!(
        parse_yaml_map("{spring: ./path.yaml, go: ./go.yaml}").unwrap(),
        vec![pair("go", "./go.yaml"), pair("spring", "./path.yaml")]
    );
    assert_eq!(parse_yaml_map("").unwrap(), Vec::new());
    assert!(parse_yaml_map("[a, b]").is_err());
}

#[test]
fn keys_split_at_the_first_dot() {
    assert_eq!(parse_key("mode"), ("mode".to_string(), None));
    assert_eq!(
        parse_key("generator_overrides.spring"),
        ("generator_overrides".to_string(), Some("spring".to_string()))
    );
    assert_eq!(parse_key("a.b.c"), ("a".to_string(), Some("b.c".to_string())));
}

#[test]
fn fields_have_two_spellings() {
    assert_eq!(field_named("spec"), Some(Field::Spec));
    assert_eq!(field_named("server_generators"), Some(Field::ServerGenerators));
    assert_eq!(field_named("server-generators"), Some(Field::ServerGenerators));
    assert_eq!(field_named("client-generators"), Some(Field::ClientGenerators));
    assert_eq!(field_named("generator-overrides"), Some(Field::GeneratorOverrides));
    assert_eq!(field_named("generator-image"), Some(Field::GeneratorImage));
    assert_eq!(field_named("redocly_image"), Some(Field::RedoclyImage));
    assert_eq!(field_named("Spec"), None);
    assert_eq!(field_named(""), None);
}

#[test]
fn values_are_set_by_key() {
    let mut config = Config::default();
    set_value(&mut config, "spec", "api.yaml".to_string()).unwrap();
    set_value(&mut config, "mode", "Both".to_string()).unwrap();
    set_value(&mut config, "lint", "no".to_string()).unwrap();
    set_value(&mut config, "generate", "0".to_string()).unwrap();
    set_value(&mut config, "compile", "FALSE".to_string()).unwrap();
    set_value(&mut config, "server-generators", "[spring, kotlin-spring]".to_string()).unwrap();
    set_value(&mut config, "client_generators", "- go\n".to_string()).unwrap();
    set_value(&mut config, "generator-image", "img:2".to_string()).unwrap();
    set_value(&mut config, "redocly_image", "lint:3".to_string()).unwrap();
    assert_eq!(config.spec, Some("api.yaml".to_string()));
    assert_eq!(config.mode, Mode::Both);
    assert!(!config.lint && !config.generate && !config.compile);
    assert_eq!(config.server_generators, strings(&["spring", "kotlin-spring"]));
    assert_eq!(config.client_generators, strings(&["go"]));
    assert_eq!(config.generator_image, "img:2");
    assert_eq!(config.redocly_image, "lint:3");
}

#[test]
fn overrides_are_set_one_by_one_and_all_at_once() {
    let mut config = Config::default();
    set_value(&mut config, "generator_overrides.spring", "./a.yaml".to_string()).unwrap();
    set_value(&mut config, "generator_overrides.go", "./g.yaml".to_string()).unwrap();
    set_value(&mut config, "generator-overrides.spring", "./b.yaml".to_string()).unwrap();
    assert_eq!(config.generator_overrides, vec![pair("go", "./g.yaml"), pair("spring", "./b.yaml")]);
    set_value(&mut config, "generator_overrides.go", String::new()).unwrap();
    assert_eq!(config.generator_overrides, vec![pair("spring", "./b.yaml")]);
    set_value(&mut config, "generator_overrides.absent", String::new()).unwrap();
    assert_eq!(config.generator_overrides, vec![pair("spring", "./b.yaml")]);
    set_value(&mut config, "generator_overrides", "{kotlin: ./k.yaml}".to_string()).unwrap();
    assert_eq!(config.generator_overrides, vec![pair("kotlin", "./k.yaml")]);
    set_value(&mut config, "generator_overrides", " ".to_string()).unwrap();
    assert!(config.generator_overrides.is_empty());
}

#[test]
fn refused_values_change_nothing() {
    let mut config = Config::default();
    let e = set_value(&mut config, "colour", "red".to_string()).unwrap_err();
    assert!(matches!(&e, ValueError::UnknownKey { key } if key == "colour"));
    assert_eq!(e.message(), "Unknown config key: colour");
    assert!(matches!(
        set_value(&mut config, "mode", "neither".to_string()),
        Err(ValueError::InvalidMode { .. })
    ));
    assert!(matches!(
        set_value(&mut config, "lint", "perhaps".to_string()),
        Err(ValueError::InvalidBoolean { .. })
    ));
    let e = set_value(&mut config, "server_generators", "{a: b}".to_string()).unwrap_err();
    assert!(matches!(&e, ValueError::InvalidList { field: Field::ServerGenerators, .. }));
    assert!(e.message().starts_with(
        "Invalid YAML list for server_generators (example: [spring, kotlin]): Failed to parse as YAML list: "
    ));
    let e = set_value(&mut config, "client-generators", "{a: b}".to_string()).unwrap_err();
    assert!(e.message().starts_with(
        "Invalid YAML list for client_generators (example: [typescript, swift]): Failed to parse as YAML list: "
    ));
    let e = set_value(&mut config, "generator_overrides", "[a]".to_string()).unwrap_err();
    assert!(matches!(&e, ValueError::InvalidMap { .. }));
    assert!(e.message().starts_with(
        "Invalid YAML map for generator_overrides (example: {spring: ./path.yaml}): Failed to parse as YAML map: "
    ));
    let fresh = Config::default();
    assert_eq!(config.mode, fresh.mode);
    assert_eq!(config.lint, fresh.lint);
    assert_eq!(config.server_generators, fresh.server_generators);
    assert_eq!(config.client_generators, fresh.client_generators);
    assert_eq!(config.generator_overrides, fresh.generator_overrides);
}

#[test]
fn values_are_set_by_field() {
    let mut config = Config::default();
    set_config_value(&mut config, ConfigKey::Spec, "a.yaml".to_string()).unwrap();
    set_config_value(&mut config, ConfigKey::Mode, "client".to_string()).unwrap();
    set_config_value(&mut config, ConfigKey::Lint, "n".to_string()).unwrap();
    set_config_value(&mut config, ConfigKey::Generate, "y".to_string()).unwrap();
    set_config_value(&mut config, ConfigKey::Compile, "0".to_string()).unwrap();
    set_config_value(&mut config, ConfigKey::ServerGenerators, "spring, go-server".to_string()).unwrap();
    set_config_value(&mut config, ConfigKey::ClientGenerators, "go".to_string()).unwrap();
    set_config_value(&mut config, ConfigKey::GeneratorImage, "g".to_string()).unwrap();
    set_config_value(&mut config, ConfigKey::RedoclyImage, "r".to_string()).unwrap();
    assert_eq!(config.spec, Some("a.yaml".to_string()));
    assert_eq!(config.mode, Mode::Client);
    assert!(!config.lint && config.generate && !config.compile);
    assert_eq!(config.server_generators, strings(&["spring", "go-server"]));
    assert_eq!(config.client_generators, strings(&["go"]));
    assert_eq!(config.generator_image, "g");
    assert_eq!(config.redocly_image, "r");
    assert!(set_config_value(&mut config, ConfigKey::Mode, "x".to_string()).is_err());
    assert_eq!(config.mode, Mode::Client);
    assert_eq!(ConfigKey::ServerGenerators.as_str(), "server_generators");
}

#[test]
fn values_are_shown_by_field() {
    let mut config = Config::default();
    assert_eq!(config_value_text(&config, ConfigKey::Spec), None);
    config.spec = Some("a.yaml".to_string());
    config.server_generators = strings(&["spring", "go-server"]);
    assert_eq!(config_value_text(&config, ConfigKey::Spec), Some("a.yaml".to_string()));
    assert_eq!(config_value_text(&config, ConfigKey::Mode), Some("server".to_string()));
    assert_eq!(config_value_text(&config, ConfigKey::Lint), Some("true".to_string()));
    assert_eq!(config_value_text(&config, ConfigKey::ServerGenerators), Some("spring,go-server".to_string()));
    assert_eq!(config_value_text(&config, ConfigKey::ClientGenerators), Some(String::new()));
    assert_eq!(
        config_value_text(&config, ConfigKey::RedoclyImage),
        Some("redocly/cli:1.25.5".to_string())
    );
}

#[test]
fn values_are_shown_by_key() {
    let mut config = Config::default();
    assert_eq!(print_value(&config, "spec").unwrap(), None);
    config.spec = Some("a.yaml".to_string());
    config.lint = false;
    config.server_generators = strings(&["spring", "go-server"]);
    config.generator_overrides = vec![pair("spring", "./s.yaml"), pair("go", "./g.yaml")];
    assert_eq!(print_value(&config, "spec").unwrap(), Some("a.yaml".to_string()));
    assert_eq!(print_value(&config, "mode").unwrap(), Some("server".to_string()));
    assert_eq!(print_value(&config, "lint").unwrap(), Some("false".to_string()));
    assert_eq!(print_value(&config, "generate").unwrap(), Some("true".to_string()));
    assert_eq!(print_value(&config, "server_generators").unwrap(), Some("- spring\n- go-server".to_string()));
    assert_eq!(print_value(&config, "client-generators").unwrap(), Some("[]".to_string()));
    assert_eq!(
        print_value(&config, "generator_overrides").unwrap(),
        Some("go: ./g.yaml\nspring: ./s.yaml".to_string())
    );
    assert_eq!(print_value(&config, "generator_overrides.go").unwrap(), Some("./g.yaml".to_string()));
    assert_eq!(print_value(&config, "generator_overrides.java").unwrap(), None);
    assert_eq!(
        print_value(&config, "generator_image").unwrap(),
        Some("openapitools/openapi-generator-cli:v7.17.0".to_string())
    );
    assert!(matches!(print_value(&config, "nothing"), Err(ValueError::UnknownKey { .. })));
}

#[test]
fn command_line_overrides_the_file() {
    let mut config = Config::default();
    config.spec = Some("file.yaml".to_string());
    config.client_generators = strings(&["go"]);
    config.apply_overrides(None, Some(Mode::Both), Some(strings(&["spring"])), None);
    assert_eq!(config.spec, Some("file.yaml".to_string()));
    assert_eq!(config.mode, Mode::Both);
    assert_eq!(config.server_generators, strings(&["spring"]));
    assert_eq!(config.client_generators, strings(&["go"]));
    config.apply_overrides(Some("cli.yaml".to_string()), None, None, Some(Vec::new()));
    assert_eq!(config.spec, Some("cli.yaml".to_string()));
    assert_eq!(config.mode, Mode::Both);
    assert!(config.client_generators.is_empty());
}

#[test]
fn skips_switch_stages_off() {
    let mut config = Config::default();
    config.apply_skips(false, true, false);
    assert!(config.lint && !config.generate && config.compile);
    config.apply_skips(true, false, true);
    assert!(!config.lint && !config.generate && !config.compile);
    config.apply_skips(false, false, false);
    assert!(!config.lint && !config.generate && !config.compile);
}

#[test]
fn command_line_as_data() {
    let cli = Cli {
        verbose: true,
        quiet: false,
        command: Commands::Config {
            command: Some(ConfigCommand::SetValue { key: ConfigKey::Mode, value: "both".to_string() }),
        },
    };
    assert!(cli.is_consistent());
    let both = Cli { verbose: true, quiet: true, command: Commands::Clean };
    assert!(!both.is_consistent());
    match cli.command {
        Commands::Config { command: Some(ConfigCommand::SetValue { key, value }) } => {
            assert_eq!(key, ConfigKey::Mode);
            assert_eq!(value, "both");
        }
        _ => panic!("the command was built otherwise"),
    }
}
