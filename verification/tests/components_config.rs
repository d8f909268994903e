use greentic_dev::components::{
    parse_coordinate, ComponentDescriber, ComponentSchema, StaticComponentDescriber,
};
use greentic_dev::config::{
    config_candidates, config_path, discovered_config_path, forced_config_path, format_attempted,
    missing_config_reason, push_unique, ComponentDefaults, ConfigEnv, ConfigSource,
    DefaultsSection, DistributorProfileConfig, DistributorSection, GreenticConfig, ProfileMap,
    ToolEntry, ToolsSection,
};
use greentic_dev::i18n::{
    base_language, detect_env_locale, locale_parse_input, resolve_normalized, t, tf, Catalogs,
};
use greentic_dev::strmap::{KeyedMap, StrMap};

#[test]
fn parse_coordinate_defaults_to_wildcard_version() {
    let (name, version) = parse_coordinate("demo.component");
    assert_eq!(name, "demo.component");
    assert_eq!(version, "*");
}

#[test]
fn parse_coordinate_splits_explicit_version() {
    let (name, version) = parse_coordinate("demo.component@1.2.3");
    assert_eq!(name, "demo.component");
    assert_eq!(version, "1.2.3");
}

#[test]
fn parse_coordinate_splits_at_the_last_at_sign() {
    let (name, version) = parse_coordinate("@scope/pkg@2.0");
    assert_eq!(name, "@scope/pkg");
    assert_eq!(version, "2.0");
}

fn schema(text: Option<&str>) -> ComponentSchema {
    ComponentSchema {
        node_schema: text.map(str::to_string),
    }
}

#[test]
fn static_describer_answers_registered_then_fallback() {
    let mut describer =
        StaticComponentDescriber::new().with_fallback(schema(Some("{\"type\":\"object\"}")));
    describer
        .register_schema("oauth", schema(Some("{}")))
        .register_schema("http", schema(None));
    assert_eq!(
        describer.describe("oauth").unwrap().node_schema.as_deref(),
        Some("{}")
    );
    assert_eq!(describer.describe("http").unwrap().node_schema, None);
    assert_eq!(
        describer.describe("other").unwrap().node_schema.as_deref(),
        Some("{\"type\":\"object\"}")
    );
    assert_eq!(
        StaticComponentDescriber::new().describe("x").unwrap().node_schema,
        None
    );
}

fn profile(base_url: &str) -> DistributorProfileConfig {
    DistributorProfileConfig {
        name: None,
        base_url: Some(base_url.to_string()),
        url: None,
        token: None,
        tenant_id: None,
        environment_id: None,
        headers: None,
    }
}

fn profiles(entries: &[(&str, &str)]) -> ProfileMap {
    let mut map: ProfileMap = KeyedMap::new();
    for (name, url) in entries {
        map.insert(name.to_string(), profile(url));
    }
    map
}

fn config(section: &[(&str, &str)], legacy: &[(&str, &str)], root: &[(&str, &str)]) -> GreenticConfig {
    GreenticConfig {
        tools: ToolsSection {
            greentic_component: ToolEntry { path: None },
        },
        defaults: DefaultsSection {
            component: ComponentDefaults {
                org: None,
                template: None,
            },
        },
        distributor: DistributorSection {
            default_profile: None,
            profiles: profiles(section),
            legacy_profiles: profiles(legacy),
        },
        legacy_distributor_profiles: profiles(root),
    }
}

fn base_url_of(map: &ProfileMap, name: &str) -> Option<String> {
    map.get(name).and_then(|p| p.base_url.clone())
}

#[test]
fn section_profiles_win_over_legacy_tables() {
    let c = config(&[("prod", "https://new")], &[("prod", "https://old"), ("qa", "https://qa")], &[("root", "https://root")]);
    let merged = c.distributor_profiles();
    assert_eq!(base_url_of(&merged, "prod").as_deref(), Some("https://new"));
    assert_eq!(base_url_of(&merged, "qa").as_deref(), Some("https://qa"));
    assert_eq!(base_url_of(&merged, "root"), None);
}

#[test]
fn root_profiles_are_only_a_fallback() {
    let c = config(&[], &[], &[("root", "https://root")]);
    let merged = c.distributor_profiles();
    assert_eq!(base_url_of(&merged, "root").as_deref(), Some("https://root"));
    assert!(config(&[], &[], &[]).distributor_profiles().is_empty());
}

#[test]
fn config_path_resolution_order() {
    let env = ConfigEnv {
        greentic_dev_config_file: Some(String::new()),
        greentic_config_file: Some("/env/config.toml".to_string()),
        greentic_config: Some("/other.toml".to_string()),
    };
    let arg = forced_config_path(Some("/arg.toml"), &env).unwrap();
    assert_eq!(arg.selected.as_deref(), Some("/arg.toml"));
    assert!(matches!(arg.forced, Some(ConfigSource::Arg)));
    let from_env = forced_config_path(None, &env).unwrap();
    assert_eq!(from_env.selected.as_deref(), Some("/env/config.toml"));
    assert!(matches!(from_env.forced, Some(ConfigSource::Env("GREENTIC_CONFIG_FILE"))));
    assert_eq!(from_env.attempted, vec!["/env/config.toml".to_string()]);
    let none = ConfigEnv {
        greentic_dev_config_file: None,
        greentic_config_file: None,
        greentic_config: None,
    };
    assert!(forced_config_path(None, &none).is_none());
    assert_eq!(missing_config_reason(None), "config discovery");
    assert_eq!(missing_config_reason(Some(ConfigSource::Arg)), "explicit config override");
}

#[test]
fn discovered_config_candidates_are_unique_and_ordered() {
    let candidates = config_candidates(Some("/home/u/.config/"), Some("/home/u"));
    assert_eq!(
        candidates,
        vec![
            "/home/u/.config/greentic-dev/config.toml".to_string(),
            "/home/u/.greentic/config.toml".to_string(),
        ]
    );
    let resolution = discovered_config_path(candidates.clone(), &vec![false, true]);
    assert_eq!(resolution.selected.as_deref(), Some("/home/u/.greentic/config.toml"));
    assert_eq!(resolution.attempted, candidates);
    assert_eq!(format_attempted(&Vec::new()), "(none)");
    assert_eq!(
        format_attempted(&vec!["/a".to_string(), "/b".to_string()]),
        "/a, /b"
    );
    let mut paths = vec!["/a".to_string()];
    push_unique(&mut paths, "/a".to_string());
    push_unique(&mut paths, "/b".to_string());
    assert_eq!(paths, vec!["/a".to_string(), "/b".to_string()]);
}

fn catalogs() -> Catalogs {
    let mut en = StrMap::new();
    en.insert("greet".to_string(), "Hello {name}, {name}!".to_string());
    en.insert("only_en".to_string(), "English".to_string());
    let mut nl = StrMap::new();
    nl.insert("greet".to_string(), "Hallo {name}".to_string());
    let mut cats: Catalogs = KeyedMap::new();
    cats.insert("en".to_string(), en);
    cats.insert("nl".to_string(), nl);
    cats
}

#[test]
fn messages_fall_back_by_language_then_english_then_key() {
    let cats = catalogs();
    assert_eq!(t(&cats, "nl-NL", "greet"), "Hallo {name}");
    assert_eq!(t(&cats, "nl-NL", "only_en"), "English");
    assert_eq!(t(&cats, "fr", "missing.key"), "missing.key");
    assert_eq!(
        tf(&cats, "en", "greet", &vec![("name".to_string(), "Ann".to_string())]),
        "Hello Ann, Ann!"
    );
    assert_eq!(base_language("PT-br"), "pt");
}

#[test]
fn locales_are_cleaned_and_matched_to_supported_ones() {
    assert_eq!(locale_parse_input(" en_GB.UTF-8@euro "), Some("en-GB".to_string()));
    assert_eq!(locale_parse_input("   "), None);
    let supported = vec!["en".to_string(), "en-GB".to_string(), "nl".to_string()];
    assert_eq!(
        resolve_normalized(Some("en-GB".to_string()), &supported),
        Some("en-GB".to_string())
    );
    assert_eq!(
        resolve_normalized(Some("nl-NL".to_string()), &supported),
        Some("nl".to_string())
    );
    assert_eq!(resolve_normalized(Some("fr-FR".to_string()), &supported), None);
    assert_eq!(
        detect_env_locale(&vec![None, Some("  ".to_string()), Some(" de_DE ".to_string())]),
        Some("de_DE".to_string())
    );
}

// The supported locales come from the message catalogues the program ships;
// these tests name a set holding English, British English and Dutch.
fn shipped_locales() -> Vec<String> {
    vec!["en".to_string(), "en-GB".to_string(), "nl".to_string()]
}

#[test]
fn locale_exact_match_wins() {
    assert_eq!(
        greentic_dev::i18n::select_locale_from(Some("en-GB"), None, None, &shipped_locales()),
        "en-GB"
    );
}

#[test]
fn locale_base_language_falls_back() {
    assert_eq!(
        greentic_dev::i18n::select_locale_from(Some("nl-NL"), None, None, &shipped_locales()),
        "nl"
    );
}

#[test]
fn config_path_is_the_forced_file_else_the_first_candidate() {
    let forced = ConfigEnv {
        greentic_dev_config_file: None,
        greentic_config_file: Some("/env/config.toml".to_string()),
        greentic_config: None,
    };
    assert_eq!(
        config_path(&forced, Some("/home/u/.config"), Some("/home/u")).as_deref(),
        Some("/env/config.toml")
    );
    let free = ConfigEnv { greentic_dev_config_file: None, greentic_config_file: None, greentic_config: None };
    assert_eq!(
        config_path(&free, Some("/xdg"), Some("/home/u")).as_deref(),
        Some("/xdg/greentic-dev/config.toml")
    );
    assert_eq!(
        config_path(&free, None, Some("/home/u")).as_deref(),
        Some("/home/u/.config/greentic-dev/config.toml")
    );
    assert_eq!(config_path(&free, None, None), None);
}
