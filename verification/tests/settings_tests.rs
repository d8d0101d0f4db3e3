use mizu::settings::{
    config_location, ConfigDir, FileRead, LoadError, SaveError, Settings, ThemeName,
    DEFAULT_REFRESH_MS, MAX_REFRESH_MS, MIN_REFRESH_MS,
};

#[test]
fn defaults_are_sane() {
    let s = Settings::default();
    assert_eq!(s.refresh_rate_ms, DEFAULT_REFRESH_MS);
    assert_eq!(s.theme, ThemeName::Mizu);
    assert!(s.flow_enabled);
}

#[test]
fn sanitizes_out_of_range_refresh() {
    let s = Settings {
        refresh_rate_ms: 1,
        ..Settings::default()
    };
    assert_eq!(s.sanitized().refresh_rate_ms, MIN_REFRESH_MS);

    let s = Settings {
        refresh_rate_ms: 99999,
        ..Settings::default()
    };
    assert_eq!(s.sanitized().refresh_rate_ms, MAX_REFRESH_MS);
}

#[test]
fn theme_cycles() {
    assert_eq!(ThemeName::Mizu.next(), ThemeName::Abyss);
    assert_eq!(ThemeName::Abyss.next(), ThemeName::Coral);
    assert_eq!(ThemeName::Coral.next(), ThemeName::Mizu);
}

#[test]
fn save_load_roundtrip() {
    let original = Settings {
        refresh_rate_ms: 33,
        theme: ThemeName::Coral,
        flow_enabled: false,
    };
    let text = original.save().unwrap();

    let loaded = Settings::load_from_read(FileRead::Text(text)).unwrap().sanitized();
    assert_eq!(loaded.refresh_rate_ms, 33);
    assert_eq!(loaded.theme, ThemeName::Coral);
    assert!(!loaded.flow_enabled);
}

#[test]
fn missing_file_returns_default() {
    let loaded = Settings::load_from_read(FileRead::NotFound).unwrap();
    assert_eq!(loaded, Settings::default());
}

#[test]
fn invalid_toml_errors() {
    let err = Settings::load_from_read(FileRead::Text("not = [valid".to_string())).unwrap_err();
    assert!(format!("{} bad.toml", err.message()).contains("failed to parse"));
}

#[test]
fn partial_toml_uses_defaults() {
    let loaded = Settings::load_from_read(FileRead::Text("theme = \"coral\"\n".to_string()))
        .unwrap()
        .sanitized();
    assert_eq!(loaded.theme, ThemeName::Coral);
    assert_eq!(loaded.refresh_rate_ms, DEFAULT_REFRESH_MS);
    assert!(loaded.flow_enabled);
}

#[test]
fn saved_text_is_pretty_toml_in_field_order() {
    let s = Settings {
        refresh_rate_ms: 250,
        theme: ThemeName::Abyss,
        flow_enabled: true,
    };
    assert_eq!(
        s.save().unwrap(),
        "refresh_rate_ms = 250\ntheme = \"abyss\"\nflow_enabled = true\n"
    );
}

#[test]
fn refresh_beyond_toml_integers_cannot_be_saved() {
    let s = Settings {
        refresh_rate_ms: u64::MAX,
        ..Settings::default()
    };
    assert_eq!(s.save(), Err(SaveError::OutOfRange));
    let s = Settings {
        refresh_rate_ms: i64::MAX as u64,
        ..Settings::default()
    };
    assert!(s.save().is_ok());
}

#[test]
fn load_sanitizes_and_falls_back() {
    let fast = Settings::load(FileRead::Text("refresh_rate_ms = 1\n".to_string()));
    assert_eq!(fast.refresh_rate_ms, MIN_REFRESH_MS);
    let slow = Settings::load(FileRead::Text("refresh_rate_ms = 5000\n".to_string()));
    assert_eq!(slow.refresh_rate_ms, MAX_REFRESH_MS);
    assert_eq!(Settings::load(FileRead::Failed), Settings::default());
    assert_eq!(
        Settings::load(FileRead::Text("theme = \"ocean\"\nflow_enabled = false\n".to_string())),
        Settings::default()
    );
    assert_eq!(Settings::load_from_read(FileRead::Failed), Err(LoadError::Read));
    assert_eq!(LoadError::Read.message(), "failed to read");
}

#[test]
fn wrong_kinds_of_values_are_refused() {
    for text in [
        "refresh_rate_ms = -5\n",
        "refresh_rate_ms = 20.5\n",
        "refresh_rate_ms = \"20\"\n",
        "theme = 3\n",
        "theme = \"Coral\"\n",
        "flow_enabled = \"yes\"\n",
        "flow_enabled = 1\n",
        "theme = \"mizu\"\ntheme = \"coral\"\n",
    ] {
        assert_eq!(
            Settings::parse(text),
            Err(LoadError::Parse),
            "{text:?} should be refused"
        );
    }
}

#[test]
fn unknown_keys_are_ignored() {
    let s = Settings::parse("colour = \"red\"\nrefresh_rate_ms = 40\n[extra]\nx = 1\n").unwrap();
    assert_eq!(s.refresh_rate_ms, 40);
    assert_eq!(s.theme, ThemeName::Mizu);
    assert!(s.flow_enabled);
}

#[test]
fn theme_may_be_written_as_a_table() {
    let s = Settings::parse("theme = { abyss = {} }\n").unwrap();
    assert_eq!(s.theme, ThemeName::Abyss);
    let s = Settings::parse("[theme.coral]\n").unwrap();
    assert_eq!(s.theme, ThemeName::Coral);
    let s = Settings::parse("theme = { coral = [] }\n").unwrap();
    assert_eq!(s.theme, ThemeName::Coral);
    assert_eq!(
        Settings::parse("theme = { coral = {}, abyss = {} }\n"),
        Err(LoadError::Parse)
    );
    assert_eq!(
        Settings::parse("theme = { coral = { x = 1 } }\n"),
        Err(LoadError::Parse)
    );
    assert_eq!(Settings::parse("theme = {}\n"), Err(LoadError::Parse));
}

#[test]
fn from_document_reads_a_parsed_table() {
    let mut doc = toml::Table::new();
    doc.insert("refresh_rate_ms".to_string(), toml::Value::Integer(500));
    doc.insert("flow_enabled".to_string(), toml::Value::Boolean(false));
    let s = Settings::from_document(&doc).unwrap();
    assert_eq!(
        s,
        Settings {
            refresh_rate_ms: 500,
            theme: ThemeName::Mizu,
            flow_enabled: false
        }
    );
    doc.insert("theme".to_string(), toml::Value::String("nope".to_string()));
    assert_eq!(Settings::from_document(&doc), None);
}

#[test]
fn config_location_prefers_env_then_config_then_home() {
    assert_eq!(
        config_location(Some("e"), Some("c"), Some("h")),
        ConfigDir::FromEnv("e")
    );
    assert_eq!(
        config_location(None, Some("c"), Some("h")),
        ConfigDir::UserConfig("c")
    );
    assert_eq!(
        config_location(None, None, Some("h")),
        ConfigDir::HomeConfig("h")
    );
    assert_eq!(config_location::<&str>(None, None, None), ConfigDir::WorkingDir);
}
