use aoc_fetch::config::{load_config, resolve_config, ConfigError, Lookup};

const FULL: &str =
    "[configuration]\nyear=2015\npath=\"input\"\nextension=\"txt\"\nsession=\"abc\"";

#[test]
fn full_settings_load() {
    let config = load_config(FULL).unwrap();
    assert_eq!(config.year, 2015);
    assert_eq!(config.path, "input");
    assert_eq!(config.extension, "txt");
    assert_eq!(config.session, "abc");
}

#[test]
fn default_settings_load_with_empty_session() {
    let text = "[configuration]\nyear=2015\npath=\"input\"\nextension=\"txt\"\nsession=\"\"";
    let config = load_config(text).unwrap();
    assert_eq!(config.session, "");
}

#[test]
fn garbage_is_unparsable() {
    assert_eq!(load_config("x=[").unwrap_err(), ConfigError::Unparsable);
}

#[test]
fn missing_section_is_reported() {
    let text = "[other]\nyear=2015";
    assert_eq!(load_config(text).unwrap_err(), ConfigError::MissingSection);
    assert_eq!(load_config("").unwrap_err(), ConfigError::MissingSection);
}

#[test]
fn missing_year_is_reported() {
    let text = "[configuration]\npath=\"input\"\nextension=\"txt\"\nsession=\"abc\"";
    assert_eq!(load_config(text).unwrap_err(), ConfigError::MissingYear);
}

#[test]
fn mistyped_year_is_reported() {
    let text = "[configuration]\nyear=\"2015\"\npath=\"input\"\nextension=\"txt\"\nsession=\"abc\"";
    assert_eq!(load_config(text).unwrap_err(), ConfigError::BadYear);
}

#[test]
fn missing_path_is_reported() {
    let text = "[configuration]\nyear=2015\nextension=\"txt\"\nsession=\"abc\"";
    assert_eq!(load_config(text).unwrap_err(), ConfigError::MissingPath);
}

#[test]
fn mistyped_path_is_reported() {
    let text = "[configuration]\nyear=2015\npath=7\nextension=\"txt\"\nsession=\"abc\"";
    assert_eq!(load_config(text).unwrap_err(), ConfigError::BadPath);
}

#[test]
fn missing_extension_is_reported() {
    let text = "[configuration]\nyear=2015\npath=\"input\"\nsession=\"abc\"";
    assert_eq!(load_config(text).unwrap_err(), ConfigError::MissingExtension);
}

#[test]
fn mistyped_extension_is_reported() {
    let text = "[configuration]\nyear=2015\npath=\"input\"\nextension=false\nsession=\"abc\"";
    assert_eq!(load_config(text).unwrap_err(), ConfigError::BadExtension);
}

#[test]
fn missing_session_is_reported() {
    let text = "[configuration]\nyear=2015\npath=\"input\"\nextension=\"txt\"";
    assert_eq!(load_config(text).unwrap_err(), ConfigError::MissingSession);
}

#[test]
fn mistyped_session_is_reported() {
    let text = "[configuration]\nyear=2015\npath=\"input\"\nextension=\"txt\"\nsession=2";
    assert_eq!(load_config(text).unwrap_err(), ConfigError::BadSession);
}

#[test]
fn fields_are_judged_in_order() {
    // Both year and session are missing: year is named first.
    let text = "[configuration]\npath=\"input\"";
    assert_eq!(load_config(text).unwrap_err(), ConfigError::MissingYear);
}

#[test]
fn resolve_accepts_complete_lookups() {
    let r = resolve_config(
        true,
        Lookup::Present(2024),
        Lookup::Present(String::from("cache")),
        Lookup::Present(String::from("dat")),
        Lookup::Present(String::from("s")),
    )
    .unwrap();
    assert_eq!(r.year, 2024);
    assert_eq!(r.path, "cache");
    assert_eq!(r.extension, "dat");
    assert_eq!(r.session, "s");
}

#[test]
fn resolve_rejects_missing_section() {
    let r = resolve_config(
        false,
        Lookup::Present(2024),
        Lookup::Present(String::from("cache")),
        Lookup::Present(String::from("dat")),
        Lookup::Present(String::from("s")),
    );
    assert_eq!(r.unwrap_err(), ConfigError::MissingSection);
}
