use krabby::config::{
    Config, ConfigFields, CONFIG_DIR_NAME, CONFIG_FILE_NAME, DEFAULT_SHINY_RATE_BITS,
};

#[test]
fn default_is_english_with_one_in_128_shiny_rate() {
    let config = Config::default();
    assert_eq!(config.language, "en");
    assert_eq!(config.shiny_rate_bits, (1.0f64 / 128.0).to_bits());
    assert_eq!(f64::from_bits(config.shiny_rate_bits), 0.0078125);
}

#[test]
fn default_rate_bits_constant_is_one_in_128() {
    assert_eq!(DEFAULT_SHINY_RATE_BITS, 0.0078125f64.to_bits());
}

#[test]
fn file_location_names() {
    assert_eq!(CONFIG_DIR_NAME, "krabby");
    assert_eq!(CONFIG_FILE_NAME, "config.toml");
}

#[test]
fn with_defaults_of_empty_file_is_default() {
    let fields = ConfigFields { language: None, shiny_rate_bits: None };
    assert!(Config::with_defaults(fields) == Config::default());
}

#[test]
fn with_defaults_keeps_only_language_override() {
    let fields = ConfigFields { language: Some("fr".to_string()), shiny_rate_bits: None };
    let config = Config::with_defaults(fields);
    assert_eq!(config.language, "fr");
    assert_eq!(f64::from_bits(config.shiny_rate_bits), 1.0 / 128.0);
}

#[test]
fn with_defaults_keeps_only_rate_override() {
    let fields = ConfigFields { language: None, shiny_rate_bits: Some(0.5f64.to_bits()) };
    let config = Config::with_defaults(fields);
    assert_eq!(config.language, "en");
    assert_eq!(f64::from_bits(config.shiny_rate_bits), 0.5);
}

#[test]
fn with_defaults_of_full_file_is_that_file() {
    let fields = ConfigFields {
        language: Some("de".to_string()),
        shiny_rate_bits: Some(0.25f64.to_bits()),
    };
    let config = Config::with_defaults(fields);
    let expected = Config { language: "de".to_string(), shiny_rate_bits: 0.25f64.to_bits() };
    assert!(config == expected);
}

#[test]
fn configs_differing_in_one_field_are_unequal() {
    let a = Config::default();
    let b = Config { language: "fr".to_string(), shiny_rate_bits: a.shiny_rate_bits };
    let c = Config { language: "en".to_string(), shiny_rate_bits: 1.0f64.to_bits() };
    assert!(a != b);
    assert!(a != c);
    assert!(a == a.clone());
}

#[test]
fn default_renders_as_expected_toml() {
    let config = Config::default();
    let mut table = toml::Table::new();
    table.insert("language".to_string(), toml::Value::String(config.language.clone()));
    table.insert(
        "shiny_rate".to_string(),
        toml::Value::Float(f64::from_bits(config.shiny_rate_bits)),
    );
    assert_eq!(toml::to_string(&table).unwrap(), "language = \"en\"\nshiny_rate = 0.0078125\n");
}
