use ext_case_converter::config::AppConfig;
use ext_case_converter::i18n::I18n;

#[test]
fn defaults_are_chinese_and_not_recursive() {
    let c = AppConfig::default();
    assert_eq!(c.language, "zh");
    assert!(!c.default_recursive);
}

#[test]
fn parse_reads_both_keys() {
    let c = AppConfig::parse_toml("language = \"en\"\ndefault_recursive = true\n");
    assert_eq!(c.language, "en");
    assert!(c.default_recursive);
}

#[test]
fn parse_keeps_defaults_for_missing_keys() {
    let c = AppConfig::parse_toml("");
    assert_eq!(c.language, "zh");
    assert!(!c.default_recursive);

    let only_recursive = AppConfig::parse_toml("default_recursive = true\n");
    assert_eq!(only_recursive.language, "zh");
    assert!(only_recursive.default_recursive);
}

#[test]
fn parse_keeps_defaults_for_unparsable_text() {
    let c = AppConfig::parse_toml("not toml at [[[ all");
    assert_eq!(c.language, "zh");
    assert!(!c.default_recursive);
}

#[test]
fn parse_keeps_defaults_for_wrongly_typed_keys() {
    let c = AppConfig::parse_toml("language = 3\ndefault_recursive = \"yes\"\n");
    assert_eq!(c.language, "zh");
    assert!(!c.default_recursive);
}

#[test]
fn serialized_config_has_the_documented_shape() {
    let mut c = AppConfig::default();
    c.language = "en".to_string();
    c.default_recursive = true;
    assert_eq!(
        c.to_toml(),
        "# File Extension Case Converter Configuration\nlanguage = \"en\"\ndefault_recursive = true\n"
    );
    assert_eq!(
        AppConfig::default().to_toml(),
        "# File Extension Case Converter Configuration\nlanguage = \"zh\"\ndefault_recursive = false\n"
    );
}

#[test]
fn serialized_config_parses_back_unchanged() {
    let mut c = AppConfig::default();
    c.language = "en".to_string();
    c.default_recursive = true;
    let back = AppConfig::parse_toml(&c.to_toml());
    assert_eq!(back.language, "en");
    assert!(back.default_recursive);
}

#[test]
fn language_index_mapping() {
    let mut c = AppConfig::default();
    assert_eq!(c.get_language_index(), 0);
    c.language = "en".to_string();
    assert_eq!(c.get_language_index(), 1);
    c.language = "de".to_string();
    assert_eq!(c.get_language_index(), 0);

    c.set_language_by_index(1);
    assert_eq!(c.language, "en");
    c.set_language_by_index(0);
    assert_eq!(c.language, "zh");
    c.set_language_by_index(7);
    assert_eq!(c.language, "zh");
}

#[test]
fn locale_mapping() {
    let mut c = AppConfig::default();
    assert_eq!(c.get_locale(), "zh_CN");
    c.language = "en".to_string();
    assert_eq!(c.get_locale(), "en_US");
    c.language = "fr".to_string();
    assert_eq!(c.get_locale(), "zh_CN");
}

#[test]
fn translations_follow_the_language() {
    let mut t = I18n::new();
    assert_eq!(t.get("app_title"), "扩展名大小写转换工具");
    assert_eq!(t.get("failed"), "失败");
    t.set_language("en");
    assert_eq!(t.get("app_title"), "File Extension Case Converter");
    assert_eq!(t.get("failed"), "Failed");
    assert_eq!(t.get("convert_lower"), "Convert to Lowercase");
}

#[test]
fn unknown_keys_and_languages_fall_back_to_the_key() {
    let mut t = I18n::new();
    assert_eq!(t.get("no_such_key"), "no_such_key");
    t.set_language("fr");
    assert_eq!(t.get("ok"), "ok");
}

#[test]
fn selector_name_lists() {
    let mut t = I18n::new();
    assert_eq!(t.get_language_names(), vec!["中文".to_string(), "English".to_string()]);
    assert_eq!(
        t.get_theme_names(),
        vec!["浅色".to_string(), "深色".to_string(), "跟随系统".to_string()]
    );
    t.set_language("en");
    assert_eq!(
        t.get_theme_names(),
        vec!["Light".to_string(), "Dark".to_string(), "Follow System".to_string()]
    );
}
