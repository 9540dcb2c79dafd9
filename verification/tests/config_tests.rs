use askai::config::{
    apply_setting, default_config, get_config_dir, get_config_path, get_system_language,
    parse_assignment, ApiConfig, Config, ConfigError,
};

#[test]
fn default_settings() {
    let c = default_config();
    assert_eq!(
        c,
        Config {
            api: ApiConfig {
                base_url: String::from("https://api.openai.com/v1"),
                api_key: String::new(),
                model: String::from("gpt-3.5-turbo"),
            },
            language: String::from("en"),
        }
    );
}

#[test]
fn assignment_sets_each_key() {
    let c = apply_setting(default_config(), "config", "base_url=http://localhost:8080/v1").unwrap();
    assert_eq!(c.api.base_url, "http://localhost:8080/v1");
    let c = apply_setting(c, "config", "api_key=SECRET-REDACTED").unwrap();
    assert_eq!(c.api.api_key, "SECRET-REDACTED");
    let c = apply_setting(c, "config", "model=gpt-4").unwrap();
    assert_eq!(c.api.model, "gpt-4");
    let c = apply_setting(c, "config", "language=zh").unwrap();
    assert_eq!(c.language, "zh");
    assert_eq!(c.api.base_url, "http://localhost:8080/v1");
    assert_eq!(c.api.api_key, "SECRET-REDACTED");
    assert_eq!(c.api.model, "gpt-4");
}

#[test]
fn assignment_may_have_empty_value() {
    let c = apply_setting(default_config(), "config", "model=").unwrap();
    assert_eq!(c.api.model, "");
}

#[test]
fn assignment_without_equals_is_bad_format() {
    assert_eq!(apply_setting(default_config(), "config", "model"), Err(ConfigError::BadFormat));
    assert_eq!(apply_setting(default_config(), "config", ""), Err(ConfigError::BadFormat));
}

#[test]
fn assignment_with_two_equals_is_bad_format() {
    assert_eq!(apply_setting(default_config(), "config", "a=b=c"), Err(ConfigError::BadFormat));
    assert_eq!(apply_setting(default_config(), "config", "model=="), Err(ConfigError::BadFormat));
}

#[test]
fn format_is_judged_before_kind() {
    assert_eq!(apply_setting(default_config(), "other", "nothing"), Err(ConfigError::BadFormat));
}

#[test]
fn unknown_kind_is_refused() {
    assert_eq!(
        apply_setting(default_config(), "profile", "model=gpt-4"),
        Err(ConfigError::UnknownType(String::from("profile")))
    );
}

#[test]
fn kind_is_judged_before_key() {
    assert_eq!(
        apply_setting(default_config(), "profile", "colour=red"),
        Err(ConfigError::UnknownType(String::from("profile")))
    );
}

#[test]
fn unknown_key_is_refused() {
    assert_eq!(
        apply_setting(default_config(), "config", "colour=red"),
        Err(ConfigError::UnknownKey(String::from("colour")))
    );
    assert_eq!(
        apply_setting(default_config(), "config", "=red"),
        Err(ConfigError::UnknownKey(String::new()))
    );
}

#[test]
fn error_messages() {
    assert_eq!(ConfigError::BadFormat.message(), "\u{914d}\u{7f6e}\u{683c}\u{5f0f}\u{9519}\u{8bef}\u{ff0c}\u{5e94}\u{4e3a} key=value");
    assert_eq!(
        ConfigError::UnknownKey(String::from("colour")).message(),
        "\u{672a}\u{77e5}\u{7684}\u{914d}\u{7f6e}\u{9879}: colour"
    );
    assert_eq!(
        ConfigError::UnknownType(String::from("profile")).message(),
        "\u{672a}\u{77e5}\u{7684}\u{914d}\u{7f6e}\u{7c7b}\u{578b}: profile"
    );
}

#[test]
fn parse_assignment_splits_at_the_one_equals() {
    assert_eq!(parse_assignment("a=b"), Some((String::from("a"), String::from("b"))));
    assert_eq!(parse_assignment("=b"), Some((String::new(), String::from("b"))));
    assert_eq!(parse_assignment("a="), Some((String::from("a"), String::new())));
    assert_eq!(parse_assignment("="), Some((String::new(), String::new())));
    assert_eq!(parse_assignment("\u{8bed}\u{8a00}=\u{4e2d}\u{6587}"), Some((String::from("\u{8bed}\u{8a00}"), String::from("\u{4e2d}\u{6587}"))));
    assert_eq!(parse_assignment("ab"), None);
    assert_eq!(parse_assignment(""), None);
    assert_eq!(parse_assignment("a=b=c"), None);
    assert_eq!(parse_assignment("=="), None);
}

#[test]
fn system_language_from_locale() {
    assert_eq!(get_system_language(Some("zh_CN.UTF-8"), None, None), "zh");
    assert_eq!(get_system_language(Some("en_US.UTF-8"), Some("zh_CN"), None), "en");
    assert_eq!(get_system_language(None, Some("zh_TW"), Some("en")), "zh");
    assert_eq!(get_system_language(None, None, Some("zh")), "zh");
    assert_eq!(get_system_language(None, None, Some("de_DE")), "en");
    assert_eq!(get_system_language(None, None, None), "en");
    assert_eq!(get_system_language(Some(""), Some("zh"), None), "en");
    assert_eq!(get_system_language(Some("z"), None, None), "en");
    assert_eq!(get_system_language(Some("ZH"), None, None), "en");
}

#[test]
fn config_paths_under_home() {
    assert_eq!(get_config_dir("/home/me"), "/home/me/.askai");
    assert_eq!(get_config_path("/home/me"), "/home/me/.askai/config.toml");
    assert_eq!(get_config_path("/home/me/"), "/home/me/.askai/config.toml");
    assert_eq!(get_config_path("/"), "/.askai/config.toml");
    assert_eq!(get_config_path(""), ".askai/config.toml");
}

#[test]
fn config_path_agrees_with_path_join() {
    for home in vec!["/home/me", "/home/me/", "/", "", "rel/dir"] {
        let want = std::path::Path::new(home).join(".askai").join("config.toml");
        if std::path::MAIN_SEPARATOR == '/' {
            assert_eq!(get_config_path(home), want.to_str().unwrap());
        }
    }
}

#[test]
fn missing_settings_start_a_first_run() {
    let action = askai::config::plan_load(askai::config::Stored::Missing, "zh");
    let mut offered = default_config();
    offered.language = String::from("zh");
    assert_eq!(action, askai::config::LoadAction::FirstRun(offered));
}

#[test]
fn stored_settings_are_used_as_they_are() {
    let mut stored = default_config();
    stored.api.api_key = String::from("k");
    stored.language = String::from("zh");
    let action = askai::config::plan_load(askai::config::Stored::Current(stored.clone()), "en");
    assert_eq!(action, askai::config::LoadAction::Use(stored));
}

#[test]
fn earlier_settings_need_a_language() {
    let api = ApiConfig {
        base_url: String::from("http://h"),
        api_key: String::from("k"),
        model: String::from("m"),
    };
    let action = askai::config::plan_load(askai::config::Stored::Legacy(api.clone()), "en");
    assert_eq!(
        action,
        askai::config::LoadAction::AskLanguage(Config { api, language: String::from("en") })
    );
}

#[test]
fn unreadable_settings_end_the_run() {
    let action = askai::config::plan_load(askai::config::Stored::Unreadable, "en");
    assert_eq!(action, askai::config::LoadAction::Fail(ConfigError::Unparseable));
    assert_eq!(ConfigError::Unparseable.message(), "Unable to parse config file");
}
