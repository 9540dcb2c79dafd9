//! The settings: what they hold, where they are kept, and the rule by which
//! one `key=value` assignment changes them.

use vstd::prelude::*;
use vstd::string::StrSliceExecFns;
use vstd::string::StringExecFns;
use crate::text::{chars_of, matches_at, same_text, starts_with_text};

verus! {

/// How the completion backend is reached.
#[derive(Debug, Clone, PartialEq, Eq)]
pub struct ApiConfig {
    pub base_url: String,
    pub api_key: String,
    pub model: String,
}

/// The settings of the tool.
#[derive(Debug, Clone, PartialEq, Eq)]
pub struct Config {
    pub api: ApiConfig,
    pub language: String,
}

/// The settings as plain values.
pub struct ConfigView {
    pub base_url: Seq<char>,
    pub api_key: Seq<char>,
    pub model: Seq<char>,
    pub language: Seq<char>,
}

impl View for Config {
    type V = ConfigView;

    open spec fn view(&self) -> ConfigView {
        ConfigView {
            base_url: self.api.base_url@,
            api_key: self.api.api_key@,
            model: self.api.model@,
            language: self.language@,
        }
    }
}

/// Why an assignment was refused.
#[derive(Debug, Clone, PartialEq, Eq)]
pub enum ConfigError {
    /// The assignment is not one key, one `=` and one value.
    BadFormat,
    /// The key names no setting.
    UnknownKey(String),
    /// The kind of setting is not `config`.
    UnknownType(String),
    /// What is stored cannot be read as settings.
    Unparseable,
}

/// What was found where the settings are kept.
#[derive(Debug, Clone, PartialEq, Eq)]
pub enum Stored {
    /// Nothing is stored yet.
    Missing,
    /// Settings with all their parts.
    Current(Config),
    /// Settings of the earlier form, which name no language.
    Legacy(ApiConfig),
    /// Something that is neither.
    Unreadable,
}

/// What has to be done to have settings for a run.
#[derive(Debug, Clone, PartialEq, Eq)]
pub enum LoadAction {
    /// These settings are used as they are.
    Use(Config),
    /// The operator is asked for every setting, with these as the values
    /// offered, and the answers are stored.
    FirstRun(Config),
    /// The operator is asked for the language alone, with the one in these
    /// settings offered, and the result is stored.
    AskLanguage(Config),
    /// The run ends with this error.
    Fail(ConfigError),
}

/// The setting that a key names.
pub enum Setting {
    BaseUrl,
    ApiKey,
    Model,
    Language,
}

/// The settings before anything was stored.
pub open spec fn default_settings() -> ConfigView {
    ConfigView {
        base_url: "https://api.openai.com/v1"@,
        api_key: Seq::empty(),
        model: "gpt-3.5-turbo"@,
        language: "en"@,
    }
}

/// The first offset at or after `from` at which `c` stands, or the length of
/// the text if it stands nowhere there.
pub open spec fn index_of(s: Seq<char>, c: char, from: int) -> int
    decreases s.len() - from,
{
    if 0 <= from < s.len() && s[from] != c {
        index_of(s, c, from + 1)
    } else {
        from
    }
}

/// The key and the value of an assignment: what stands before and after its
/// `=`, where it has exactly one.
pub open spec fn split_assignment(text: Seq<char>) -> Option<(Seq<char>, Seq<char>)> {
    let at = index_of(text, '=', 0);
    if at < text.len() && index_of(text, '=', at + 1) == text.len() {
        Some((text.subrange(0, at), text.subrange(at + 1, text.len() as int)))
    } else {
        None
    }
}

/// The setting that a key names, if any.
pub open spec fn setting_of(key: Seq<char>) -> Option<Setting> {
    if key == "base_url"@ {
        Some(Setting::BaseUrl)
    } else if key == "api_key"@ {
        Some(Setting::ApiKey)
    } else if key == "model"@ {
        Some(Setting::Model)
    } else if key == "language"@ {
        Some(Setting::Language)
    } else {
        None
    }
}

/// The settings with one of them replaced.
pub open spec fn with_setting(config: ConfigView, setting: Setting, value: Seq<char>) -> ConfigView {
    match setting {
        Setting::BaseUrl => ConfigView { base_url: value, ..config },
        Setting::ApiKey => ConfigView { api_key: value, ..config },
        Setting::Model => ConfigView { model: value, ..config },
        Setting::Language => ConfigView { language: value, ..config },
    }
}

/// The language code for a locale name: `zh` where the name begins with `zh`,
/// `en` otherwise.
pub open spec fn language_of(locale: Seq<char>) -> Seq<char> {
    if starts_with_text(locale, "zh"@) {
        "zh"@
    } else {
        "en"@
    }
}

/// The locale name in force: the first that is set of three, else `en_US.UTF-8`.
pub open spec fn locale_in_force(
    lang: Option<Seq<char>>,
    lc_all: Option<Seq<char>>,
    language: Option<Seq<char>>,
) -> Seq<char> {
    match lang {
        Some(name) => name,
        None => match lc_all {
            Some(name) => name,
            None => match language {
                Some(name) => name,
                None => "en_US.UTF-8"@,
            },
        },
    }
}

/// A directory path with one more component.
pub open spec fn joined(dir: Seq<char>, name: Seq<char>) -> Seq<char> {
    if dir.len() == 0 || dir.last() == '/' {
        dir + name
    } else {
        dir + "/"@ + name
    }
}

/// Where `c` is first found, and that it stands nowhere before.
pub proof fn lemma_index_of(s: Seq<char>, c: char, from: int)
    requires
        0 <= from <= s.len(),
    ensures
        from <= index_of(s, c, from) <= s.len(),
        index_of(s, c, from) < s.len() ==> s[index_of(s, c, from)] == c,
        forall|i: int| from <= i < index_of(s, c, from) ==> #[trigger] s[i] != c,
    decreases s.len() - from,
{
    if from < s.len() && s[from] != c {
        lemma_index_of(s, c, from + 1);
    }
}

/// An assignment splits exactly where the text is a key, one `=` and a value,
/// with no `=` in either.
pub proof fn lemma_split_assignment(text: Seq<char>)
    ensures
        match split_assignment(text) {
            Some((key, value)) => {
                &&& text == key + seq!['='] + value
                &&& !key.contains('=')
                &&& !value.contains('=')
            },
            None => forall|key: Seq<char>, value: Seq<char>|
                !key.contains('=') && !value.contains('=') ==> text != #[trigger] (key + seq!['=']
                    + value),
        },
{
    lemma_index_of(text, '=', 0);
    let at = index_of(text, '=', 0);
    if at < text.len() {
        lemma_index_of(text, '=', at + 1);
    }
    match split_assignment(text) {
        Some((key, value)) => {
            assert(text =~= key + seq!['='] + value);
            assert forall|i: int| 0 <= i < value.len() implies value[i] != '=' by {
                assert(value[i] == text[at + 1 + i]);
            }
        },
        None => {
            assert forall|key: Seq<char>, value: Seq<char>|
                !key.contains('=') && !value.contains('=') implies text != #[trigger] (key + seq![
                '=',
            ] + value) by {
                let whole = key + seq!['='] + value;
                if text == whole {
                    let k = key.len() as int;
                    assert(whole[k] == '=');
                    assert forall|i: int| 0 <= i < k implies whole[i] != '=' by {
                        assert(whole[i] == key[i]);
                        assert(key.contains(key[i]));
                    }
                    assert(at == k) by {
                        if at < k {
                            assert(whole[at] != '=');
                        }
                    }
                    let second = index_of(text, '=', at + 1);
                    assert(second < text.len());
                    assert(whole[second] == value[second - k - 1]);
                    assert(value.contains(value[second - k - 1]));
                }
            }
        },
    }
}

/// Decides what to do with what was found where the settings are kept.
/// `system_language` is the language that the host suggests.
pub fn plan_load(stored: Stored, system_language: &str) -> (action: LoadAction)
    ensures
        match stored {
            Stored::Missing => action matches LoadAction::FirstRun(offered) && offered@
                == (ConfigView { language: system_language@, ..default_settings() }),
            Stored::Current(config) => action matches LoadAction::Use(used) && used@ == config@,
            Stored::Legacy(api) => action matches LoadAction::AskLanguage(offered) && offered@ == (
            ConfigView {
                base_url: api.base_url@,
                api_key: api.api_key@,
                model: api.model@,
                language: system_language@,
            }),
            Stored::Unreadable => action matches LoadAction::Fail(ConfigError::Unparseable),
        },
{
    match stored {
        Stored::Missing => {
            let mut offered = default_config();
            offered.language = String::from_str(system_language);
            LoadAction::FirstRun(offered)
        },
        Stored::Current(config) => LoadAction::Use(config),
        Stored::Legacy(api) => LoadAction::AskLanguage(
            Config { api, language: String::from_str(system_language) },
        ),
        Stored::Unreadable => LoadAction::Fail(ConfigError::Unparseable),
    }
}

/// The settings before anything was stored.
pub fn default_config() -> (config: Config)
    ensures
        config@ == default_settings(),
{
    let config = Config {
        api: ApiConfig {
            base_url: String::from_str("https://api.openai.com/v1"),
            api_key: String::new(),
            model: String::from_str("gpt-3.5-turbo"),
        },
        language: String::from_str("en"),
    };
    assert(config.api.api_key@ =~= Seq::<char>::empty());
    config
}

/// The language to offer by default, from the three locale variables of the
/// host as far as they are set.
pub fn get_system_language(lang: Option<&str>, lc_all: Option<&str>, language: Option<&str>) -> (code:
    String)
    ensures
        code@ == language_of(
            locale_in_force(
                match lang {
                    Some(name) => Some(name@),
                    None => None,
                },
                match lc_all {
                    Some(name) => Some(name@),
                    None => None,
                },
                match language {
                    Some(name) => Some(name@),
                    None => None,
                },
            ),
        ),
{
    let locale: &str = match lang {
        Some(name) => name,
        None => match lc_all {
            Some(name) => name,
            None => match language {
                Some(name) => name,
                None => "en_US.UTF-8",
            },
        },
    };
    let name = chars_of(locale);
    let prefix = chars_of("zh");
    if matches_at(&name, &prefix, 0) {
        String::from_str("zh")
    } else {
        String::from_str("en")
    }
}

fn join_path(dir: &str, name: &str) -> (path: String)
    ensures
        path@ == joined(dir@, name@),
{
    let n: usize = dir.unicode_len();
    let mut path = String::from_str(dir);
    if n > 0 && dir.get_char(n - 1) != '/' {
        path.append("/");
    }
    path.append(name);
    path
}

/// The directory that holds the settings, under the home directory.
pub fn get_config_dir(home: &str) -> (dir: String)
    ensures
        dir@ == joined(home@, ".askai"@),
{
    join_path(home, ".askai")
}

/// The file that holds the settings.
pub fn get_config_path(home: &str) -> (path: String)
    ensures
        path@ == joined(joined(home@, ".askai"@), "config.toml"@),
{
    let dir = get_config_dir(home);
    join_path(dir.as_str(), "config.toml")
}

fn find_char(s: &Vec<char>, c: char, from: usize) -> (at: usize)
    requires
        from <= s.len(),
    ensures
        at == index_of(s@, c, from as int),
        from <= at <= s.len(),
{
    let mut at: usize = from;
    while at < s.len() && s[at] != c
        invariant
            from <= at <= s.len(),
            index_of(s@, c, from as int) == index_of(s@, c, at as int),
        decreases s.len() - at,
    {
        at += 1;
    }
    at
}

/// Splits an assignment into its key and its value.
pub fn parse_assignment(text: &str) -> (parts: Option<(String, String)>)
    ensures
        match parts {
            Some((key, value)) => split_assignment(text@) == Some((key@, value@)),
            None => split_assignment(text@) is None,
        },
{
    let chars = chars_of(text);
    let n: usize = chars.len();
    let at = find_char(&chars, '=', 0);
    if at >= n {
        return None;
    }
    let second = find_char(&chars, '=', at + 1);
    if second < n {
        return None;
    }
    let key = String::from_str(text.substring_char(0, at));
    let value = String::from_str(text.substring_char(at + 1, n));
    Some((key, value))
}

/// Applies one assignment to the settings. The assignment has to hold exactly
/// one `=`, the kind has to be `config`, and the key has to name a setting; in
/// that order each failure has its own error.
pub fn apply_setting(config: Config, config_type: &str, config_value: &str) -> (changed: Result<
    Config,
    ConfigError,
>)
    ensures
        match changed {
            Ok(next) => {
                &&& split_assignment(config_value@) matches Some((key, value))
                &&& config_type@ == "config"@
                &&& setting_of(key) matches Some(setting)
                &&& next@ == with_setting(config@, setting, value)
            },
            Err(ConfigError::BadFormat) => split_assignment(config_value@) is None,
            Err(ConfigError::UnknownType(kind)) => {
                &&& split_assignment(config_value@) is Some
                &&& config_type@ != "config"@
                &&& kind@ == config_type@
            },
            Err(ConfigError::UnknownKey(name)) => {
                &&& split_assignment(config_value@) matches Some((key, value))
                &&& config_type@ == "config"@
                &&& setting_of(key) is None
                &&& name@ == key
            },
            Err(ConfigError::Unparseable) => false,
        },
{
    let (key, value) = match parse_assignment(config_value) {
        Some(parts) => parts,
        None => {
            return Err(ConfigError::BadFormat);
        },
    };
    if !same_text(config_type, "config") {
        return Err(ConfigError::UnknownType(String::from_str(config_type)));
    }
    let mut next = config;
    if same_text(key.as_str(), "base_url") {
        next.api.base_url = value;
    } else if same_text(key.as_str(), "api_key") {
        next.api.api_key = value;
    } else if same_text(key.as_str(), "model") {
        next.api.model = value;
    } else if same_text(key.as_str(), "language") {
        next.language = value;
    } else {
        return Err(ConfigError::UnknownKey(key));
    }
    Ok(next)
}

impl ConfigError {
    /// The error as a sentence for the operator.
    pub open spec fn message_text(self) -> Seq<char> {
        match self {
            ConfigError::BadFormat => "配置格式错误，应为 key=value"@,
            ConfigError::UnknownKey(key) => "未知的配置项: "@ + key@,
            ConfigError::UnknownType(kind) => "未知的配置类型: "@ + kind@,
            ConfigError::Unparseable => "Unable to parse config file"@,
        }
    }

    /// The error as a sentence for the operator.
    pub fn message(&self) -> (text: String)
        ensures
            text@ == self.message_text(),
    {
        match self {
            ConfigError::BadFormat => String::from_str("配置格式错误，应为 key=value"),
            ConfigError::UnknownKey(key) => {
                let mut text = String::from_str("未知的配置项: ");
                text.append(key.as_str());
                text
            },
            ConfigError::UnknownType(kind) => {
                let mut text = String::from_str("未知的配置类型: ");
                text.append(kind.as_str());
                text
            },
            ConfigError::Unparseable => String::from_str("Unable to parse config file"),
        }
    }
}

} // verus!
