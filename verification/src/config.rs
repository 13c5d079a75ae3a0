use vstd::prelude::*;

verus! {

use vstd::string::StringExecFns;
use crate::casing::str_eq;

/// The two persisted user preferences: the interface language and whether
/// directory scans recurse by default.
#[derive(Debug, Clone)]
pub struct AppConfig {
    pub language: String,
    pub default_recursive: bool,
}

impl Default for AppConfig {
    /// The documented defaults: Chinese, no recursion.
    fn default() -> (r: Self)
        ensures
            r.language@ == "zh"@,
            !r.default_recursive,
    {
        AppConfig { language: "zh".to_owned(), default_recursive: false }
    }
}

/// What the string value under `key` of the TOML document `content` is, when
/// the document parses as a table that holds a string there.
pub uninterp spec fn toml_str_at(content: Seq<char>, key: Seq<char>) -> Option<Seq<char>>;

/// What the boolean value under `key` of the TOML document `content` is,
/// when the document parses as a table that holds a boolean there.
pub uninterp spec fn toml_bool_at(content: Seq<char>, key: Seq<char>) -> Option<bool>;

/// Relies on `toml::Table`'s `FromStr` impl (`toml::from_str`) together with
/// `toml::Value::as_str` and `toml::Value::as_bool`: parsing a TOML document
/// is a function of the text alone, and the call reads the string value
/// under `str_key` and the boolean value under `bool_key` of the parsed
/// table, or nothing where the document does not parse or the key is absent
/// or of another type.
#[verifier::external_body]
fn toml_lookup(content: &str, str_key: &str, bool_key: &str) -> (r: (
    Option<String>,
    Option<bool>,
))
    ensures
        match r.0 {
            Some(s) => toml_str_at(content@, str_key@) == Some(s@),
            None => toml_str_at(content@, str_key@) is None,
        },
        r.1 == toml_bool_at(content@, bool_key@),
{
    let table: toml::Table = match content.parse() {
        Ok(t) => t,
        Err(_) => return (None, None),
    };
    let s = table.get(str_key).and_then(|v| v.as_str()).map(|v| v.to_string());
    let b = table.get(bool_key).and_then(|v| v.as_bool());
    (s, b)
}

/// The serialized form of a configuration.
pub open spec fn spec_config_toml(lang: Seq<char>, recursive: bool) -> Seq<char> {
    "# File Extension Case Converter Configuration\nlanguage = \""@ + lang + "\"\ndefault_recursive = "@
        + (if recursive {
        "true"@
    } else {
        "false"@
    }) + "\n"@
}

/// Which selector index the current language maps to.
pub open spec fn spec_language_index(lang: Seq<char>) -> i32 {
    if lang == "zh"@ {
        0
    } else if lang == "en"@ {
        1
    } else {
        0
    }
}

/// Which locale code the current language maps to.
pub open spec fn spec_locale(lang: Seq<char>) -> Seq<char> {
    if lang == "zh"@ {
        "zh_CN"@
    } else if lang == "en"@ {
        "en_US"@
    } else {
        "zh_CN"@
    }
}

impl AppConfig {
    /// Reads a configuration from TOML text. A document that does not parse,
    /// and a key that is absent or of the wrong type, fall back to the
    /// default for that field.
    pub fn parse_toml(content: &str) -> (r: AppConfig)
        ensures
            r.language@ == match toml_str_at(content@, "language"@) {
                Some(s) => s,
                None => "zh"@,
            },
            r.default_recursive == match toml_bool_at(content@, "default_recursive"@) {
                Some(b) => b,
                None => false,
            },
    {
        let looked_up = toml_lookup(content, "language", "default_recursive");
        let mut config = AppConfig::default();
        match looked_up.0 {
            Some(language) => {
                config.language = language;
            },
            None => {},
        }
        match looked_up.1 {
            Some(default_recursive) => {
                config.default_recursive = default_recursive;
            },
            None => {},
        }
        config
    }

    /// The TOML text that `save` persists, as `spec_config_toml` defines it.
    pub fn to_toml(&self) -> (r: String)
        ensures
            r@ == spec_config_toml(self.language@, self.default_recursive),
    {
        let mut s = "# File Extension Case Converter Configuration\nlanguage = \"".to_owned();
        s.append(self.language.as_str());
        s.append("\"\ndefault_recursive = ");
        if self.default_recursive {
            s.append("true");
        } else {
            s.append("false");
        }
        s.append("\n");
        s
    }

    /// The selector index of the current language, as `spec_language_index`
    /// defines it.
    pub fn get_language_index(&self) -> (r: i32)
        ensures
            r == spec_language_index(self.language@),
    {
        if str_eq(self.language.as_str(), "zh") {
            0
        } else if str_eq(self.language.as_str(), "en") {
            1
        } else {
            0
        }
    }

    /// Sets the language from a selector index: 1 selects English, any other
    /// index Chinese. The recursion default is untouched.
    pub fn set_language_by_index(&mut self, index: i32)
        ensures
            final(self).language@ == if index == 1 {
                "en"@
            } else {
                "zh"@
            },
            final(self).default_recursive == old(self).default_recursive,
    {
        if index == 1 {
            self.language = "en".to_owned();
        } else {
            self.language = "zh".to_owned();
        }
    }

    /// The locale code of the current language, as `spec_locale` defines it.
    pub fn get_locale(&self) -> (r: &str)
        ensures
            r@ == spec_locale(self.language@),
    {
        if str_eq(self.language.as_str(), "zh") {
            "zh_CN"
        } else if str_eq(self.language.as_str(), "en") {
            "en_US"
        } else {
            "zh_CN"
        }
    }
}

} // verus!
