use vstd::prelude::*;

verus! {

use crate::casing::str_eq;

/// Translation lookup for the two user-interface languages. An unknown
/// language or key falls back to the key itself.
pub struct I18n {
    current_language: String,
}

impl View for I18n {
    type V = Seq<char>;

    /// The current language code.
    closed spec fn view(&self) -> Seq<char> {
        self.current_language@
    }
}

/// The translation of `key` in `lang`: the table below for the known
/// language/key pairs, the key itself for every other pair.
pub open spec fn spec_translation(lang: Seq<char>, key: Seq<char>) -> Seq<char> {
    if lang == "zh"@ {
        if key == "app_title"@ {
            "扩展名大小写转换工具"@
        } else if key == "select_files"@ {
            "选择文件/文件夹"@
        } else if key == "recursive_dirs"@ {
            "递归子目录"@
        } else if key == "settings"@ {
            "设置"@
        } else if key == "about"@ {
            "关于"@
        } else if key == "drag_drop_hint"@ {
            "将文件或文件夹拖放到此处"@
        } else if key == "convert_upper"@ {
            "转为大写"@
        } else if key == "convert_lower"@ {
            "转为小写"@
        } else if key == "language"@ {
            "语言"@
        } else if key == "theme"@ {
            "主题"@
        } else if key == "theme_light"@ {
            "浅色"@
        } else if key == "theme_dark"@ {
            "深色"@
        } else if key == "theme_system"@ {
            "跟随系统"@
        } else if key == "ok"@ {
            "确定"@
        } else if key == "cancel"@ {
            "取消"@
        } else if key == "failed"@ {
            "失败"@
        } else {
            key
        }
    } else if lang == "en"@ {
        if key == "app_title"@ {
            "File Extension Case Converter"@
        } else if key == "select_files"@ {
            "Select Files/Folders"@
        } else if key == "recursive_dirs"@ {
            "Recursive Subdirectories"@
        } else if key == "settings"@ {
            "Settings"@
        } else if key == "about"@ {
            "About"@
        } else if key == "drag_drop_hint"@ {
            "Drag and drop files or folders here"@
        } else if key == "convert_upper"@ {
            "Convert to Uppercase"@
        } else if key == "convert_lower"@ {
            "Convert to Lowercase"@
        } else if key == "language"@ {
            "Language"@
        } else if key == "theme"@ {
            "Theme"@
        } else if key == "theme_light"@ {
            "Light"@
        } else if key == "theme_dark"@ {
            "Dark"@
        } else if key == "theme_system"@ {
            "Follow System"@
        } else if key == "ok"@ {
            "OK"@
        } else if key == "cancel"@ {
            "Cancel"@
        } else if key == "failed"@ {
            "Failed"@
        } else {
            key
        }
    } else {
        key
    }
}

impl I18n {
    /// A fresh lookup, starting in Chinese.
    pub fn new() -> (r: Self)
        ensures
            r@ == "zh"@,
    {
        I18n { current_language: "zh".to_owned() }
    }

    /// Switches the current language.
    pub fn set_language(&mut self, language: &str)
        ensures
            final(self)@ == language@,
    {
        self.current_language = language.to_owned();
    }

    /// The translation of `key` in the current language, as
    /// `spec_translation` defines it.
    pub fn get(&self, key: &str) -> (r: String)
        ensures
            r@ == spec_translation(self@, key@),
    {
        if str_eq(self.current_language.as_str(), "zh") {
            if str_eq(key, "app_title") {
                "扩展名大小写转换工具".to_owned()
            } else if str_eq(key, "select_files") {
                "选择文件/文件夹".to_owned()
            } else if str_eq(key, "recursive_dirs") {
                "递归子目录".to_owned()
            } else if str_eq(key, "settings") {
                "设置".to_owned()
            } else if str_eq(key, "about") {
                "关于".to_owned()
            } else if str_eq(key, "drag_drop_hint") {
                "将文件或文件夹拖放到此处".to_owned()
            } else if str_eq(key, "convert_upper") {
                "转为大写".to_owned()
            } else if str_eq(key, "convert_lower") {
                "转为小写".to_owned()
            } else if str_eq(key, "language") {
                "语言".to_owned()
            } else if str_eq(key, "theme") {
                "主题".to_owned()
            } else if str_eq(key, "theme_light") {
                "浅色".to_owned()
            } else if str_eq(key, "theme_dark") {
                "深色".to_owned()
            } else if str_eq(key, "theme_system") {
                "跟随系统".to_owned()
            } else if str_eq(key, "ok") {
                "确定".to_owned()
            } else if str_eq(key, "cancel") {
                "取消".to_owned()
            } else if str_eq(key, "failed") {
                "失败".to_owned()
            } else {
                key.to_owned()
            }
        } else if str_eq(self.current_language.as_str(), "en") {
            if str_eq(key, "app_title") {
                "File Extension Case Converter".to_owned()
            } else if str_eq(key, "select_files") {
                "Select Files/Folders".to_owned()
            } else if str_eq(key, "recursive_dirs") {
                "Recursive Subdirectories".to_owned()
            } else if str_eq(key, "settings") {
                "Settings".to_owned()
            } else if str_eq(key, "about") {
                "About".to_owned()
            } else if str_eq(key, "drag_drop_hint") {
                "Drag and drop files or folders here".to_owned()
            } else if str_eq(key, "convert_upper") {
                "Convert to Uppercase".to_owned()
            } else if str_eq(key, "convert_lower") {
                "Convert to Lowercase".to_owned()
            } else if str_eq(key, "language") {
                "Language".to_owned()
            } else if str_eq(key, "theme") {
                "Theme".to_owned()
            } else if str_eq(key, "theme_light") {
                "Light".to_owned()
            } else if str_eq(key, "theme_dark") {
                "Dark".to_owned()
            } else if str_eq(key, "theme_system") {
                "Follow System".to_owned()
            } else if str_eq(key, "ok") {
                "OK".to_owned()
            } else if str_eq(key, "cancel") {
                "Cancel".to_owned()
            } else if str_eq(key, "failed") {
                "Failed".to_owned()
            } else {
                key.to_owned()
            }
        } else {
            key.to_owned()
        }
    }

    /// The display names of the selectable languages, in selector order.
    pub fn get_language_names(&self) -> (r: Vec<String>)
        ensures
            r.deep_view() == seq!["中文"@, "English"@],
    {
        let mut r: Vec<String> = Vec::new();
        r.push("中文".to_owned());
        r.push("English".to_owned());
        proof {
            assert(r.deep_view() =~= seq!["中文"@, "English"@]);
        }
        r
    }

    /// The display names of the selectable themes, in selector order, in the
    /// current language.
    pub fn get_theme_names(&self) -> (r: Vec<String>)
        ensures
            r.deep_view() == seq![
                spec_translation(self@, "theme_light"@),
                spec_translation(self@, "theme_dark"@),
                spec_translation(self@, "theme_system"@),
            ],
    {
        let mut r: Vec<String> = Vec::new();
        r.push(self.get("theme_light"));
        r.push(self.get("theme_dark"));
        r.push(self.get("theme_system"));
        proof {
            assert(r.deep_view() =~= seq![
                spec_translation(self@, "theme_light"@),
                spec_translation(self@, "theme_dark"@),
                spec_translation(self@, "theme_system"@),
            ]);
        }
        r
    }
}

} // verus!
