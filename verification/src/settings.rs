//! The persisted preferences record.
//!
//! `AppSettings` is always fully populated: a missing or corrupt settings
//! file never yields a partial record, only the hard-coded defaults.

use vstd::prelude::*;

verus! {

/// Colour theme choice kept in the settings record.
#[derive(Clone, Copy, PartialEq, Eq, Structural, Debug)]
pub enum Theme {
    Dark,
    Light,
    System,
}

/// Mathematical value of an [`AppSettings`] record.
pub ghost struct AppSettingsSpec {
    pub auto_start: bool,
    pub global_hotkey: Seq<char>,
    pub auto_close_on_focus_loss: bool,
    pub auto_load_clipboard: bool,
    pub use_llm_parsing: bool,
    pub theme: Theme,
}

/// User preferences, read at startup and overwritten as a whole on save.
#[derive(Clone, PartialEq, Debug)]
pub struct AppSettings {
    pub auto_start: bool,
    pub global_hotkey: String,
    pub auto_close_on_focus_loss: bool,
    pub auto_load_clipboard: bool,
    pub use_llm_parsing: bool,
    pub theme: Theme,
}

impl View for AppSettings {
    type V = AppSettingsSpec;

    open spec fn view(&self) -> AppSettingsSpec {
        AppSettingsSpec {
            auto_start: self.auto_start,
            global_hotkey: self.global_hotkey@,
            auto_close_on_focus_loss: self.auto_close_on_focus_loss,
            auto_load_clipboard: self.auto_load_clipboard,
            use_llm_parsing: self.use_llm_parsing,
            theme: self.theme,
        }
    }
}

/// The key combination bound when the user never chose one.
pub open spec fn default_hotkey() -> Seq<char> {
    "ctrl+shift+h"@
}

/// The record a first run, or a fall-back after corruption, starts from.
pub open spec fn default_settings() -> AppSettingsSpec {
    AppSettingsSpec {
        auto_start: false,
        global_hotkey: default_hotkey(),
        auto_close_on_focus_loss: false,
        auto_load_clipboard: true,
        use_llm_parsing: true,
        theme: Theme::Dark,
    }
}

/// The default hotkey as text, for callers that need the combo itself.
pub fn default_hotkey_text() -> (s: &'static str)
    ensures
        s@ == default_hotkey(),
{
    "ctrl+shift+h"
}

impl Default for AppSettings {
    fn default() -> (s: Self)
        ensures
            s@ == default_settings(),
    {
        AppSettings {
            auto_start: false,
            global_hotkey: String::from_str("ctrl+shift+h"),
            auto_close_on_focus_loss: false,
            auto_load_clipboard: true,
            use_llm_parsing: true,
            theme: Theme::Dark,
        }
    }
}

} // verus!
