//! The application's settings and the copy of them that is kept in memory.

use vstd::prelude::*;
use vstd::string::*;

verus! {

/// The application's settings.
#[derive(Debug, PartialEq, Eq)]
pub struct Settings {
    /// Global hotkey for triggering recording.
    pub hotkey: String,
    /// Model used for transcription.
    pub model: String,
    /// Whether to use the GPU.
    pub use_gpu: bool,
    /// Language code for transcription, such as "en".
    pub language: String,
    /// Whether the overlay button shows only while recording.
    pub show_overlay_only_during_recording: bool,
}

/// Model of [`Settings`].
pub struct SettingsModel {
    pub hotkey: Seq<char>,
    pub model: Seq<char>,
    pub use_gpu: bool,
    pub language: Seq<char>,
    pub show_overlay_only_during_recording: bool,
}

impl View for Settings {
    type V = SettingsModel;

    open spec fn view(&self) -> SettingsModel {
        SettingsModel {
            hotkey: self.hotkey@,
            model: self.model@,
            use_gpu: self.use_gpu,
            language: self.language@,
            show_overlay_only_during_recording: self.show_overlay_only_during_recording,
        }
    }
}

/// The settings of a fresh installation.
pub open spec fn default_settings() -> SettingsModel {
    SettingsModel {
        hotkey: "CommandOrControl+Shift+Space"@,
        model: "base"@,
        use_gpu: false,
        language: "en"@,
        show_overlay_only_during_recording: false,
    }
}

impl Default for Settings {
    fn default() -> (settings: Self)
        ensures
            settings@ == default_settings(),
    {
        Settings {
            hotkey: String::from_str("CommandOrControl+Shift+Space"),
            model: String::from_str("base"),
            use_gpu: false,
            language: String::from_str("en"),
            show_overlay_only_during_recording: false,
        }
    }
}

impl Clone for Settings {
    fn clone(&self) -> (copy: Self)
        ensures
            copy@ == self@,
    {
        Settings {
            hotkey: self.hotkey.clone(),
            model: self.model.clone(),
            use_gpu: self.use_gpu,
            language: self.language.clone(),
            show_overlay_only_during_recording: self.show_overlay_only_during_recording,
        }
    }
}

/// Model of optional settings.
pub open spec fn settings_model(settings: Option<Settings>) -> Option<SettingsModel> {
    match settings {
        Some(s) => Some(s@),
        None => None,
    }
}

/// The settings to work with, given what the settings file held: the
/// defaults where there is no file.
pub fn settings_or_default(stored: Option<Settings>) -> (settings: Settings)
    ensures
        settings@ == match stored {
            Some(s) => s@,
            None => default_settings(),
        },
{
    match stored {
        Some(s) => s,
        None => Settings::default(),
    }
}

/// The settings as last read from disk or written to it, so that they are
/// read from disk once.
#[derive(Debug)]
pub struct SettingsCache {
    cached: Option<Settings>,
}

impl SettingsCache {
    /// What the cache holds.
    pub closed spec fn held(&self) -> Option<SettingsModel> {
        settings_model(self.cached)
    }

    /// An empty cache.
    pub fn new() -> (cache: Self)
        ensures
            cache.held() is None,
    {
        SettingsCache { cached: None }
    }

    /// A copy of the cached settings, if any are cached.
    pub fn get(&self) -> (settings: Option<Settings>)
        ensures
            settings_model(settings) == self.held(),
    {
        match &self.cached {
            Some(s) => Some(s.clone()),
            None => None,
        }
    }

    /// Puts `settings` in the cache, in place of what was there.
    pub fn put(&mut self, settings: Settings)
        ensures
            final(self).held() == Some(settings@),
    {
        self.cached = Some(settings);
    }
}

} // verus!
