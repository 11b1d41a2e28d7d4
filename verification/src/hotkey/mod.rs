//! Global shortcuts: the portal session manager and what belongs to it, and
//! the record of the shortcut that is registered natively.

use vstd::prelude::*;

pub mod error;
pub mod laws;
pub mod listener;
pub mod listener_laws;
pub mod request;
pub mod session_kind;
pub mod wayland;

verus! {

/// Keeps the shortcut that is currently registered with the system.
#[derive(Debug)]
pub struct HotkeyManager {
    current_hotkey: Option<String>,
}

/// The text that `get_current` gives for a stored shortcut.
pub open spec fn shown(hotkey: Option<Seq<char>>) -> Seq<char> {
    match hotkey {
        Some(shortcut) => shortcut,
        None => Seq::empty(),
    }
}

impl HotkeyManager {
    /// The shortcut that is registered, if any.
    pub closed spec fn current(&self) -> Option<Seq<char>> {
        match self.current_hotkey {
            Some(shortcut) => Some(shortcut@),
            None => None,
        }
    }

    /// A manager with no shortcut registered.
    pub fn new() -> (manager: Self)
        ensures
            manager.current() is None,
    {
        HotkeyManager { current_hotkey: None }
    }

    /// Registers `shortcut` in place of whatever was registered before. The
    /// callback is accepted and not called.
    pub fn register<F>(&mut self, shortcut: String, _callback: F) -> (result: Result<(), String>) where
        F: Fn() + Send + 'static,

        ensures
            result is Ok,
            final(self).current() == Some(shortcut@),
    {
        let _ = self.unregister();
        self.current_hotkey = Some(shortcut);
        Ok(())
    }

    /// Forgets the registered shortcut. Does nothing where there is none.
    pub fn unregister(&mut self) -> (result: Result<(), String>)
        ensures
            result is Ok,
            final(self).current() is None,
    {
        self.current_hotkey = None;
        Ok(())
    }

    /// The registered shortcut, or the empty text where there is none.
    pub fn get_current(&self) -> (shortcut: String)
        ensures
            shortcut@ == shown(self.current()),
    {
        match &self.current_hotkey {
            Some(shortcut) => shortcut.clone(),
            None => String::new(),
        }
    }
}

impl Default for HotkeyManager {
    fn default() -> (manager: Self)
        ensures
            manager.current() is None,
    {
        HotkeyManager::new()
    }
}

} // verus!
