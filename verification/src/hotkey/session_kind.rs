//! Telling a Wayland session from the environment of the process.

use vstd::prelude::*;
use vstd::string::*;

use crate::hotkey::wayland::WaylandHotkeyManager;
use crate::text::{contains, occurs_in, text_model};

verus! {

/// The variables of the environment that tell the kind of session. A
/// variable that is not set, or holds no valid text, is `None`.
#[derive(Debug, Default, PartialEq, Eq)]
pub struct SessionEnvironment {
    /// `WAYLAND_DISPLAY`
    pub wayland_display: Option<String>,
    /// `XDG_SESSION_TYPE`
    pub session_type: Option<String>,
    /// `XDG_CURRENT_DESKTOP`
    pub current_desktop: Option<String>,
    /// `DISPLAY`
    pub display: Option<String>,
}

/// Model of a [`SessionEnvironment`].
pub struct EnvironmentModel {
    pub wayland_display: Option<Seq<char>>,
    pub session_type: Option<Seq<char>>,
    pub current_desktop: Option<Seq<char>>,
    pub display: Option<Seq<char>>,
}

impl View for SessionEnvironment {
    type V = EnvironmentModel;

    open spec fn view(&self) -> EnvironmentModel {
        EnvironmentModel {
            wayland_display: text_model(self.wayland_display),
            session_type: text_model(self.session_type),
            current_desktop: text_model(self.current_desktop),
            display: text_model(self.display),
        }
    }
}

/// The lower-case form of a text, as `str::to_lowercase` of the standard
/// library gives it.
pub uninterp spec fn lowercase_of(text: Seq<char>) -> Seq<char>;

/// Whether a desktop name, in lower case, is that of a desktop that runs on
/// Wayland.
pub open spec fn is_wayland_desktop(lowered: Seq<char>) -> bool {
    ||| occurs_in("gnome"@, lowered)
    ||| occurs_in("kde"@, lowered)
    ||| occurs_in("sway"@, lowered)
    ||| occurs_in("hyprland"@, lowered)
    ||| occurs_in("wlroots"@, lowered)
}

/// Whether the environment is that of a Wayland session: a Wayland display
/// is named, or the session type is `wayland`, or the desktop is one that
/// runs on Wayland and no X display is named.
pub open spec fn wayland_session(env: EnvironmentModel) -> bool {
    ||| env.wayland_display is Some
    ||| env.session_type == Some("wayland"@)
    ||| (env.current_desktop matches Some(desktop) && is_wayland_desktop(lowercase_of(desktop))
        && env.display is None)
}

/// Calls `str::to_lowercase` of the standard library. The contract gives the
/// result a name and claims nothing else of it: the lower-case form follows
/// the Unicode tables and depends on the text alone.
#[verifier::external_body]
fn to_lowercase(text: &str) -> (lowered: String)
    ensures
        lowered@ == lowercase_of(text@),
{
    text.to_lowercase()
}

/// Whether a desktop name, already in lower case, is that of a desktop that
/// runs on Wayland.
pub fn names_wayland_desktop(lowered: &str) -> (found: bool)
    ensures
        found == is_wayland_desktop(lowered@),
{
    contains(lowered, "gnome") || contains(lowered, "kde") || contains(lowered, "sway") || contains(
        lowered,
        "hyprland",
    ) || contains(lowered, "wlroots")
}

impl<H> WaylandHotkeyManager<H> {
    /// Whether global shortcuts have to go through the portal: whether the
    /// process runs in a Wayland session, natively or through XWayland.
    pub fn is_wayland(env: &SessionEnvironment) -> (wayland: bool)
        ensures
            wayland == wayland_session(env@),
    {
        let has_wayland_display = env.wayland_display.is_some();
        let is_wayland_session = match &env.session_type {
            Some(kind) => *kind == String::from_str("wayland"),
            None => false,
        };
        let is_wayland_desktop = match &env.current_desktop {
            Some(desktop) => {
                let lowered = to_lowercase(desktop.as_str());
                names_wayland_desktop(lowered.as_str())
            },
            None => false,
        };
        has_wayland_display || is_wayland_session || (is_wayland_desktop && env.display.is_none())
    }
}

} // verus!
