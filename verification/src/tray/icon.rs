//! Icons, tooltips and menu entries of the tray.

use crate::config::RecordingState;
use vstd::prelude::*;
use vstd::string::StringExecFns;

verus! {

/// Identifier of the tray icon.
pub const TRAY_ID: &'static str = "main-tray";

/// Directory of the icon files.
pub const ICONS_DIR: &'static str = "icons";

/// The file name of the icon of a state.
pub open spec fn spec_icon_name(state: RecordingState) -> Seq<char> {
    match state {
        RecordingState::Idle => "icon-idle.png"@,
        RecordingState::Recording => "icon-recording.png"@,
        RecordingState::Processing => "icon-processing.png"@,
    }
}

/// The tooltip of a state.
pub open spec fn spec_tooltip(state: RecordingState) -> Seq<char> {
    match state {
        RecordingState::Idle => "Capture - Ready"@,
        RecordingState::Recording => "Capture - Recording..."@,
        RecordingState::Processing => "Capture - Processing..."@,
    }
}

/// The path of the icon of a state, relative to the application.
pub fn get_icon_path(state: RecordingState) -> (path: String)
    ensures
        path@ == ICONS_DIR@ + "/"@ + spec_icon_name(state),
{
    let icon_name: &str = match state {
        RecordingState::Idle => "icon-idle.png",
        RecordingState::Recording => "icon-recording.png",
        RecordingState::Processing => "icon-processing.png",
    };
    String::from_str(ICONS_DIR).concat("/").concat(icon_name)
}

/// The tooltip of a state.
pub fn tooltip(state: RecordingState) -> (text: &'static str)
    ensures
        text@ == spec_tooltip(state),
{
    match state {
        RecordingState::Idle => "Capture - Ready",
        RecordingState::Recording => "Capture - Recording...",
        RecordingState::Processing => "Capture - Processing...",
    }
}

/// What the tray is to show.
#[derive(Debug, Clone)]
pub struct TrayUpdate {
    /// Path of the icon.
    pub icon_path: String,
    /// Text of the tooltip.
    pub tooltip: &'static str,
}

/// What a menu entry asks for.
#[derive(Debug, Clone, Copy, PartialEq, Eq, Structural)]
pub enum MenuAction {
    /// Toggle the recording.
    Toggle,
    /// Show the settings window.
    ShowSettings,
    /// Leave the application.
    Quit,
    /// The entry is not one of the menu's.
    Unknown,
}

/// What the menu entry with the identifier `item_id` asks for.
pub fn menu_action(item_id: &str) -> (action: MenuAction)
    ensures
        action == if item_id@ == "toggle"@ {
            MenuAction::Toggle
        } else if item_id@ == "settings"@ {
            MenuAction::ShowSettings
        } else if item_id@ == "quit"@ {
            MenuAction::Quit
        } else {
            MenuAction::Unknown
        },
{
    let id: String = String::from_str(item_id);
    if id == String::from_str("toggle") {
        MenuAction::Toggle
    } else if id == String::from_str("settings") {
        MenuAction::ShowSettings
    } else if id == String::from_str("quit") {
        MenuAction::Quit
    } else {
        MenuAction::Unknown
    }
}

/// Keeper of the tray icon's identity.
#[derive(Debug, Clone)]
pub struct TrayManager {
    tray_id: String,
}

impl TrayManager {
    /// The identifier as contracts see it.
    pub closed spec fn spec_id(&self) -> Seq<char> {
        self.tray_id@
    }

    /// The manager of the application's one tray icon.
    pub fn new() -> (r: Self)
        ensures
            r.spec_id() == TRAY_ID@,
    {
        TrayManager { tray_id: String::from_str(TRAY_ID) }
    }

    /// The identifier of the tray icon.
    pub fn id(&self) -> (r: &str)
        ensures
            r@ == self.spec_id(),
    {
        self.tray_id.as_str()
    }

    /// What the tray is to show in `state`.
    pub fn update_state(&self, state: RecordingState) -> (update: TrayUpdate)
        ensures
            update.icon_path@ == ICONS_DIR@ + "/"@ + spec_icon_name(state),
            update.tooltip@ == spec_tooltip(state),
    {
        TrayUpdate { icon_path: get_icon_path(state), tooltip: tooltip(state) }
    }
}

} // verus!
