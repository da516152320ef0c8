//! The tray menu's labels and stable item ids.

use vstd::prelude::*;

verus! {

/// Id used to look the tray icon back up when relabeling it.
pub const TRAY_ID: &'static str = "main-tray";

/// Id of the menu item that shows the window.
pub const SHOW_ITEM_ID: &'static str = "show";

/// Id of the menu item that starts or stops clicking.
pub const TOGGLE_ITEM_ID: &'static str = "toggle";

/// Id of the menu item that quits.
pub const QUIT_ITEM_ID: &'static str = "quit";

/// Localized tray-menu labels, sent from the frontend.
#[derive(Debug, Clone)]
pub struct TrayLabels {
    pub show: String,
    pub toggle: String,
    pub quit: String,
    pub tooltip: String,
}

impl Default for TrayLabels {
    /// The English source strings, shown until the frontend reports the
    /// user's locale.
    fn default() -> (r: Self)
        ensures
            r.show@ == "Show Window"@,
            r.toggle@ == "Start / Stop"@,
            r.quit@ == "Quit"@,
            r.tooltip@ == "Stacco"@,
    {
        TrayLabels {
            show: String::from_str("Show Window"),
            toggle: String::from_str("Start / Stop"),
            quit: String::from_str("Quit"),
            tooltip: String::from_str("Stacco"),
        }
    }
}

} // verus!
