//! The global keyboard shortcuts.

use vstd::prelude::*;

verus! {

/// The accelerator that shows and hides the window, unless configured otherwise.
pub const DEFAULT_TOGGLE_WINDOW: &'static str = "CommandOrControl+Shift+I";

/// The shortcuts of the application.
#[derive(Debug, Clone, Copy)]
pub struct ShortcutConfig {
    /// Shows the window, or hides it.
    pub toggle_window: &'static str,
}

impl Default for ShortcutConfig {
    fn default() -> (config: ShortcutConfig)
        ensures
            config.toggle_window@ == DEFAULT_TOGGLE_WINDOW@,
    {
        ShortcutConfig { toggle_window: DEFAULT_TOGGLE_WINDOW }
    }
}

} // verus!
