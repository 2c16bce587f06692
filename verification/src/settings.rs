//! Settings of the interface that outlive a session.

use vstd::prelude::*;

verus! {

/// What the interface shows.
#[derive(Debug, Clone, Copy, PartialEq, Eq, Structural)]
pub struct ViewSettings {
    pub show_publish_message_panel: bool,
}

impl Default for ViewSettings {
    /// The panel for publishing messages is shown.
    fn default() -> (settings: Self)
        ensures
            settings == (ViewSettings { show_publish_message_panel: true }),
    {
        Self { show_publish_message_panel: true }
    }
}

/// All settings of the interface.
#[derive(Debug, Clone, Copy, PartialEq, Eq, Structural)]
pub struct Settings {
    pub view: ViewSettings,
}

impl Default for Settings {
    fn default() -> (settings: Self)
        ensures
            settings == (Settings { view: ViewSettings { show_publish_message_panel: true } }),
    {
        Self { view: ViewSettings::default() }
    }
}

} // verus!
