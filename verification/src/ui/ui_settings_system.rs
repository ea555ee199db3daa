//! The settings window: its pages, and when sound gains follow the settings.

use vstd::prelude::*;

verus! {

/// The pages of the settings window.
#[derive(PartialEq, Eq, Structural, Clone, Copy, Debug)]
pub enum SettingsPage {
    Sound,
    Interface,
}

/// The state of the settings window.
pub struct UiStateSettings {
    pub page: SettingsPage,
}

impl Default for UiStateSettings {
    fn default() -> (res: Self)
        ensures
            res.page == SettingsPage::Sound,
    {
        Self { page: SettingsPage::Sound }
    }
}

/// Whether the gains of playing sounds are brought in line with the sound
/// settings: when a volume changed, or when the settings are being saved.
pub fn sound_gains_need_update(gain_changed: bool, save_settings: bool) -> (res: bool)
    ensures
        res == (gain_changed || save_settings),
{
    gain_changed || save_settings
}

} // verus!
