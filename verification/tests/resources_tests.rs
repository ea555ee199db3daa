use rose_offline_client::resources::interface_config::{InterfaceConfig, TargetingType};
use rose_offline_client::resources::interface_settings::{
    InterfaceSettings, TargetingType as SettingsTargetingType,
};
use rose_offline_client::ui::ui_settings_system::{sound_gains_need_update, SettingsPage, UiStateSettings};

#[test]
fn interface_config_defaults_to_double_click() {
    let config = InterfaceConfig::default();
    assert!(config.targeting == TargetingType::DoubleClick);
    let copy = config.clone();
    assert!(copy.targeting == TargetingType::DoubleClick);
}

#[test]
fn interface_settings_hold_targeting() {
    let settings = InterfaceSettings { targeting: SettingsTargetingType::SingleClick };
    assert!(settings.targeting == SettingsTargetingType::SingleClick);
    assert!(settings.targeting != SettingsTargetingType::DoubleClick);
}

#[test]
fn settings_open_on_sound_page() {
    assert_eq!(UiStateSettings::default().page, SettingsPage::Sound);
}

#[test]
fn sound_gains_follow_changes_or_saves() {
    assert!(!sound_gains_need_update(false, false));
    assert!(sound_gains_need_update(true, false));
    assert!(sound_gains_need_update(false, true));
}
