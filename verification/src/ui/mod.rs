pub mod ui_debug_skill_list_system;
pub mod ui_character_info_system;
pub mod ui_settings_system;
