pub mod interface_config;
pub mod interface_settings;
