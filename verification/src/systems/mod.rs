pub mod client_entity_event_system;
pub mod passive_recovery_system;
