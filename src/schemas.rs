//! The entity records exchanged with host servers.
pub mod inventory_entity_schema;
pub mod profile_entity_schema;
pub mod schemas;
pub mod server_config_schema;
pub mod user_aggregates_schema;
