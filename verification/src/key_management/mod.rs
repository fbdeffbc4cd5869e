//! The key management engine and what it is made of.
pub mod commands;
pub mod filters;
pub mod json;
pub mod laws;
pub mod models;
pub mod plugin;
pub mod security;
pub mod state;

pub use models::{AuditLogEntry, KeyAlgorithm, KeyMetadata, KeyStatus, KeyType};
pub use plugin::KeyManagementPlugin;
pub use security::{MockHSM, SecurityModuleInterface};
