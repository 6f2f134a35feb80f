//! Events of the messaging system: the envelope every event travels in,
//! the payload of each kind of event, and the schema version of each family.
pub mod envelope;
pub mod ids;
pub mod payload;
pub mod schema_versions;
pub mod time;
pub mod values;
