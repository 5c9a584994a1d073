//! Domain rows as the storage layer hands them to the library. Identifiers
//! are UUIDs given by their 128-bit value; timestamps are microseconds since
//! the Unix epoch (UTC).

pub mod component;
pub mod component_template;
pub mod enums;
pub mod feature;
pub mod outcome;
pub mod product;
pub mod saved_outcome;
pub mod site;
pub mod test_preset;
pub mod version;
