//! Request and response data types of the API boundary, with their
//! validation rules.

pub mod active_version;
pub mod applicability;
pub mod component;
pub mod component_template;
pub mod feature;
pub mod health;
pub mod node_type;
pub mod outcome;
pub mod pagination;
pub mod product;
pub mod rule_graph;
pub mod saved_outcome;
pub mod site;
pub mod test_preset;
pub mod version;
