//! Accessibility (AX) facts and the decisions made on them.
pub mod bindings;
pub mod enablement;
pub mod minimized_recovery;
pub mod refetch;
pub mod tree_observation;
pub mod tree_provider;
