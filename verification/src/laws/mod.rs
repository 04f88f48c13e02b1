//! What holds of every call, whatever the way a result is computed.
pub mod applications;
pub mod capabilities;
pub mod captures;
pub mod clicks;
pub mod dispatches;
pub mod effects;
pub mod faces;
pub mod gates;
pub mod launches;
pub mod limits;
pub mod lines;
pub mod lookups;
pub mod observations;
pub mod pointers;
pub mod postures;
pub mod processes;
pub mod publications;
pub mod readings;
pub mod records;
pub mod recoveries;
pub mod refusals;
pub mod registers;
pub mod scopes;
pub mod scrolls;
pub mod settling;
pub mod trees;
pub mod typing;
pub mod words;
