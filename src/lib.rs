//! Validated bulk import of a show dataset: a typed document is checked for
//! referential and cardinality consistency and turned into the complete set
//! of rows that replaces the stored dataset.
pub mod document;
pub mod dataset;
pub mod lookup;
pub mod plan;
pub mod effects;
pub mod timeline;
pub mod import;
pub mod response;
pub mod laws;
