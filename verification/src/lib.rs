//! Schema-driven layout containers.
//!
//! Given the description of a record type (an ordered list of named, typed
//! fields) and a storage strategy, this library provides the pieces of a
//! layout compiler: validation of the schema, resolution of the strategy
//! token, synthesis of the full set of derived identifiers, and the two
//! container shapes themselves — column-major (one vector per field) and
//! row-major (one vector of whole records) — behind an identical,
//! layout-independent access surface (insert, per-field lookup, whole-record
//! iteration, structural diff).
//!
//! The pieces, leaves first:
//! - [`schema`] models the record type and checks the generation-time
//!   requirements; [`strategy`] resolves a configuration token to one of the
//!   two strategies; [`names`] derives every generated identifier from the
//!   schema and proves the derivation collision-free; [`generate`] ties the
//!   three into one generation request.
//! - [`ids`], [`record`], [`render`], [`field`] and [`report`] are the
//!   layout-independent scaffolding: the identity handle, the record and
//!   borrowed-view shapes, the error taxonomy, and the diff report as an
//!   exact function of the stored data.
//! - [`columnar`] and [`rowmajor`] are the two interchangeable strategy
//!   implementations for two-field schemas, [`columnar3`] and [`rowmajor3`]
//!   for three-field ones; each pair shares one contract over the abstract
//!   record sequence, and [`laws`] states and proves the equivalence and
//!   the diff laws on top of it.

pub mod columnar;
pub mod columnar3;
pub mod field;
pub mod generate;
pub mod ids;
pub mod laws;
pub mod names;
pub mod project;
pub mod record;
pub mod render;
pub mod report;
pub mod rowmajor;
pub mod rowmajor3;
pub mod schema;
pub mod strategy;
