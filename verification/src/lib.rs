//! The dbt information schema and the index beneath it: the declarative table
//! specifications, the SQL that exposes them, how source rows become
//! information-schema rows, and the ingest decisions that keep the index
//! current; and what the Jinja layer records and decides while rendering.

use vstd::prelude::*;

pub mod assemble;
pub mod catalog;
pub mod copy;
pub mod epoch;
pub mod epoch_coverage;
pub mod epoch_views;
pub mod error;
pub mod index;
pub mod info;
pub mod ingest;
pub mod ingest_state;
pub mod json_field;
pub mod json_value;
pub mod listener;
pub mod node_context;
pub mod order;
pub mod parse_check;
pub mod parse_nodes;
pub mod parse_safe;
pub mod project;
pub mod project_meta;
pub mod schema;
pub mod spec;
pub mod text;
pub mod timings;
pub mod trace;
pub mod views;

verus! {

} // verus!
