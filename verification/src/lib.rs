//! A paginated, filtered query engine for the cost-estimation entities:
//! pagination policy, filter dispatch, entity descriptors and the assembly of
//! parameterised PostgreSQL statements.

pub mod constants;
pub mod text;
pub mod fragment;
pub mod record;
pub mod paginable;
pub mod filterable;
pub mod descriptor;
pub mod query;
pub mod executor;
pub mod errors;
pub mod matching;
pub mod models;
