//! Versions: the editions of the price catalogue.

use vstd::prelude::*;
use crate::models::UtcTimestamp;

verus! {

/// A row of the table `versions`.
#[derive(Debug)]
pub struct Version {
    pub id: i32,
    /// The edition's name, such as `2025.Q1`.
    pub name: String,
    pub created_at: UtcTimestamp,
    pub updated_at: UtcTimestamp,
    pub created_by: i32,
    pub updated_by: i32,
}

} // verus!
