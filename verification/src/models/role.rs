//! Roles: the named sets of rights that a user can hold.

use vstd::prelude::*;

verus! {

/// A row of the table `roles`.
#[derive(Debug)]
pub struct Role {
    pub id: i32,
    /// The role's name, such as `SYSTEM_ADMIN` or `PROJECT_MANAGER`.
    pub name: String,
}

} // verus!
