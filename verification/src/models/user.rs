//! Users: the accounts that work with the application.

use vstd::prelude::*;
use crate::models::UtcTimestamp;

verus! {

/// The values of a user that is to be created. The password arrives hashed.
#[derive(Debug)]
pub struct UserCreateDTO {
    pub username: String,
    pub email: String,
    pub hashed_password: String,
    pub role_id: i32,
    pub is_active: bool,
}

/// The values of a user that are to be changed; what is absent stays as it
/// is. The password is changed elsewhere.
#[derive(Debug)]
pub struct UserUpdateDTO {
    pub username: Option<String>,
    pub email: Option<String>,
    pub role_id: Option<i32>,
    pub is_active: Option<bool>,
}

/// A row of the table `users`.
#[derive(Debug)]
pub struct UserRead {
    pub id: i32,
    pub username: String,
    pub email: String,
    pub hashed_password: String,
    pub role_id: i32,
    pub is_active: Option<bool>,
    pub created_at: UtcTimestamp,
    pub updated_at: UtcTimestamp,
    pub created_by: i32,
    pub updated_by: i32,
}

} // verus!
