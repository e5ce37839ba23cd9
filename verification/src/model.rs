//! Row records for the three tables served by the API.
//!
//! Each struct mirrors one table's columns one-to-one. Timestamps are held
//! as ISO-8601 strings, which is the form in which they are served.
use vstd::prelude::*;

verus! {

/// One row of the `users` table.
pub struct User {
    pub id: i32,
    pub name: String,
    pub email: String,
    pub created_at: String,
    pub updated_at: String,
}

/// One row of the `projects` table. `description` is nullable.
pub struct Project {
    pub id: i32,
    pub name: String,
    pub description: Option<String>,
    pub user_id: i32,
    pub created_at: String,
    pub updated_at: String,
}

/// One row of the `tasks` table. `description` and `assigned_user_id` are
/// nullable; `status` is free-form text.
pub struct Task {
    pub id: i32,
    pub title: String,
    pub description: Option<String>,
    pub status: String,
    pub project_id: i32,
    pub assigned_user_id: Option<i32>,
    pub created_at: String,
    pub updated_at: String,
}

} // verus!
