//! A small read-only JSON API core: typed row records for three tables,
//! a verified JSON renderer for them, ascending-by-id ordering, exact-match
//! route dispatch, and the response builders for each endpoint.
pub mod handlers;
pub mod json;
pub mod model;
pub mod order;
pub mod routes;
