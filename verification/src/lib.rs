//! A catalog of persons, genres and musical partitions: the records, the
//! store that keeps them, and the pages and redirects that answer requests.

pub mod text;
pub mod record;
pub mod models;
pub mod error;
pub mod table;
pub mod db;
pub mod laws;
pub mod answers;
pub mod handlers;
pub mod handle_json;
