//! Configuration flags and the database error taxonomy of the service.
pub mod cfg;
pub mod db;
