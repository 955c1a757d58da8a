//! Classification of PostgreSQL trigger events into the statement kind that
//! fired them.
pub mod pg_sys;
pub mod trigger_support;
