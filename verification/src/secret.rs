//! The schemas of the server's secret engines.

pub mod database;
pub mod kv;
