//! Verified core of a small CRUD service over a single `items` table.

pub mod config;
pub mod handlers;
pub mod laws;
pub mod models;
pub mod routes;
pub mod services;
pub mod statement;
pub mod table;
