//! A persistent account store for a desktop number-guessing game.
//!
//! The store keeps three tables in one SQLite database file: user accounts
//! (unique username, salted bcrypt password hash), per-user gameplay settings
//! (range bounds and guess budget), and per-user win/loss counters. Every
//! operation is specified against ghost maps that abstract the three tables,
//! and the SQL statements and the password hasher are reached only through
//! narrowly specified trusted wrappers.

pub mod backend;
pub mod errors;
pub mod hashing;
pub mod laws;
pub mod model;
pub mod store;
