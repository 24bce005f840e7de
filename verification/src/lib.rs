//! Inventory of record: the filter compiler that turns client queries into
//! parameterized SQL, and the reconciliation engine that brings stored
//! component rows into agreement with a submitted snapshot. Beside them
//! stand what the tools on a machine decide: the disk to install on, and
//! what is run for a command on virtual machines.
//!
//! The library decides and the caller acts: every function takes plain
//! values and gives plain values, among them the statements that the caller
//! sends to the database and the programs that it runs.

pub mod api;
pub mod database;
pub mod dates;
pub mod errors;
pub mod hypervisor;
pub mod json;
pub mod models;
pub mod repositories;
pub mod search;
pub mod storage;
pub mod text;
