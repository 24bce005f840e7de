pub mod bmc;
pub mod components;
pub mod query;
pub mod server;
