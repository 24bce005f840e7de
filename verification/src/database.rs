pub mod query_builder;
pub mod database_helper;
