pub mod documentation;
pub mod query_parser;
pub mod responses;
