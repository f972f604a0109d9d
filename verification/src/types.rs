//! The typed records that the operations speak of.

pub mod category;
pub mod channel;
pub mod items;
pub mod pages;
pub mod query_results;
