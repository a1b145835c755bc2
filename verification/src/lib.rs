//! Synchronisation core for a paginated currency catalogue: statement
//! building, record classification, chunk planning and the pagination
//! driver, with their contracts.

pub mod args;
pub mod batch;
pub mod cmc;
pub mod error;
pub mod pager;
pub mod row;
pub mod sql;
pub mod store;
pub mod text;
