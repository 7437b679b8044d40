//! A question-and-answer store: records, query-string pagination, an
//! in-process store with create/read/update/delete operations, the request
//! handlers built on it, and the mapping of failures to HTTP statuses.

pub mod types;
pub mod error;
pub mod query;
pub mod pagination;
pub mod store;
pub mod routes;
