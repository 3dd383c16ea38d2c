//! Parallel batch reingestion of bibliographic records: the discovery
//! query, the partition of record identifiers into batches, the decisions
//! of a reingest worker, and the parameters of a database connection.

pub mod batch;
pub mod cli;
pub mod db;
pub mod export;
pub mod options;
pub mod query;
pub mod run;
pub mod text;
pub mod worker;
