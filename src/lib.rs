//! Normalization of table and backup metadata of a managed table-storage
//! service, and the decisions of its backup and restore workflow.
pub mod text;
pub mod search;
pub mod model;
pub mod time;
pub mod describe;
pub mod table;
pub mod keys;
pub mod backup;
pub mod listing;
