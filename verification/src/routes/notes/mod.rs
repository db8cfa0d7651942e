pub mod create;
pub mod delete;
pub mod get;
pub mod list;
pub mod query;
pub mod update;
