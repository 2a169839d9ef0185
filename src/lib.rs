//! An in-memory task list: records, the store that owns them, their JSON
//! form, and the request handlers that map store operations to responses.

pub mod timestamp;
pub mod json;
pub mod time_ser;
pub mod time_ser_option;
pub mod todo;
pub mod store;
pub mod endpoints;
pub mod laws;
