//! One template per kind of endpoint.

pub mod common;
pub mod create;
pub mod delete;
pub mod list;
pub mod marker;
pub mod read;
pub mod update;
