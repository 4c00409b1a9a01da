//! Model providers known to the application.

pub mod catalog;
