//! Decision and text logic of an online examination server: query-string
//! parsing, credential checks, session records, request authorization,
//! SQL statement assembly and answer grading.

pub mod text;
pub mod model;
pub mod query;
pub mod permission;
pub mod session;
pub mod auth;
pub mod login;
pub mod sql;
pub mod grading;
pub mod views;
