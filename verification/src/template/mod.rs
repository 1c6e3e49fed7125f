//! The rules of the template bot: its modules' commands and answers.
pub mod config;
pub mod group_admin;
pub mod local;
pub mod query;
pub mod reply;
pub mod sign_in;
