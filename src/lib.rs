//! A multi-user blog core: credentials, sessions, ownership checks and a
//! relational store of users, posts and comments with cascading deletes.

pub mod blog_db;
pub mod error;
pub mod ids;
pub mod forms;
pub mod handlers;
pub mod laws;
pub mod models;
pub mod password;
pub mod seqs;
pub mod session;
pub mod store;
pub mod time;
