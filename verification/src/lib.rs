//! Request handling logic of the musicView web service: accounts, sessions,
//! comments, replies, likes and liked artists, written as verified decision
//! functions that a thin server layer drives against the database.

pub mod ids;
pub mod query;
pub mod text;
pub mod password;
pub mod records;
pub mod protocol;
pub mod counters;
pub mod sessions;
pub mod auth;
pub mod likes;
pub mod artists;
pub mod comments;
pub mod replies;
pub mod users;
pub mod accounts;
pub mod access;
