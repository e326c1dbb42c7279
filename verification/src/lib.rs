//! Admission and accounting rules of an authenticating gateway in front of a
//! language-model API: who may call, how often, and how many tokens a day.

pub mod auth;
pub mod chat;
pub mod conf;
pub mod data;
pub mod gate;
pub mod jwt;
pub mod server;
pub mod text;
pub mod time;
pub mod types;
