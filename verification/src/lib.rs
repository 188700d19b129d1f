//! A small authentication library: salted password hashing, signed
//! time-bounded identity tokens, a gate that checks bearer tokens on
//! protected requests, and the registration / login flows over a user
//! store with unique usernames and emails.
pub mod decimal;
pub mod errors;
pub mod config;
pub mod models;
pub mod password;
pub mod jwt;
pub mod gate;
pub mod store;
pub mod handlers;
