//! What the HTTP handlers compute: chat admission and settlement, response
//! names and admin checks.
pub mod admin;
pub mod chat;
pub mod meta;
