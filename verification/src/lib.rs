//! Fluent construction of chat-message text out of literal fragments and
//! mention tokens for users, roles, channels and emoji.
//!
//! Every function states, over the sequence of characters that a value
//! denotes, exactly which text it produces.
pub mod decimal;
pub mod model;
pub mod builder;
pub mod laws;
