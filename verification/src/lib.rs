//! A small chat-bot library.
//!
//! The bot answers two literal text commands: one asks for a random quote,
//! the other for an inspirational image. This crate holds everything the
//! bot decides and computes: which command a message selects, which
//! endpoint each command queries, how a quote-service response body is
//! turned into the line that is sent back, and which fixed fallback text
//! replaces a reply when a fetch fails. The surrounding program does the
//! gateway and HTTP traffic and hands this library plain strings.

pub mod commands;
pub mod handler;
pub mod quote;
