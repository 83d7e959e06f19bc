//! A notification rendering and delivery engine.
//!
//! Alert messages are rendered from templates by variable substitution,
//! formatted for a specific chat or mail channel, composed into a webhook
//! payload (optionally signed), and handed to a retrying transport. The
//! Telegram adapter additionally escapes the rendered text for MarkdownV2
//! while preserving the formatting entities the author wrote.

pub mod channel;
pub mod chars;
pub mod config;
pub mod discord;
pub mod email;
pub mod error;
pub mod markdown;
pub mod payload;
pub mod retry;
pub mod signing;
pub mod slack;
pub mod telegram;
pub mod template;
pub mod webhook;
