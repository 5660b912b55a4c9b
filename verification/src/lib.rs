//! Classification and routing of chat-bot webhook deliveries.
//!
//! One delivery is decoded into an [`event::InboundEvent`] and classified
//! into exactly one [`classify::Outcome`]: transcribe a voice attachment,
//! shorten a URL, or ignore the delivery. The [`router`] then says which
//! HTTP call to make next and what each reply leads to, until the invocation
//! is complete and [`response`] puts its answer together. The library itself
//! performs no call: the host does, and hands the replies back.

pub mod classify;
pub mod config;
pub mod event;
pub mod fields;
pub mod json;
pub mod response;
pub mod router;
mod text;
pub mod url;
