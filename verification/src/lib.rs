//! A webhook-to-webhook notification relay library.
//!
//! Inbound issue-tracker change events are authenticated with a keyed hash
//! over the raw request body, filtered down to issue creations and updates,
//! transformed into a chat-platform card message, and serialized to the JSON
//! wire format expected by the downstream endpoint. The HTTP plumbing around
//! these steps lives outside this library; everything here is pure logic
//! with a proved contract.

pub mod card;
pub mod event;
pub mod handler;
pub mod json;
pub mod sig;
pub mod text;
