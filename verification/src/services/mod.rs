//! The services behind the routes.

pub mod blink;
pub mod nostr;
pub mod push;
