//! The requests that the backend answers, one module per group.

pub mod bookings;
pub mod calls;
pub mod chessa;
pub mod confirm;
pub mod driver_listings;
pub mod escrow;
pub mod fiat;
pub mod identities;
pub mod listings;
pub mod names;
pub mod push;
pub mod ratings;
pub mod relay;
pub mod rides;
pub mod stays_listings;
pub mod upload;
pub mod verify;
pub mod ws;
