//! Rows of the database, and what the library's writes do to them.

pub mod changes;
pub mod models;

pub use changes::BookingChange;
pub use changes::RideChange;
pub use models::Booking;
pub use models::DirectRelease;
pub use models::Identity;
pub use models::Listing;
pub use models::NostrCacheEntry;
pub use models::PushSubscription;
pub use models::RideRequest;
