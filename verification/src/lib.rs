//! Decision logic of the Ulendo backend: escrow, rides, listings, names, calls
//! and the services behind them, verified with Verus.

pub mod auth;
pub mod clock;
pub mod config;
pub mod crypto;
pub mod db;
pub mod error;
pub mod ids;
pub mod json;
pub mod laws;
pub mod money;
pub mod routes;
pub mod services;
pub mod tags;
pub mod text;

pub use error::AppError;
pub use error::AppResult;
