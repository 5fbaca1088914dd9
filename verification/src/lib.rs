pub mod api;
pub mod crypto;
pub mod error;
