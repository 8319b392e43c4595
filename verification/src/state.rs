//! The records that the platform keeps.
pub mod bet;
pub mod platform_config;
pub mod round;
pub mod user_info;
