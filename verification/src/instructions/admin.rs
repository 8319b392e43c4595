//! The operations reserved to the platform's owner.
pub mod set_platform_config;
pub mod transfer_ownership;
pub mod withdraw_platform_fees;
