//! The operations of the platform, each with the accounts it works on.
pub mod admin;
pub mod claim_affiliate_winnings;
pub mod claim_user_winnings;
pub mod deposit_and_withdraw;
pub mod initialize;
pub mod place_bet;
pub mod run_round;
pub mod set_affiliate;
