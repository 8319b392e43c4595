//! What each operation announces when it succeeds.
//!
//! An operation hands its event back to the caller, who publishes it and
//! moves the tokens that it speaks of.
use crate::pubkey::Pubkey;
use crate::state::platform_config::{Allocation, GlobalRoundInfo, JackPotAllocation};
use vstd::prelude::*;

verus! {

#[derive(Clone, Copy, Debug, PartialEq, Eq)]
pub struct Initialized {
    pub owner: Pubkey,
    pub stablecoin: Pubkey,
    pub platform_vault: Pubkey,
    pub global_round_info: GlobalRoundInfo,
}

#[derive(Clone, Copy, Debug, PartialEq, Eq)]
pub struct OwnershipTransferred {
    pub owner: Pubkey,
    pub new_owner: Pubkey,
}

#[derive(Clone, Copy, Debug, PartialEq, Eq)]
pub struct DurationSet {
    pub duration: u64,
}

#[derive(Clone, Copy, Debug, PartialEq, Eq)]
pub struct AllocationSet {
    pub allocation: Allocation,
}

#[derive(Clone, Copy, Debug, PartialEq, Eq)]
pub struct JackPotAllocationSet {
    pub jackpot_allocation: JackPotAllocation,
}

#[derive(Clone, Copy, Debug, PartialEq, Eq)]
pub struct MinBetAmountSet {
    pub min_bet_amount: u64,
}

#[derive(Clone, Copy, Debug, PartialEq, Eq)]
pub struct PriceAccountSet {
    pub price_account: Pubkey,
}

#[derive(Clone, Copy, Debug, PartialEq, Eq)]
pub struct StalenessThresholdSet {
    pub staleness_threshold: u64,
}

/// `amount` is to be moved from the user's tokens into custody.
#[derive(Clone, Copy, Debug, PartialEq, Eq)]
pub struct Deposited {
    pub user: Pubkey,
    pub stablecoin: Pubkey,
    pub amount: u64,
}

/// `amount` is to be moved from custody to the user.
#[derive(Clone, Copy, Debug, PartialEq, Eq)]
pub struct Withdrawn {
    pub user: Pubkey,
    pub stablecoin: Pubkey,
    pub amount: u64,
}

#[derive(Clone, Copy, Debug, PartialEq, Eq)]
pub struct AffiliateSet {
    pub user: Pubkey,
    pub affiliate: Pubkey,
}

#[derive(Clone, Copy, Debug, PartialEq, Eq)]
pub struct RoundStarted {
    pub round: u64,
    pub starting_price: u64,
}

#[derive(Clone, Copy, Debug, PartialEq, Eq)]
pub struct RoundEnded {
    pub round: u64,
    pub ending_price: u64,
}

#[derive(Clone, Copy, Debug, PartialEq, Eq)]
pub struct BetPlaced {
    pub user: Pubkey,
    pub round: u64,
    pub amount: u64,
    pub is_long: bool,
    pub affiliate: Pubkey,
}

/// `amount` is what the bet has earned, the streak bonus included and the
/// returned stake not.
#[derive(Clone, Copy, Debug, PartialEq, Eq)]
pub struct WinningsClaimed {
    pub user: Pubkey,
    pub round_index: u64,
    pub is_long: bool,
    pub amount: u64,
}

/// `amount` is to be moved from custody to the affiliate.
#[derive(Clone, Copy, Debug, PartialEq, Eq)]
pub struct AffiliateWinningsClaimed {
    pub affiliate: Pubkey,
    pub round_index: u64,
    pub amount: u64,
}

/// `amount` is to be moved from custody to the owner.
#[derive(Clone, Copy, Debug, PartialEq, Eq)]
pub struct CollectedPlatformFees {
    pub owner: Pubkey,
    pub amount: u64,
}

} // verus!
