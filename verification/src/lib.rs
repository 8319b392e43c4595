//! Settlement and payout accounting for a round-based, pari-mutuel wagering
//! platform on the direction of a reference price.
//!
//! Participants deposit a stable-value token, stake it on whether the price
//! will be higher ("long") or lower ("short") when the round closes, and the
//! losing pool is divided among winners, affiliates, the platform treasury and
//! a jackpot that pays bonuses for winning streaks.
//!
//! Every operation works on plain account values handed in by the caller and
//! either applies all of its changes or none. Token transfers, record storage
//! and signature checks belong to the host: an operation returns the event
//! that describes what the host has to move or announce.
//!
//! Three rules shape the accounting:
//!
//! - A round keeps a copy of the allocation it was closed under, and every
//!   claim on it is computed from that copy.
//! - A tied round has no winner. Everything staked in it is divided between
//!   the jackpot pool and the platform, and no bet of it can be claimed.
//! - Every share is rounded down, so that what a round pays out never
//!   exceeds its losing pool; `settlement` proves it.
pub mod constants;
pub mod error;
pub mod events;
pub mod instructions;
pub mod pubkey;
pub mod settlement;
pub mod state;
pub mod utils;

pub use error::ErrorCodes;
pub use events::{
    AffiliateSet, AffiliateWinningsClaimed, AllocationSet, BetPlaced, CollectedPlatformFees,
    Deposited, DurationSet, Initialized, JackPotAllocationSet, MinBetAmountSet,
    OwnershipTransferred, PriceAccountSet, RoundEnded, RoundStarted, StalenessThresholdSet,
    WinningsClaimed, Withdrawn,
};
pub use instructions::admin::set_platform_config::SetPlatformConfig;
pub use instructions::admin::transfer_ownership::TransferOwnership;
pub use instructions::admin::withdraw_platform_fees::WithdrawPlatformFees;
pub use instructions::claim_affiliate_winnings::ClaimAffiliateWinnings;
pub use instructions::claim_user_winnings::ClaimUserWinnings;
pub use instructions::deposit_and_withdraw::{DepositAndWithdraw, DepositAndWithdrawBumps};
pub use instructions::initialize::{Initialize, InitializeBumps};
pub use instructions::place_bet::{PlaceBet, PlaceBetBumps};
pub use instructions::run_round::{RunRound, RunRoundBumps};
pub use instructions::set_affiliate::{SetAffiliate, SetAffiliateBumps};
pub use pubkey::Pubkey;
pub use state::bet::{Bet, ClaimStatus};
pub use state::platform_config::{Allocation, GlobalRoundInfo, JackPotAllocation, PlatformConfig};
pub use state::round::Round;
pub use state::user_info::UserInfo;
pub use utils::general::{get_price, OraclePrice};
pub use utils::math::{is_greater_than, mul_div_down};
