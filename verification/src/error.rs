//! The reasons for which an operation is rejected.
use vstd::prelude::*;

verus! {

/// Why an operation was rejected. A rejected operation changes nothing.
#[derive(Clone, Copy, Debug, PartialEq, Eq, Structural)]
pub enum ErrorCodes {
    DurationZero,
    InvalidAllocation,
    ExceedsMaxFee,
    InvalidJackPotAllocation,
    PriceAccountDefaultPubkey,
    DepositAmountZero,
    WithdrawAmountZero,
    InvalidAffiliate,
    PriceCannotBeZero,
    RoundHasNotEndedYet,
    RoundAlreadyStarted,
    RoundAlreadyEnded,
    BetAmountBelowMinBetAmount,
    AlreadyClaimedWinnings,
    IneligibleForClaim,
    AlreadyCollectedPlatformFees,
    ClaimAmountZero,
    PlatformFeeAmountZero,
    MinBetAmountZero,
    StalePrice,
    ArithmeticOverflow,
    ArithmeticUnderflow,
}

impl ErrorCodes {
    /// The text that goes with each reason.
    pub open spec fn message_text(self) -> Seq<char> {
        match self {
            ErrorCodes::DurationZero => "Round duration cannot be 0."@,
            ErrorCodes::InvalidAllocation => "Invalid allocation. Does not add up to 100%."@,
            ErrorCodes::ExceedsMaxFee => "Exceeds max fee in bips."@,
            ErrorCodes::InvalidJackPotAllocation => "Invalid jackpot allocation."@,
            ErrorCodes::PriceAccountDefaultPubkey => "Price account cannot be default pubkey."@,
            ErrorCodes::DepositAmountZero => "Deposit amount cannot be 0."@,
            ErrorCodes::WithdrawAmountZero => "Withdraw amount cannot be 0."@,
            ErrorCodes::InvalidAffiliate => "Invalid affiliate address."@,
            ErrorCodes::PriceCannotBeZero => "Price cannot be 0."@,
            ErrorCodes::RoundHasNotEndedYet => "Round has not ended yet."@,
            ErrorCodes::RoundAlreadyStarted => "Round already started."@,
            ErrorCodes::RoundAlreadyEnded => "Round already ended."@,
            ErrorCodes::BetAmountBelowMinBetAmount => "Bet amount cannot be less than the minimum bet amount."@,
            ErrorCodes::AlreadyClaimedWinnings => "Already claimed winnings."@,
            ErrorCodes::IneligibleForClaim => "Ineligible for claim."@,
            ErrorCodes::AlreadyCollectedPlatformFees => "Already collected platform fees."@,
            ErrorCodes::ClaimAmountZero => "Claim amount cannot be 0."@,
            ErrorCodes::PlatformFeeAmountZero => "Platform fee amount to collect is 0."@,
            ErrorCodes::MinBetAmountZero => "Minimum bet amount cannot be 0."@,
            ErrorCodes::StalePrice => "Price is older than the staleness threshold."@,
            ErrorCodes::ArithmeticOverflow => "Arithmetic overflow."@,
            ErrorCodes::ArithmeticUnderflow => "Arithmetic underflow."@,
        }
    }

    /// The text that goes with this reason.
    pub fn message(&self) -> (text: &'static str)
        ensures
            text@ == self.message_text(),
    {
        match self {
            ErrorCodes::DurationZero => "Round duration cannot be 0.",
            ErrorCodes::InvalidAllocation => "Invalid allocation. Does not add up to 100%.",
            ErrorCodes::ExceedsMaxFee => "Exceeds max fee in bips.",
            ErrorCodes::InvalidJackPotAllocation => "Invalid jackpot allocation.",
            ErrorCodes::PriceAccountDefaultPubkey => "Price account cannot be default pubkey.",
            ErrorCodes::DepositAmountZero => "Deposit amount cannot be 0.",
            ErrorCodes::WithdrawAmountZero => "Withdraw amount cannot be 0.",
            ErrorCodes::InvalidAffiliate => "Invalid affiliate address.",
            ErrorCodes::PriceCannotBeZero => "Price cannot be 0.",
            ErrorCodes::RoundHasNotEndedYet => "Round has not ended yet.",
            ErrorCodes::RoundAlreadyStarted => "Round already started.",
            ErrorCodes::RoundAlreadyEnded => "Round already ended.",
            ErrorCodes::BetAmountBelowMinBetAmount => "Bet amount cannot be less than the minimum bet amount.",
            ErrorCodes::AlreadyClaimedWinnings => "Already claimed winnings.",
            ErrorCodes::IneligibleForClaim => "Ineligible for claim.",
            ErrorCodes::AlreadyCollectedPlatformFees => "Already collected platform fees.",
            ErrorCodes::ClaimAmountZero => "Claim amount cannot be 0.",
            ErrorCodes::PlatformFeeAmountZero => "Platform fee amount to collect is 0.",
            ErrorCodes::MinBetAmountZero => "Minimum bet amount cannot be 0.",
            ErrorCodes::StalePrice => "Price is older than the staleness threshold.",
            ErrorCodes::ArithmeticOverflow => "Arithmetic overflow.",
            ErrorCodes::ArithmeticUnderflow => "Arithmetic underflow.",
        }
    }
}

} // verus!
