//! One participant's position in one round.
use crate::error::ErrorCodes;
use crate::pubkey::Pubkey;
use vstd::prelude::*;

verus! {

/// Whether a payout has been claimed. A claim moves the status from
/// `Unclaimed` to `Claimed`, and nothing moves it back.
#[derive(Clone, Copy, Debug, PartialEq, Eq, Structural)]
pub enum ClaimStatus {
    Unclaimed,
    Claimed,
}

impl ClaimStatus {
    pub fn is_claimed(&self) -> (claimed: bool)
        ensures
            claimed == (*self == ClaimStatus::Claimed),
    {
        match self {
            ClaimStatus::Claimed => true,
            ClaimStatus::Unclaimed => false,
        }
    }
}

/// A stake on one side of a round.
#[derive(Clone, Copy, Debug, PartialEq, Eq)]
pub struct Bet {
    pub amount: u64,
    /// The side: `true` for a higher price at the end of the round.
    pub is_long: bool,
    /// Who referred the bettor; the default identity for nobody.
    pub affiliate: Pubkey,
    pub has_claimed_winnings: ClaimStatus,
    pub has_affiliate_claimed_winnings: ClaimStatus,
    pub bump: u8,
}

impl Bet {
    /// Whether a referrer stands behind this bet.
    pub open spec fn has_affiliate(self) -> bool {
        !self.affiliate.is_default()
    }

    /// Rejects a stake below `min_bet_amount`.
    pub fn validate_amount(&self, min_bet_amount: u64) -> (checked: Result<(), ErrorCodes>)
        ensures
            checked is Ok <==> self.amount >= min_bet_amount,
            checked is Err ==> checked == Err::<(), ErrorCodes>(
                ErrorCodes::BetAmountBelowMinBetAmount,
            ),
    {
        if !(self.amount >= min_bet_amount) {
            return Err(ErrorCodes::BetAmountBelowMinBetAmount);
        }
        Ok(())
    }
}

impl Default for Bet {
    /// The record before any bet has been placed in it.
    fn default() -> (bet: Self)
        ensures
            bet.amount == 0,
            !bet.is_long,
            bet.affiliate.is_default(),
            bet.has_claimed_winnings == ClaimStatus::Unclaimed,
            bet.has_affiliate_claimed_winnings == ClaimStatus::Unclaimed,
            bet.bump == 0,
    {
        Bet {
            amount: 0,
            is_long: false,
            affiliate: Pubkey::default(),
            has_claimed_winnings: ClaimStatus::Unclaimed,
            has_affiliate_claimed_winnings: ClaimStatus::Unclaimed,
            bump: 0,
        }
    }
}

} // verus!
