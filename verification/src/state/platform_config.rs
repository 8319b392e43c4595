//! The platform's configuration and running balances.
use crate::constants::general::BPS;
use crate::error::ErrorCodes;
use crate::pubkey::Pubkey;
use vstd::prelude::*;

verus! {

/// How a losing pool is divided, in basis points.
#[derive(Clone, Copy, Debug, PartialEq, Eq, Structural)]
pub struct Allocation {
    pub winners_share: u16,
    pub affiliate_share: u16,
    pub jackpot_share: u16,
    pub platform_share: u16,
}

impl Allocation {
    /// The four shares added up.
    pub open spec fn total(self) -> int {
        self.winners_share + self.affiliate_share + self.jackpot_share + self.platform_share
    }

    /// The shares divide a pool completely: they add up to one whole.
    pub open spec fn is_valid(self) -> bool {
        self.total() == 10000
    }
}

impl Default for Allocation {
    fn default() -> (allocation: Self)
        ensures
            allocation == (Allocation {
                winners_share: 0,
                affiliate_share: 0,
                jackpot_share: 0,
                platform_share: 0,
            }),
    {
        Allocation { winners_share: 0, affiliate_share: 0, jackpot_share: 0, platform_share: 0 }
    }
}

/// The part of the jackpot pool paid for a winning streak of each length
/// from five to ten, in basis points.
#[derive(Clone, Copy, Debug, PartialEq, Eq, Structural)]
pub struct JackPotAllocation {
    pub streak_5: u16,
    pub streak_6: u16,
    pub streak_7: u16,
    pub streak_8: u16,
    pub streak_9: u16,
    pub streak_10: u16,
}

impl JackPotAllocation {
    /// No streak is paid more than the whole pool.
    pub open spec fn within_max(self) -> bool {
        &&& self.streak_5 <= 10000
        &&& self.streak_6 <= 10000
        &&& self.streak_7 <= 10000
        &&& self.streak_8 <= 10000
        &&& self.streak_9 <= 10000
        &&& self.streak_10 <= 10000
    }

    /// A longer streak is paid strictly more than a shorter one.
    pub open spec fn strictly_increasing(self) -> bool {
        self.streak_5 < self.streak_6 < self.streak_7 < self.streak_8 < self.streak_9
            < self.streak_10
    }

    pub open spec fn is_valid(self) -> bool {
        self.within_max() && self.strictly_increasing()
    }

    /// The share paid for a streak of `times_won` wins: the configured share
    /// for five to ten wins, nothing for any other count.
    pub open spec fn share_for(self, times_won: int) -> u16 {
        if times_won == 5 {
            self.streak_5
        } else if times_won == 6 {
            self.streak_6
        } else if times_won == 7 {
            self.streak_7
        } else if times_won == 8 {
            self.streak_8
        } else if times_won == 9 {
            self.streak_9
        } else if times_won == 10 {
            self.streak_10
        } else {
            0
        }
    }

    /// The share paid for a streak of `times_won` wins.
    pub fn streak_share(&self, times_won: u64) -> (share: u16)
        ensures
            share == self.share_for(times_won as int),
    {
        match times_won {
            10 => self.streak_10,
            9 => self.streak_9,
            8 => self.streak_8,
            7 => self.streak_7,
            6 => self.streak_6,
            5 => self.streak_5,
            _ => 0,
        }
    }
}

impl Default for JackPotAllocation {
    fn default() -> (allocation: Self)
        ensures
            allocation == (JackPotAllocation {
                streak_5: 0,
                streak_6: 0,
                streak_7: 0,
                streak_8: 0,
                streak_9: 0,
                streak_10: 0,
            }),
    {
        JackPotAllocation {
            streak_5: 0,
            streak_6: 0,
            streak_7: 0,
            streak_8: 0,
            streak_9: 0,
            streak_10: 0,
        }
    }
}

/// The parameters of the rounds and the balances that settlement feeds.
#[derive(Clone, Copy, Debug, PartialEq, Eq)]
pub struct GlobalRoundInfo {
    /// The number of the round closed last; rounds count from one.
    pub round: u64,
    /// The least number of seconds between the start and the end of a round.
    pub duration: u64,
    pub allocation: Allocation,
    pub jackpot_allocation: JackPotAllocation,
    /// The least amount that a bet may stake.
    pub min_bet_amount: u64,
    /// The oracle account that the reference price is read from.
    pub price_account: Pubkey,
    /// The greatest age in seconds at which a published price still counts.
    pub staleness_threshold: u64,
    pub jackpot_pool_amount: u64,
    pub accumulated_platform_fees: u64,
}

impl GlobalRoundInfo {
    /// The first rule that these parameters break, if any: the duration is
    /// not zero, the allocation adds up to one whole, no streak share exceeds
    /// one whole, the streak shares increase strictly, an oracle account is
    /// named, and the minimum bet is not zero.
    pub open spec fn broken_rule(self) -> Option<ErrorCodes> {
        if self.duration == 0 {
            Some(ErrorCodes::DurationZero)
        } else if !self.allocation.is_valid() {
            Some(ErrorCodes::InvalidAllocation)
        } else if !self.jackpot_allocation.within_max() {
            Some(ErrorCodes::ExceedsMaxFee)
        } else if !self.jackpot_allocation.strictly_increasing() {
            Some(ErrorCodes::InvalidJackPotAllocation)
        } else if self.price_account.is_default() {
            Some(ErrorCodes::PriceAccountDefaultPubkey)
        } else if self.min_bet_amount == 0 {
            Some(ErrorCodes::MinBetAmountZero)
        } else {
            None
        }
    }

    /// The parameters break no rule.
    pub open spec fn is_valid(self) -> bool {
        self.broken_rule() is None
    }

    /// These parameters at the platform's start: no round closed, an empty
    /// jackpot pool and no fees.
    pub open spec fn at_start(self) -> GlobalRoundInfo {
        GlobalRoundInfo { round: 0, jackpot_pool_amount: 0, accumulated_platform_fees: 0, ..self }
    }
}

/// The one configuration record of the platform.
#[derive(Clone, Copy, Debug, PartialEq, Eq)]
pub struct PlatformConfig {
    /// Who may change the configuration and collect the platform's fees.
    pub owner: Pubkey,
    /// The token in which everything is staked and paid.
    pub stablecoin: Pubkey,
    pub global_round_info: GlobalRoundInfo,
    pub bump: u8,
    pub platform_vault_bump: u8,
}

impl PlatformConfig {
    /// The configuration breaks none of the rules on its parameters.
    pub open spec fn is_valid(self) -> bool {
        self.global_round_info.is_valid()
    }

    /// Rejects a round duration of zero.
    pub fn validate_duration(&self) -> (checked: Result<(), ErrorCodes>)
        ensures
            checked is Ok <==> self.global_round_info.duration > 0,
            checked is Err ==> checked == Err::<(), ErrorCodes>(ErrorCodes::DurationZero),
    {
        if !(self.global_round_info.duration > 0) {
            return Err(ErrorCodes::DurationZero);
        }
        Ok(())
    }

    /// Accepts the allocation exactly when its four shares add up to one
    /// whole, whatever their size.
    pub fn validate_allocation(&self) -> (checked: Result<(), ErrorCodes>)
        ensures
            checked is Ok <==> self.global_round_info.allocation.is_valid(),
            checked is Ok <==> self.global_round_info.allocation.winners_share
                + self.global_round_info.allocation.affiliate_share
                + self.global_round_info.allocation.jackpot_share
                + self.global_round_info.allocation.platform_share == 10000,
            checked is Err ==> checked == Err::<(), ErrorCodes>(ErrorCodes::InvalidAllocation),
    {
        let allocation = &self.global_round_info.allocation;
        let sum: u32 = allocation.winners_share as u32 + allocation.affiliate_share as u32
            + allocation.jackpot_share as u32 + allocation.platform_share as u32;
        if !(sum == BPS as u32) {
            return Err(ErrorCodes::InvalidAllocation);
        }
        Ok(())
    }

    /// Rejects a streak share above one whole first, then shares that do not
    /// increase strictly from the streak of five to the streak of ten.
    pub fn validate_jackpot_allocation(&self) -> (checked: Result<(), ErrorCodes>)
        ensures
            checked is Ok <==> self.global_round_info.jackpot_allocation.is_valid(),
            checked == Err::<(), ErrorCodes>(ErrorCodes::ExceedsMaxFee)
                <==> !self.global_round_info.jackpot_allocation.within_max(),
            checked == Err::<(), ErrorCodes>(ErrorCodes::InvalidJackPotAllocation) <==> (
            self.global_round_info.jackpot_allocation.within_max()
                && !self.global_round_info.jackpot_allocation.strictly_increasing()),
    {
        let jackpot_allocation = &self.global_round_info.jackpot_allocation;
        if !(jackpot_allocation.streak_5 <= BPS && jackpot_allocation.streak_6 <= BPS
            && jackpot_allocation.streak_7 <= BPS && jackpot_allocation.streak_8 <= BPS
            && jackpot_allocation.streak_9 <= BPS && jackpot_allocation.streak_10 <= BPS) {
            return Err(ErrorCodes::ExceedsMaxFee);
        }
        if !(jackpot_allocation.streak_5 < jackpot_allocation.streak_6
            && jackpot_allocation.streak_6 < jackpot_allocation.streak_7
            && jackpot_allocation.streak_7 < jackpot_allocation.streak_8
            && jackpot_allocation.streak_8 < jackpot_allocation.streak_9
            && jackpot_allocation.streak_9 < jackpot_allocation.streak_10) {
            return Err(ErrorCodes::InvalidJackPotAllocation);
        }
        Ok(())
    }

    /// Rejects an oracle account that is the identity standing for "none".
    pub fn validate_price_account(&self) -> (checked: Result<(), ErrorCodes>)
        ensures
            checked is Ok <==> !self.global_round_info.price_account.is_default(),
            checked is Err ==> checked == Err::<(), ErrorCodes>(
                ErrorCodes::PriceAccountDefaultPubkey,
            ),
    {
        if self.global_round_info.price_account.is_default() {
            return Err(ErrorCodes::PriceAccountDefaultPubkey);
        }
        Ok(())
    }

    /// Rejects a minimum bet of zero.
    pub fn validate_min_bet_amount(&self) -> (checked: Result<(), ErrorCodes>)
        ensures
            checked is Ok <==> self.global_round_info.min_bet_amount > 0,
            checked is Err ==> checked == Err::<(), ErrorCodes>(ErrorCodes::MinBetAmountZero),
    {
        if !(self.global_round_info.min_bet_amount > 0) {
            return Err(ErrorCodes::MinBetAmountZero);
        }
        Ok(())
    }

    /// Checks every rule on the parameters, in the order in which
    /// `GlobalRoundInfo::broken_rule` lists them.
    pub fn validate(&self) -> (checked: Result<(), ErrorCodes>)
        ensures
            checked is Ok <==> self.is_valid(),
            checked matches Err(e) ==> self.global_round_info.broken_rule() == Some(e),
    {
        match self.validate_duration() {
            Err(e) => {
                return Err(e);
            },
            Ok(()) => {},
        }
        match self.validate_allocation() {
            Err(e) => {
                return Err(e);
            },
            Ok(()) => {},
        }
        match self.validate_jackpot_allocation() {
            Err(e) => {
                return Err(e);
            },
            Ok(()) => {},
        }
        match self.validate_price_account() {
            Err(e) => {
                return Err(e);
            },
            Ok(()) => {},
        }
        self.validate_min_bet_amount()
    }
}

} // verus!
