//! The totals of one round and what they are worth once it has closed.
use crate::error::ErrorCodes;
use crate::state::platform_config::Allocation;
use crate::utils::math::{checked_share, is_greater_than, mul_div_down, share_of, wide_share};
use vstd::prelude::*;

verus! {

/// What has been staked in one round, and the two prices that decide it.
///
/// A price of zero means "not set yet". The round is closed once its ending
/// price is set, and nothing in it changes after that.
#[derive(Clone, Copy, Debug, PartialEq, Eq, Structural)]
pub struct Round {
    pub start_time: u64,
    pub starting_price: u64,
    pub ending_price: u64,
    /// The number of bets on each side.
    pub long_positions: u64,
    pub short_positions: u64,
    /// The number of bets on each side behind which a referrer stands.
    pub affiliates_for_long_positions: u64,
    pub affiliates_for_short_positions: u64,
    /// The sum of the stakes on each side.
    pub total_bet_amount_long: u64,
    pub total_bet_amount_short: u64,
    /// The allocation in force when the round closed. Every payout of the
    /// round is computed from this copy, so that a later change of the
    /// configuration leaves a closed round as it was.
    pub allocation: Allocation,
    /// Set when the platform's fee of this round has been added to the
    /// accumulated fees.
    pub fees_collected: bool,
    /// Set when this round's contribution has been added to the jackpot pool.
    pub jackpot_credited: bool,
    pub bump: u8,
}

/// What a round hands over when it closes.
#[derive(Clone, Copy, Debug, PartialEq, Eq, Structural)]
pub struct Settlement {
    /// What is added to the platform's accumulated fees.
    pub platform_fee: u64,
    /// What is added to the jackpot pool.
    pub jackpot_contribution: u64,
}

impl Round {
    pub open spec fn is_closed(self) -> bool {
        self.ending_price != 0
    }

    /// The round is in a state that the operations lead to: an ending price
    /// is set only after a starting price, the settlement is booked exactly
    /// when the round is closed, and a closed round holds an allocation of
    /// one whole.
    pub open spec fn is_valid(self) -> bool {
        &&& self.is_closed() ==> self.starting_price != 0
        &&& self.fees_collected == self.is_closed()
        &&& self.jackpot_credited == self.is_closed()
        &&& self.is_closed() ==> self.allocation.is_valid()
    }

    /// The price did not move: neither side has won.
    pub open spec fn is_tie(self) -> bool {
        self.ending_price == self.starting_price
    }

    /// The price went up.
    pub open spec fn longs_won(self) -> bool {
        self.ending_price > self.starting_price
    }

    /// Whether the side `is_long` has won this round.
    pub open spec fn side_won(self, is_long: bool) -> bool {
        !self.is_tie() && self.longs_won() == is_long
    }

    /// Everything staked in the round.
    pub open spec fn combined_pool(self) -> int {
        self.total_bet_amount_long + self.total_bet_amount_short
    }

    /// The sum of the stakes on the side that the price went to.
    pub open spec fn winning_total(self) -> int {
        if self.longs_won() {
            self.total_bet_amount_long as int
        } else {
            self.total_bet_amount_short as int
        }
    }

    /// The sum of the stakes on the side that the price went against.
    pub open spec fn losing_total(self) -> int {
        if self.longs_won() {
            self.total_bet_amount_short as int
        } else {
            self.total_bet_amount_long as int
        }
    }

    /// The number of referred bets on the side that the price went to.
    pub open spec fn winning_affiliates(self) -> int {
        if self.longs_won() {
            self.affiliates_for_long_positions as int
        } else {
            self.affiliates_for_short_positions as int
        }
    }

    /// All stakes are on one side.
    pub open spec fn is_one_sided(self) -> bool {
        self.total_bet_amount_long == 0 || self.total_bet_amount_short == 0
    }

    /// What the platform takes when the round closes: its share of the
    /// losing pool, or of everything staked where the round is tied.
    pub open spec fn platform_fee(self) -> int {
        if self.is_tie() {
            share_of(self.combined_pool(), self.allocation.platform_share as int)
        } else {
            share_of(self.losing_total(), self.allocation.platform_share as int)
        }
    }

    /// What goes to the jackpot pool when the round closes.
    ///
    /// Where a side has won, the jackpot's share of the losing pool. Where
    /// in addition all stakes are on one side, there is nobody to pay or
    /// nothing to pay from, and the winners' and the affiliates' shares of the
    /// losing pool go to the jackpot as well. Where the round is tied, the
    /// three shares together are taken of everything staked.
    pub open spec fn jackpot_contribution(self) -> int {
        let folded = self.allocation.winners_share + self.allocation.affiliate_share;
        if self.is_tie() {
            share_of(self.combined_pool(), self.allocation.jackpot_share + folded)
        } else if self.is_one_sided() {
            share_of(self.losing_total(), self.allocation.jackpot_share as int) + share_of(
                self.losing_total(),
                folded,
            )
        } else {
            share_of(self.losing_total(), self.allocation.jackpot_share as int)
        }
    }

    /// The part of the losing pool that the winners divide by their stakes.
    pub open spec fn winners_pool(self) -> int {
        share_of(self.losing_total(), self.allocation.winners_share as int)
    }

    /// The part of the losing pool that the referrers of winning bets divide
    /// equally.
    pub open spec fn affiliate_pool(self) -> int {
        share_of(self.losing_total(), self.allocation.affiliate_share as int)
    }

    /// What a winning stake of `stake` earns: the winners' pool times the
    /// stake's part in the winning side, rounded down; nothing where no
    /// stake is recorded on the winning side.
    pub open spec fn payout_for(self, stake: int) -> int {
        if self.winning_total() == 0 {
            0
        } else {
            stake * self.winners_pool() / self.winning_total()
        }
    }

    /// What the referrer of one winning bet earns: the affiliate pool divided
    /// by the number of referred bets on the winning side, rounded down;
    /// nothing where no such bet is recorded.
    pub open spec fn affiliate_payout(self) -> int {
        if self.winning_affiliates() == 0 {
            0
        } else {
            self.affiliate_pool() / self.winning_affiliates()
        }
    }

    /// This round with `price` as its ending price, `allocation` as the
    /// allocation it is settled under, and both settlement flags set.
    pub open spec fn closed_at(self, price: u64, allocation: Allocation) -> Round {
        Round {
            ending_price: price,
            allocation,
            fees_collected: true,
            jackpot_credited: true,
            ..self
        }
    }

    /// This round with one more bet of `amount` on the side `is_long`,
    /// counted among the referred bets where `referred`.
    pub open spec fn with_bet(self, amount: u64, is_long: bool, referred: bool) -> Round {
        let one_more: int = if referred {
            1
        } else {
            0
        };
        if is_long {
            Round {
                long_positions: (self.long_positions + 1) as u64,
                total_bet_amount_long: (self.total_bet_amount_long + amount) as u64,
                affiliates_for_long_positions: (self.affiliates_for_long_positions
                    + one_more) as u64,
                ..self
            }
        } else {
            Round {
                short_positions: (self.short_positions + 1) as u64,
                total_bet_amount_short: (self.total_bet_amount_short + amount) as u64,
                affiliates_for_short_positions: (self.affiliates_for_short_positions
                    + one_more) as u64,
                ..self
            }
        }
    }

    /// One more bet of `amount` on the side `is_long` would take a count or
    /// a total of this round beyond 64 bits.
    pub open spec fn bet_overflows(self, amount: u64, is_long: bool, referred: bool) -> bool {
        if is_long {
            ||| self.long_positions + 1 > u64::MAX
            ||| self.total_bet_amount_long + amount > u64::MAX
            ||| referred && self.affiliates_for_long_positions + 1 > u64::MAX
        } else {
            ||| self.short_positions + 1 > u64::MAX
            ||| self.total_bet_amount_short + amount > u64::MAX
            ||| referred && self.affiliates_for_short_positions + 1 > u64::MAX
        }
    }

    /// Why a round started at `self.start_time` cannot be closed at
    /// `current_time`, if it cannot: the time lies before the start, or
    /// fewer than `min_duration` seconds have passed.
    pub open spec fn duration_error(self, min_duration: u64, current_time: u64) -> Option<
        ErrorCodes,
    > {
        if current_time < self.start_time {
            Some(ErrorCodes::ArithmeticUnderflow)
        } else if current_time - self.start_time < min_duration {
            Some(ErrorCodes::RoundHasNotEndedYet)
        } else {
            None
        }
    }

    /// Rejects a round whose starting price is not set.
    pub fn validate_starting_price(&self) -> (checked: Result<(), ErrorCodes>)
        ensures
            checked is Ok <==> self.starting_price > 0,
            checked is Err ==> checked == Err::<(), ErrorCodes>(ErrorCodes::PriceCannotBeZero),
    {
        if !(self.starting_price > 0) {
            return Err(ErrorCodes::PriceCannotBeZero);
        }
        Ok(())
    }

    /// Rejects a round whose ending price is not set.
    pub fn validate_ending_price(&self) -> (checked: Result<(), ErrorCodes>)
        ensures
            checked is Ok <==> self.ending_price > 0,
            checked is Err ==> checked == Err::<(), ErrorCodes>(ErrorCodes::PriceCannotBeZero),
    {
        if !(self.ending_price > 0) {
            return Err(ErrorCodes::PriceCannotBeZero);
        }
        Ok(())
    }

    /// Accepts `current_time` as a time to close the round exactly when at
    /// least `min_duration` seconds have passed since its start.
    pub fn validate_round_duration(&self, min_duration: u64, current_time: u64) -> (checked: Result<
        (),
        ErrorCodes,
    >)
        ensures
            checked is Ok <==> current_time - self.start_time >= min_duration,
            checked matches Err(e) ==> self.duration_error(min_duration, current_time) == Some(e),
            checked is Ok ==> self.duration_error(min_duration, current_time) is None,
    {
        let duration = match current_time.checked_sub(self.start_time) {
            Some(duration) => duration,
            None => {
                return Err(ErrorCodes::ArithmeticUnderflow);
            },
        };
        if !(duration >= min_duration) {
            return Err(ErrorCodes::RoundHasNotEndedYet);
        }
        Ok(())
    }

    /// Whether the price went up.
    pub fn have_longs_won(&self) -> (won: bool)
        ensures
            won == self.longs_won(),
    {
        is_greater_than(&self.ending_price, &self.starting_price)
    }

    /// What this round hands to the platform and to the jackpot, or `None`
    /// where either amount does not fit in 64 bits, which takes an
    /// allocation of more than one whole.
    pub fn settlement(&self) -> (parts: Option<Settlement>)
        ensures
            parts == (if self.platform_fee() <= u64::MAX && self.jackpot_contribution()
                <= u64::MAX {
                Some(
                    Settlement {
                        platform_fee: self.platform_fee() as u64,
                        jackpot_contribution: self.jackpot_contribution() as u64,
                    },
                )
            } else {
                None
            }),
    {
        let folded: u32 = self.allocation.winners_share as u32 + self.allocation.affiliate_share as u32;
        let fee: u128;
        let mut contribution: u128;
        if self.ending_price == self.starting_price {
            let pool: u128 = self.total_bet_amount_long as u128 + self.total_bet_amount_short as u128;
            contribution = wide_share(pool, self.allocation.jackpot_share as u32 + folded);
            fee = wide_share(pool, self.allocation.platform_share as u32);
        } else {
            let have_longs_won = self.have_longs_won();
            let (winning, losing) = if have_longs_won {
                (self.total_bet_amount_long, self.total_bet_amount_short)
            } else {
                (self.total_bet_amount_short, self.total_bet_amount_long)
            };
            contribution = wide_share(losing as u128, self.allocation.jackpot_share as u32);
            fee = wide_share(losing as u128, self.allocation.platform_share as u32);
            if winning == 0 || losing == 0 {
                contribution = contribution + wide_share(losing as u128, folded);
            }
        }
        match (u64::try_from(fee), u64::try_from(contribution)) {
            (Ok(platform_fee), Ok(jackpot_contribution)) => Some(
                Settlement { platform_fee, jackpot_contribution },
            ),
            _ => None,
        }
    }

    /// What a winning stake of `stake` earns, or `None` where the winners'
    /// pool or the earnings do not fit in 64 bits.
    pub fn winner_payout(&self, stake: u64) -> (payout: Option<u64>)
        ensures
            payout == (if self.winners_pool() <= u64::MAX && self.payout_for(stake as int)
                <= u64::MAX {
                Some(self.payout_for(stake as int) as u64)
            } else {
                None
            }),
    {
        let have_longs_won = self.have_longs_won();
        let (winning, losing) = if have_longs_won {
            (self.total_bet_amount_long, self.total_bet_amount_short)
        } else {
            (self.total_bet_amount_short, self.total_bet_amount_long)
        };
        let pool: u64 = match checked_share(losing, self.allocation.winners_share) {
            Some(pool) => pool,
            None => {
                return None;
            },
        };
        if winning == 0 {
            return Some(0);
        }
        proof {
            assert(stake * pool <= 0xffff_ffff_ffff_ffff * 0xffff_ffff_ffff_ffff) by (nonlinear_arith)
                requires
                    0 <= stake <= 0xffff_ffff_ffff_ffff,
                    0 <= pool <= 0xffff_ffff_ffff_ffff,
            ;
        }
        let wide = mul_div_down(&(stake as u128), &(pool as u128), &(winning as u128));
        match u64::try_from(wide) {
            Ok(payout) => Some(payout),
            Err(_) => None,
        }
    }

    /// What the referrer of one winning bet earns, or `None` where the
    /// affiliate pool does not fit in 64 bits.
    pub fn affiliate_share(&self) -> (payout: Option<u64>)
        ensures
            payout == (if self.affiliate_pool() <= u64::MAX {
                Some(self.affiliate_payout() as u64)
            } else {
                None
            }),
    {
        let have_longs_won = self.have_longs_won();
        let (affiliates, losing) = if have_longs_won {
            (self.affiliates_for_long_positions, self.total_bet_amount_short)
        } else {
            (self.affiliates_for_short_positions, self.total_bet_amount_long)
        };
        let pool: u64 = match checked_share(losing, self.allocation.affiliate_share) {
            Some(pool) => pool,
            None => {
                return None;
            },
        };
        match pool.checked_div(affiliates) {
            Some(payout) => Some(payout),
            None => Some(0),
        }
    }
}

impl Default for Round {
    /// The record of a round in which nothing has happened yet.
    fn default() -> (round: Self)
        ensures
            round == (Round {
                start_time: 0,
                starting_price: 0,
                ending_price: 0,
                long_positions: 0,
                short_positions: 0,
                affiliates_for_long_positions: 0,
                affiliates_for_short_positions: 0,
                total_bet_amount_long: 0,
                total_bet_amount_short: 0,
                allocation: Allocation {
                    winners_share: 0,
                    affiliate_share: 0,
                    jackpot_share: 0,
                    platform_share: 0,
                },
                fees_collected: false,
                jackpot_credited: false,
                bump: 0,
            }),
            round.is_valid(),
    {
        Round {
            start_time: 0,
            starting_price: 0,
            ending_price: 0,
            long_positions: 0,
            short_positions: 0,
            affiliates_for_long_positions: 0,
            affiliates_for_short_positions: 0,
            total_bet_amount_long: 0,
            total_bet_amount_short: 0,
            allocation: Allocation::default(),
            fees_collected: false,
            jackpot_credited: false,
            bump: 0,
        }
    }
}

} // verus!
