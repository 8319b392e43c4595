//! Staking on one side of the open round.
use crate::error::ErrorCodes;
use crate::events::BetPlaced;
use crate::pubkey::Pubkey;
use crate::state::bet::{Bet, ClaimStatus};
use crate::state::platform_config::PlatformConfig;
use crate::state::round::Round;
use crate::state::user_info::UserInfo;
use vstd::prelude::*;

verus! {

/// The address bumps that the host found for the accounts of `PlaceBet`.
#[derive(Clone, Copy, Debug, PartialEq, Eq, Structural)]
pub struct PlaceBetBumps {
    pub user_bet: u8,
}

/// The accounts for placing a bet: the bettor's record, the open round and
/// the record that the bet is written to. The host provides a fresh bet
/// record for each bettor and round, so that nobody bets twice in a round.
#[derive(Clone, Copy, Debug, PartialEq, Eq)]
pub struct PlaceBet {
    pub user: Pubkey,
    pub platform_config: PlatformConfig,
    pub user_info: UserInfo,
    pub round: Round,
    pub user_bet: Bet,
    pub bumps: PlaceBetBumps,
}

impl PlaceBet {
    /// The bet that a stake of `amount` on the side `is_long` makes: it
    /// carries the bettor's referrer, and nothing has been claimed on it.
    pub open spec fn new_bet(self, amount: u64, is_long: bool) -> Bet {
        Bet {
            amount,
            is_long,
            affiliate: self.user_info.affiliate,
            has_claimed_winnings: ClaimStatus::Unclaimed,
            has_affiliate_claimed_winnings: ClaimStatus::Unclaimed,
            bump: self.bumps.user_bet,
        }
    }

    /// Why the bet is rejected, if it is. The reasons are tried in this
    /// order: the round is closed; the stake is below the minimum bet; the
    /// stake exceeds the bettor's balance; a count or a total of the round,
    /// or the round's number, would exceed 64 bits.
    pub open spec fn place_bet_error(self, amount: u64, is_long: bool) -> Option<ErrorCodes> {
        if self.round.is_closed() {
            Some(ErrorCodes::RoundAlreadyEnded)
        } else if amount < self.platform_config.global_round_info.min_bet_amount {
            Some(ErrorCodes::BetAmountBelowMinBetAmount)
        } else if self.user_info.amount < amount {
            Some(ErrorCodes::ArithmeticUnderflow)
        } else if self.round.bet_overflows(amount, is_long, !self.user_info.affiliate.is_default())
            || self.platform_config.global_round_info.round == u64::MAX {
            Some(ErrorCodes::ArithmeticOverflow)
        } else {
            None
        }
    }

    /// The accounts after the bet: the stake has left the bettor's balance
    /// and is counted in the round, and the bet record holds the new bet.
    pub open spec fn placed(self, amount: u64, is_long: bool) -> PlaceBet {
        PlaceBet {
            user_info: UserInfo { amount: (self.user_info.amount - amount) as u64, ..self.user_info },
            round: self.round.with_bet(amount, is_long, !self.user_info.affiliate.is_default()),
            user_bet: self.new_bet(amount, is_long),
            ..self
        }
    }

    /// Stakes `amount` of the bettor's balance on the side `is_long` of the
    /// open round. A closed round takes no bet, so that what its claims are
    /// divided by stays as it was when it closed.
    pub fn place_bet(ctx: &mut PlaceBet, amount: u64, is_long: bool) -> (placed: Result<
        BetPlaced,
        ErrorCodes,
    >)
        ensures
            match placed {
                Ok(event) => {
                    &&& old(ctx).place_bet_error(amount, is_long) is None
                    &&& *final(ctx) == old(ctx).placed(amount, is_long)
                    &&& event == (BetPlaced {
                        user: old(ctx).user,
                        round: (old(ctx).platform_config.global_round_info.round + 1) as u64,
                        amount,
                        is_long,
                        affiliate: old(ctx).user_info.affiliate,
                    })
                },
                Err(e) => {
                    &&& old(ctx).place_bet_error(amount, is_long) == Some(e)
                    &&& *final(ctx) == *old(ctx)
                },
            },
            old(ctx).round.is_closed() ==> placed is Err,
            old(ctx).round.is_valid() ==> final(ctx).round.is_valid(),
            final(ctx).platform_config == old(ctx).platform_config,
    {
        if ctx.round.ending_price != 0 {
            return Err(ErrorCodes::RoundAlreadyEnded);
        }
        let referred = !ctx.user_info.affiliate.is_default();
        let user_bet = Bet {
            amount,
            is_long,
            affiliate: ctx.user_info.affiliate,
            has_claimed_winnings: ClaimStatus::Unclaimed,
            has_affiliate_claimed_winnings: ClaimStatus::Unclaimed,
            bump: ctx.bumps.user_bet,
        };
        match user_bet.validate_amount(ctx.platform_config.global_round_info.min_bet_amount) {
            Err(e) => {
                return Err(e);
            },
            Ok(()) => {},
        }
        let balance = match ctx.user_info.amount.checked_sub(amount) {
            Some(balance) => balance,
            None => {
                return Err(ErrorCodes::ArithmeticUnderflow);
            },
        };
        let mut round = ctx.round;
        if is_long {
            round.long_positions = match round.long_positions.checked_add(1) {
                Some(count) => count,
                None => {
                    return Err(ErrorCodes::ArithmeticOverflow);
                },
            };
            round.total_bet_amount_long = match round.total_bet_amount_long.checked_add(amount) {
                Some(total) => total,
                None => {
                    return Err(ErrorCodes::ArithmeticOverflow);
                },
            };
            if referred {
                round.affiliates_for_long_positions =
                match round.affiliates_for_long_positions.checked_add(1) {
                    Some(count) => count,
                    None => {
                        return Err(ErrorCodes::ArithmeticOverflow);
                    },
                };
            }
        } else {
            round.short_positions = match round.short_positions.checked_add(1) {
                Some(count) => count,
                None => {
                    return Err(ErrorCodes::ArithmeticOverflow);
                },
            };
            round.total_bet_amount_short = match round.total_bet_amount_short.checked_add(amount) {
                Some(total) => total,
                None => {
                    return Err(ErrorCodes::ArithmeticOverflow);
                },
            };
            if referred {
                round.affiliates_for_short_positions =
                match round.affiliates_for_short_positions.checked_add(1) {
                    Some(count) => count,
                    None => {
                        return Err(ErrorCodes::ArithmeticOverflow);
                    },
                };
            }
        }
        let number = match ctx.platform_config.global_round_info.round.checked_add(1) {
            Some(number) => number,
            None => {
                return Err(ErrorCodes::ArithmeticOverflow);
            },
        };
        ctx.user_info.amount = balance;
        ctx.user_bet = user_bet;
        ctx.round = round;
        Ok(
            BetPlaced {
                user: ctx.user,
                round: number,
                amount,
                is_long,
                affiliate: ctx.user_info.affiliate,
            },
        )
    }
}

} // verus!
