//! A winner's claim on a closed round.
use crate::error::ErrorCodes;
use crate::events::WinningsClaimed;
use crate::pubkey::Pubkey;
use crate::state::bet::{Bet, ClaimStatus};
use crate::state::platform_config::{GlobalRoundInfo, PlatformConfig};
use crate::state::round::Round;
use crate::state::user_info::UserInfo;
use crate::utils::math::{checked_share, lemma_share_of_bounds, share_of};
use vstd::prelude::*;

verus! {

/// The accounts for a bettor's claim: the bettor's own record and bet, the
/// round that the bet was placed in, and the platform's configuration.
#[derive(Clone, Copy, Debug, PartialEq, Eq)]
pub struct ClaimUserWinnings {
    pub user: Pubkey,
    pub platform_config: PlatformConfig,
    pub user_info: UserInfo,
    pub round: Round,
    pub user_bet: Bet,
}

impl ClaimUserWinnings {
    /// What the bet earns from the losing pool.
    pub open spec fn base_payout(self) -> int {
        self.round.payout_for(self.user_bet.amount as int)
    }

    /// The round with index `round_index`, counted from zero, follows
    /// directly on the round that the user won last.
    pub open spec fn continues_streak(self, round_index: u64) -> bool {
        round_index == self.user_info.last_won_round
    }

    /// The jackpot share that goes with the streak that this win makes.
    pub open spec fn streak_share(self) -> u16 {
        self.platform_config.global_round_info.jackpot_allocation.share_for(
            self.user_info.times_won + 1,
        )
    }

    /// A bonus is due: this win makes a streak that has a share, it follows
    /// directly on the last win, and the jackpot pool is not empty.
    pub open spec fn bonus_due(self, round_index: u64) -> bool {
        &&& self.streak_share() > 0
        &&& self.continues_streak(round_index)
        &&& self.platform_config.global_round_info.jackpot_pool_amount > 0
    }

    /// The bonus: the streak's share of the jackpot pool, rounded down, where
    /// one is due, and nothing otherwise.
    pub open spec fn bonus(self, round_index: u64) -> int {
        if self.bonus_due(round_index) {
            share_of(
                self.platform_config.global_round_info.jackpot_pool_amount as int,
                self.streak_share() as int,
            )
        } else {
            0
        }
    }

    /// The streak after this win: one where the win does not follow directly
    /// on the last one; zero where a bonus for ten wins has just been paid;
    /// one more than before otherwise.
    pub open spec fn streak_after(self, round_index: u64) -> int {
        if !self.continues_streak(round_index) {
            1
        } else if self.bonus_due(round_index) && self.user_info.times_won + 1 == 10 {
            0
        } else {
            self.user_info.times_won + 1
        }
    }

    /// Why the claim is rejected, if it is. The reasons are tried in this
    /// order: the round is not closed; the bet has been claimed; the bet's
    /// side has not won, which is so for both sides of a tied round; the
    /// winners' pool or the earnings exceed 64 bits; the earnings are zero;
    /// the streak or the round's number exceeds 64 bits; the bonus exceeds
    /// the jackpot pool; the user's balance would exceed 64 bits.
    pub open spec fn claim_error(self, round_index: u64) -> Option<ErrorCodes> {
        if !self.round.is_closed() {
            Some(ErrorCodes::RoundHasNotEndedYet)
        } else if self.user_bet.has_claimed_winnings == ClaimStatus::Claimed {
            Some(ErrorCodes::AlreadyClaimedWinnings)
        } else if !self.round.side_won(self.user_bet.is_long) {
            Some(ErrorCodes::IneligibleForClaim)
        } else if self.round.winners_pool() > u64::MAX || self.base_payout() > u64::MAX {
            Some(ErrorCodes::ArithmeticOverflow)
        } else if self.base_payout() == 0 {
            Some(ErrorCodes::ClaimAmountZero)
        } else if self.user_info.times_won == u64::MAX || round_index == u64::MAX {
            Some(ErrorCodes::ArithmeticOverflow)
        } else if self.bonus(round_index)
            > self.platform_config.global_round_info.jackpot_pool_amount {
            Some(ErrorCodes::ArithmeticUnderflow)
        } else if self.user_info.amount + self.user_bet.amount + self.base_payout() + self.bonus(
            round_index,
        ) > u64::MAX {
            Some(ErrorCodes::ArithmeticOverflow)
        } else {
            None
        }
    }

    /// The accounts after the claim: the bet is marked claimed, the user's
    /// balance has grown by the stake, the earnings and the bonus, the
    /// streak is brought up to date, and the bonus has left the jackpot pool.
    pub open spec fn claimed(self, round_index: u64) -> ClaimUserWinnings {
        let info = self.platform_config.global_round_info;
        ClaimUserWinnings {
            platform_config: PlatformConfig {
                global_round_info: GlobalRoundInfo {
                    jackpot_pool_amount: (info.jackpot_pool_amount - self.bonus(round_index)) as u64,
                    ..info
                },
                ..self.platform_config
            },
            user_info: UserInfo {
                amount: (self.user_info.amount + self.user_bet.amount + self.base_payout()
                    + self.bonus(round_index)) as u64,
                times_won: self.streak_after(round_index) as u64,
                last_won_round: (round_index + 1) as u64,
                ..self.user_info
            },
            user_bet: Bet { has_claimed_winnings: ClaimStatus::Claimed, ..self.user_bet },
            ..self
        }
    }

    /// Pays a winning bet of the round with index `round_index`, counted from
    /// zero: the stake, the bet's part of the winners' pool and, where the
    /// win completes a streak of five to ten, a bonus from the jackpot pool
    /// are added to the user's balance. A bet is paid at most once.
    pub fn claim_user_winnings(ctx: &mut ClaimUserWinnings, round_index: u64) -> (claimed: Result<
        WinningsClaimed,
        ErrorCodes,
    >)
        ensures
            match claimed {
                Ok(event) => {
                    &&& old(ctx).claim_error(round_index) is None
                    &&& *final(ctx) == old(ctx).claimed(round_index)
                    &&& event == (WinningsClaimed {
                        user: old(ctx).user,
                        round_index,
                        is_long: old(ctx).user_bet.is_long,
                        amount: (old(ctx).base_payout() + old(ctx).bonus(round_index)) as u64,
                    })
                },
                Err(e) => {
                    &&& old(ctx).claim_error(round_index) == Some(e)
                    &&& *final(ctx) == *old(ctx)
                },
            },
            old(ctx).user_bet.has_claimed_winnings == ClaimStatus::Claimed ==> claimed is Err,
            old(ctx).round.is_tie() ==> claimed is Err,
            final(ctx).platform_config.global_round_info.jackpot_pool_amount <= old(
                ctx,
            ).platform_config.global_round_info.jackpot_pool_amount,
            final(ctx).round == old(ctx).round,
            old(ctx).platform_config.is_valid() ==> final(ctx).platform_config.is_valid(),
            old(ctx).user_bet.has_claimed_winnings == ClaimStatus::Claimed
                ==> final(ctx).user_bet.has_claimed_winnings == ClaimStatus::Claimed,
            final(ctx).user_bet.has_affiliate_claimed_winnings == old(
                ctx,
            ).user_bet.has_affiliate_claimed_winnings,
    {
        let global_round_info = ctx.platform_config.global_round_info;
        if !(ctx.round.ending_price != 0) {
            return Err(ErrorCodes::RoundHasNotEndedYet);
        }
        if ctx.user_bet.has_claimed_winnings.is_claimed() {
            return Err(ErrorCodes::AlreadyClaimedWinnings);
        }
        let have_longs_won = ctx.round.have_longs_won();
        if !(ctx.round.ending_price != ctx.round.starting_price && ((have_longs_won
            && ctx.user_bet.is_long) || (!have_longs_won && !ctx.user_bet.is_long))) {
            return Err(ErrorCodes::IneligibleForClaim);
        }
        let mut amount: u64 = match ctx.round.winner_payout(ctx.user_bet.amount) {
            Some(amount) => amount,
            None => {
                return Err(ErrorCodes::ArithmeticOverflow);
            },
        };
        if !(amount > 0) {
            return Err(ErrorCodes::ClaimAmountZero);
        }
        let mut times_won: u64 = match ctx.user_info.times_won.checked_add(1) {
            Some(times_won) => times_won,
            None => {
                return Err(ErrorCodes::ArithmeticOverflow);
            },
        };
        let last_won_round: u64 = match round_index.checked_add(1) {
            Some(number) => number,
            None => {
                return Err(ErrorCodes::ArithmeticOverflow);
            },
        };
        let streak_winnings_share = global_round_info.jackpot_allocation.streak_share(times_won);
        let mut jackpot_pool_amount = global_round_info.jackpot_pool_amount;
        let mut jackpot_amount: u64 = 0;
        if streak_winnings_share > 0 && round_index == ctx.user_info.last_won_round
            && jackpot_pool_amount > 0 {
            proof {
                lemma_share_of_bounds(jackpot_pool_amount as int, streak_winnings_share as int);
            }
            jackpot_amount = match checked_share(jackpot_pool_amount, streak_winnings_share) {
                Some(bonus) => bonus,
                None => {
                    return Err(ErrorCodes::ArithmeticUnderflow);
                },
            };
            jackpot_pool_amount = match jackpot_pool_amount.checked_sub(jackpot_amount) {
                Some(rest) => rest,
                None => {
                    return Err(ErrorCodes::ArithmeticUnderflow);
                },
            };
            if times_won == 10 {
                times_won = 0;
            }
        }
        let credit: u128 = ctx.user_info.amount as u128 + ctx.user_bet.amount as u128
            + amount as u128 + jackpot_amount as u128;
        let balance: u64 = match u64::try_from(credit) {
            Ok(balance) => balance,
            Err(_) => {
                return Err(ErrorCodes::ArithmeticOverflow);
            },
        };
        amount = amount + jackpot_amount;
        if round_index != ctx.user_info.last_won_round {
            times_won = 1;
        }
        ctx.user_bet.has_claimed_winnings = ClaimStatus::Claimed;
        ctx.platform_config.global_round_info.jackpot_pool_amount = jackpot_pool_amount;
        ctx.user_info.amount = balance;
        ctx.user_info.times_won = times_won;
        ctx.user_info.last_won_round = last_won_round;
        Ok(
            WinningsClaimed {
                user: ctx.user,
                round_index,
                is_long: ctx.user_bet.is_long,
                amount,
            },
        )
    }
}

/// A bet is paid once. After `claim_user_winnings` has succeeded on a bet,
/// `claim_user_winnings` on that bet is rejected as already claimed, whatever
/// has become of the user's record and of the configuration; and a rejected
/// call changes nothing, the balances included.
pub proof fn lemma_claim_only_once(
    ctx: ClaimUserWinnings,
    round_index: u64,
    again: ClaimUserWinnings,
    again_index: u64,
)
    requires
        ctx.claim_error(round_index) is None,
        again.user_bet == ctx.claimed(round_index).user_bet,
        again.round == ctx.round,
    ensures
        again.claim_error(again_index) == Some(ErrorCodes::AlreadyClaimedWinnings),
{
}

/// A tied round has no winner: a claim on it is rejected for a bet on
/// either side.
pub proof fn lemma_tie_admits_no_claim(ctx: ClaimUserWinnings, round_index: u64)
    requires
        ctx.round.is_tie(),
    ensures
        ctx.claim_error(round_index) is Some,
        ctx.round.is_closed() && ctx.user_bet.has_claimed_winnings == ClaimStatus::Unclaimed
            ==> ctx.claim_error(round_index) == Some(ErrorCodes::IneligibleForClaim),
{
}

/// Under a valid configuration the jackpot pool covers every bonus, and a
/// bonus is paid only for a streak of five to ten wins.
pub proof fn lemma_bonus_within_jackpot_pool(ctx: ClaimUserWinnings, round_index: u64)
    requires
        ctx.platform_config.is_valid(),
    ensures
        0 <= ctx.bonus(round_index) <= ctx.platform_config.global_round_info.jackpot_pool_amount,
        ctx.bonus(round_index) > 0 ==> 5 <= ctx.user_info.times_won + 1 <= 10
            && ctx.continues_streak(round_index),
{
    lemma_share_of_bounds(
        ctx.platform_config.global_round_info.jackpot_pool_amount as int,
        ctx.streak_share() as int,
    );
}

} // verus!
