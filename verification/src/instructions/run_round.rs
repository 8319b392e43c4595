//! Opening a round at the current price and closing it at a later one.
use crate::error::ErrorCodes;
use crate::events::{RoundEnded, RoundStarted};
use crate::state::platform_config::{GlobalRoundInfo, PlatformConfig};
use crate::state::round::Round;
use crate::utils::general::{get_price, price_reading, OraclePrice};
use crate::utils::math::{as_unsigned, lemma_share_of_bounds, unsigned_bits};
use vstd::prelude::*;

verus! {

/// The address bumps that the host found for the accounts of `RunRound`.
#[derive(Clone, Copy, Debug, PartialEq, Eq, Structural)]
pub struct RunRoundBumps {
    pub round: u8,
}

/// The accounts for opening or closing the round that follows the one closed
/// last.
#[derive(Clone, Copy, Debug, PartialEq, Eq)]
pub struct RunRound {
    pub platform_config: PlatformConfig,
    pub round: Round,
    /// What the configured oracle account holds.
    pub price_account: OraclePrice,
    pub bumps: RunRoundBumps,
}

impl RunRound {
    /// The price that the oracle gives at `current_time`, if it is fresh.
    pub open spec fn price_at(self, current_time: i64) -> Option<u64> {
        price_reading(
            self.price_account,
            current_time,
            self.platform_config.global_round_info.staleness_threshold,
        )
    }

    /// Why the round cannot be opened at `current_time`, if it cannot. The
    /// reasons are tried in this order: the round has a start time already;
    /// the round is closed; the oracle's price is stale; the price is zero;
    /// the number of the round does not fit in 64 bits.
    pub open spec fn start_round_error(self, current_time: i64) -> Option<ErrorCodes> {
        if self.round.start_time != 0 {
            Some(ErrorCodes::RoundAlreadyStarted)
        } else if self.round.is_closed() {
            Some(ErrorCodes::RoundAlreadyEnded)
        } else if self.price_at(current_time) is None {
            Some(ErrorCodes::StalePrice)
        } else if self.price_at(current_time) == Some(0u64) {
            Some(ErrorCodes::PriceCannotBeZero)
        } else if self.platform_config.global_round_info.round == u64::MAX {
            Some(ErrorCodes::ArithmeticOverflow)
        } else {
            None
        }
    }

    /// The accounts after the round has been opened at `current_time`.
    pub open spec fn started(self, current_time: i64) -> RunRound {
        RunRound {
            round: Round {
                start_time: unsigned_bits(current_time) as u64,
                starting_price: self.price_at(current_time).unwrap(),
                bump: self.bumps.round,
                ..self.round
            },
            ..self
        }
    }

    /// Why the round cannot be closed at `current_time`, if it cannot. The
    /// reasons are tried in this order: the round has an ending price
    /// already; its settlement has been booked already; it has no starting
    /// price; the oracle's price is stale; the time lies before the round's
    /// start; the round has not lasted as long as the configured duration;
    /// the price is zero, which could not be told from no price; the round
    /// counter, the jackpot pool or the accumulated fees would exceed 64
    /// bits.
    pub open spec fn end_round_error(self, current_time: i64) -> Option<ErrorCodes> {
        let info = self.platform_config.global_round_info;
        let now = unsigned_bits(current_time) as u64;
        if self.round.ending_price != 0 {
            Some(ErrorCodes::RoundAlreadyEnded)
        } else if self.round.fees_collected || self.round.jackpot_credited {
            Some(ErrorCodes::AlreadyCollectedPlatformFees)
        } else if self.round.starting_price == 0 {
            Some(ErrorCodes::PriceCannotBeZero)
        } else if self.price_at(current_time) is None {
            Some(ErrorCodes::StalePrice)
        } else if self.round.duration_error(info.duration, now) is Some {
            self.round.duration_error(info.duration, now)
        } else if self.price_at(current_time) == Some(0u64) {
            Some(ErrorCodes::PriceCannotBeZero)
        } else {
            let closed = self.round.closed_at(self.price_at(current_time).unwrap(), info.allocation);
            if info.round + 1 > u64::MAX || info.jackpot_pool_amount + closed.jackpot_contribution()
                > u64::MAX || info.accumulated_platform_fees + closed.platform_fee() > u64::MAX {
                Some(ErrorCodes::ArithmeticOverflow)
            } else {
                None
            }
        }
    }

    /// The accounts after the round has been closed at `current_time`: the
    /// round holds the ending price and a copy of the allocation, the round
    /// counter has advanced, and the jackpot pool and the accumulated fees
    /// have grown by the round's contribution and fee.
    pub open spec fn ended(self, current_time: i64) -> RunRound {
        let info = self.platform_config.global_round_info;
        let closed = self.round.closed_at(self.price_at(current_time).unwrap(), info.allocation);
        RunRound {
            platform_config: PlatformConfig {
                global_round_info: GlobalRoundInfo {
                    round: (info.round + 1) as u64,
                    jackpot_pool_amount: (info.jackpot_pool_amount
                        + closed.jackpot_contribution()) as u64,
                    accumulated_platform_fees: (info.accumulated_platform_fees
                        + closed.platform_fee()) as u64,
                    ..info
                },
                ..self.platform_config
            },
            round: closed,
            ..self
        }
    }

    /// Opens the round: records the time and the oracle's price as the
    /// round's start.
    pub fn start_round(ctx: &mut RunRound, current_time: i64) -> (started: Result<
        RoundStarted,
        ErrorCodes,
    >)
        ensures
            match started {
                Ok(event) => {
                    &&& old(ctx).start_round_error(current_time) is None
                    &&& *final(ctx) == old(ctx).started(current_time)
                    &&& event == (RoundStarted {
                        round: (old(ctx).platform_config.global_round_info.round + 1) as u64,
                        starting_price: final(ctx).round.starting_price,
                    })
                    &&& final(ctx).round.starting_price > 0
                },
                Err(e) => {
                    &&& old(ctx).start_round_error(current_time) == Some(e)
                    &&& *final(ctx) == *old(ctx)
                },
            },
            old(ctx).round.is_closed() ==> started is Err,
            final(ctx).platform_config == old(ctx).platform_config,
            old(ctx).round.is_valid() ==> final(ctx).round.is_valid(),
    {
        if !(ctx.round.start_time == 0) {
            return Err(ErrorCodes::RoundAlreadyStarted);
        }
        if !(ctx.round.ending_price == 0) {
            return Err(ErrorCodes::RoundAlreadyEnded);
        }
        let price = match get_price(
            &ctx.price_account,
            current_time,
            ctx.platform_config.global_round_info.staleness_threshold,
        ) {
            Some(price) => price,
            None => {
                return Err(ErrorCodes::StalePrice);
            },
        };
        let opened = Round {
            start_time: as_unsigned(current_time),
            starting_price: price,
            bump: ctx.bumps.round,
            ..ctx.round
        };
        match opened.validate_starting_price() {
            Err(e) => {
                return Err(e);
            },
            Ok(()) => {},
        }
        let number = match ctx.platform_config.global_round_info.round.checked_add(1) {
            Some(number) => number,
            None => {
                return Err(ErrorCodes::ArithmeticOverflow);
            },
        };
        ctx.round = opened;
        Ok(RoundStarted { round: number, starting_price: price })
    }

    /// Closes the round at the oracle's price and books its settlement: the
    /// platform's fee and the jackpot's contribution are added to the
    /// running balances, and the round keeps a copy of the allocation for
    /// the claims to come.
    pub fn end_round(ctx: &mut RunRound, current_time: i64) -> (ended: Result<
        RoundEnded,
        ErrorCodes,
    >)
        ensures
            match ended {
                Ok(event) => {
                    &&& old(ctx).end_round_error(current_time) is None
                    &&& *final(ctx) == old(ctx).ended(current_time)
                    &&& event == (RoundEnded {
                        round: final(ctx).platform_config.global_round_info.round,
                        ending_price: final(ctx).round.ending_price,
                    })
                    &&& final(ctx).round.is_closed()
                },
                Err(e) => {
                    &&& old(ctx).end_round_error(current_time) == Some(e)
                    &&& *final(ctx) == *old(ctx)
                },
            },
            old(ctx).round.is_closed() ==> ended == Err::<RoundEnded, ErrorCodes>(
                ErrorCodes::RoundAlreadyEnded,
            ),
            final(ctx).platform_config.global_round_info.jackpot_pool_amount >= old(
                ctx,
            ).platform_config.global_round_info.jackpot_pool_amount,
            final(ctx).platform_config.global_round_info.accumulated_platform_fees >= old(
                ctx,
            ).platform_config.global_round_info.accumulated_platform_fees,
            old(ctx).platform_config.is_valid() ==> final(ctx).platform_config.is_valid(),
            old(ctx).platform_config.is_valid() && old(ctx).round.is_valid()
                ==> final(ctx).round.is_valid(),
    {
        if !(ctx.round.ending_price == 0) {
            return Err(ErrorCodes::RoundAlreadyEnded);
        }
        if ctx.round.fees_collected || ctx.round.jackpot_credited {
            return Err(ErrorCodes::AlreadyCollectedPlatformFees);
        }
        match ctx.round.validate_starting_price() {
            Err(e) => {
                return Err(e);
            },
            Ok(()) => {},
        }
        let info = ctx.platform_config.global_round_info;
        let price = match get_price(&ctx.price_account, current_time, info.staleness_threshold) {
            Some(price) => price,
            None => {
                return Err(ErrorCodes::StalePrice);
            },
        };
        let closed = Round {
            ending_price: price,
            allocation: info.allocation,
            fees_collected: true,
            jackpot_credited: true,
            ..ctx.round
        };
        match ctx.round.validate_round_duration(info.duration, as_unsigned(current_time)) {
            Err(e) => {
                return Err(e);
            },
            Ok(()) => {},
        }
        match closed.validate_ending_price() {
            Err(e) => {
                return Err(e);
            },
            Ok(()) => {},
        }
        proof {
            lemma_settlement_parts_nonnegative(closed);
        }
        let parts = match closed.settlement() {
            Some(parts) => parts,
            None => {
                return Err(ErrorCodes::ArithmeticOverflow);
            },
        };
        let number = match info.round.checked_add(1) {
            Some(number) => number,
            None => {
                return Err(ErrorCodes::ArithmeticOverflow);
            },
        };
        let jackpot_pool_amount = match info.jackpot_pool_amount.checked_add(
            parts.jackpot_contribution,
        ) {
            Some(amount) => amount,
            None => {
                return Err(ErrorCodes::ArithmeticOverflow);
            },
        };
        let accumulated_platform_fees = match info.accumulated_platform_fees.checked_add(
            parts.platform_fee,
        ) {
            Some(amount) => amount,
            None => {
                return Err(ErrorCodes::ArithmeticOverflow);
            },
        };
        ctx.round = closed;
        ctx.platform_config.global_round_info.round = number;
        ctx.platform_config.global_round_info.jackpot_pool_amount = jackpot_pool_amount;
        ctx.platform_config.global_round_info.accumulated_platform_fees = accumulated_platform_fees;
        Ok(RoundEnded { round: number, ending_price: price })
    }
}

/// A round is closed once. After `end_round` has succeeded on a round,
/// `end_round` on that round is rejected as already ended, whatever the
/// configuration, the oracle and the clock are by then; and a rejected call
/// changes nothing.
pub proof fn lemma_end_round_only_once(
    ctx: RunRound,
    current_time: i64,
    again: RunRound,
    later_time: i64,
)
    requires
        ctx.end_round_error(current_time) is None,
        again.round == ctx.ended(current_time).round,
    ensures
        again.round.is_closed(),
        again.end_round_error(later_time) == Some(ErrorCodes::RoundAlreadyEnded),
        again.start_round_error(later_time) is Some,
{
}

/// What a round hands to the platform and to the jackpot is never negative.
pub proof fn lemma_settlement_parts_nonnegative(round: Round)
    ensures
        0 <= round.platform_fee(),
        0 <= round.jackpot_contribution(),
{
    let allocation = round.allocation;
    let folded = allocation.winners_share + allocation.affiliate_share;
    lemma_share_of_bounds(round.combined_pool(), allocation.platform_share as int);
    lemma_share_of_bounds(round.combined_pool(), allocation.jackpot_share + folded);
    lemma_share_of_bounds(round.losing_total(), allocation.platform_share as int);
    lemma_share_of_bounds(round.losing_total(), allocation.jackpot_share as int);
    lemma_share_of_bounds(round.losing_total(), folded);
}

} // verus!
