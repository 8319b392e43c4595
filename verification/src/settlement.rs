//! What holds of a round's settlement as a whole: the bets that a round
//! stands for, what they can claim together, and why the losing pool covers
//! it.
use crate::instructions::place_bet::PlaceBet;
use crate::state::bet::Bet;
use crate::state::round::Round;
use crate::utils::math::{lemma_share_of_bounds, lemma_share_of_superadditive, share_of};
use vstd::prelude::*;

verus! {

/// The sum of the stakes of the bets on the side `is_long`.
pub open spec fn staked_on(bets: Seq<Bet>, is_long: bool) -> int
    decreases bets.len(),
{
    if bets.len() == 0 {
        0
    } else {
        staked_on(bets.drop_last(), is_long) + if bets.last().is_long == is_long {
            bets.last().amount as int
        } else {
            0
        }
    }
}

/// The number of bets on the side `is_long`.
pub open spec fn count_on(bets: Seq<Bet>, is_long: bool) -> int
    decreases bets.len(),
{
    if bets.len() == 0 {
        0
    } else {
        count_on(bets.drop_last(), is_long) + if bets.last().is_long == is_long {
            1int
        } else {
            0
        }
    }
}

/// The number of bets on the side `is_long` behind which a referrer stands.
pub open spec fn referred_on(bets: Seq<Bet>, is_long: bool) -> int
    decreases bets.len(),
{
    if bets.len() == 0 {
        0
    } else {
        referred_on(bets.drop_last(), is_long) + if bets.last().is_long == is_long
            && bets.last().has_affiliate() {
            1int
        } else {
            0
        }
    }
}

/// What the bets earn from the losing pool if every winner claims: the sum
/// of `Round::payout_for` over the bets on the side that has won.
pub open spec fn winner_claims(round: Round, bets: Seq<Bet>) -> int
    decreases bets.len(),
{
    if bets.len() == 0 {
        0
    } else {
        winner_claims(round, bets.drop_last()) + if round.side_won(bets.last().is_long) {
            round.payout_for(bets.last().amount as int)
        } else {
            0
        }
    }
}

/// What the referrers earn if each claims against every winning bet that
/// they referred: `Round::affiliate_payout` for each such bet.
pub open spec fn affiliate_claims(round: Round, bets: Seq<Bet>) -> int
    decreases bets.len(),
{
    if bets.len() == 0 {
        0
    } else {
        affiliate_claims(round, bets.drop_last()) + if round.side_won(bets.last().is_long)
            && bets.last().has_affiliate() {
            round.affiliate_payout()
        } else {
            0
        }
    }
}

impl Round {
    /// The round's counts and totals are those of `bets`, and every bet
    /// stakes something.
    pub open spec fn records(self, bets: Seq<Bet>) -> bool {
        &&& forall|i: int| 0 <= i < bets.len() ==> (#[trigger] bets[i]).amount > 0
        &&& self.total_bet_amount_long == staked_on(bets, true)
        &&& self.total_bet_amount_short == staked_on(bets, false)
        &&& self.long_positions == count_on(bets, true)
        &&& self.short_positions == count_on(bets, false)
        &&& self.affiliates_for_long_positions == referred_on(bets, true)
        &&& self.affiliates_for_short_positions == referred_on(bets, false)
    }
}

/// A side on which nothing is staked holds no bet, where every bet stakes
/// something.
pub proof fn lemma_empty_side_has_no_bet(bets: Seq<Bet>, is_long: bool)
    requires
        forall|i: int| 0 <= i < bets.len() ==> (#[trigger] bets[i]).amount > 0,
        staked_on(bets, is_long) == 0,
    ensures
        forall|i: int| 0 <= i < bets.len() ==> (#[trigger] bets[i]).is_long != is_long,
        count_on(bets, is_long) == 0,
        referred_on(bets, is_long) == 0,
    decreases bets.len(),
{
    lemma_staked_on_nonnegative(bets, is_long);
    if bets.len() > 0 {
        let rest = bets.drop_last();
        lemma_staked_on_nonnegative(rest, is_long);
        assert(bets.last() == bets[bets.len() - 1]);
        assert forall|i: int| 0 <= i < rest.len() implies (#[trigger] rest[i]).amount > 0 by {
            assert(rest[i] == bets[i]);
        }
        lemma_empty_side_has_no_bet(rest, is_long);
        assert forall|i: int| 0 <= i < bets.len() implies (#[trigger] bets[i]).is_long
            != is_long by {
            if i < rest.len() {
                assert(rest[i] == bets[i]);
            }
        }
    }
}

/// Stakes and counts are never negative, and no more bets on a side are
/// referred than there are bets on it.
pub proof fn lemma_staked_on_nonnegative(bets: Seq<Bet>, is_long: bool)
    ensures
        0 <= staked_on(bets, is_long),
        0 <= referred_on(bets, is_long) <= count_on(bets, is_long) <= bets.len(),
    decreases bets.len(),
{
    if bets.len() > 0 {
        lemma_staked_on_nonnegative(bets.drop_last(), is_long);
    }
}

/// The winners cannot claim more than the winners' pool between them:
/// rounding each payout down keeps their sum, times the winning side's total,
/// within the stakes counted times the pool.
pub proof fn lemma_winner_claims_scaled(round: Round, bets: Seq<Bet>)
    requires
        !round.is_tie(),
        round.winning_total() > 0,
    ensures
        0 <= winner_claims(round, bets),
        winner_claims(round, bets) * round.winning_total() <= staked_on(bets, round.longs_won())
            * round.winners_pool(),
    decreases bets.len(),
{
    let total = round.winning_total();
    let pool = round.winners_pool();
    lemma_share_of_bounds(round.losing_total(), round.allocation.winners_share as int);
    if bets.len() == 0 {
        assert(0 * total <= 0 * pool) by (nonlinear_arith);
    } else {
        let rest = bets.drop_last();
        let bet = bets.last();
        lemma_winner_claims_scaled(round, rest);
        let claims = winner_claims(round, rest);
        let staked = staked_on(rest, round.longs_won());
        if round.side_won(bet.is_long) {
            let stake = bet.amount as int;
            let payout = round.payout_for(stake);
            assert(payout == stake * pool / total);
            assert(0 <= payout && payout * total <= stake * pool) by (nonlinear_arith)
                requires
                    payout == stake * pool / total,
                    total > 0,
                    stake >= 0,
                    pool >= 0,
            ;
            assert((claims + payout) * total <= (staked + stake) * pool) by (nonlinear_arith)
                requires
                    claims * total <= staked * pool,
                    payout * total <= stake * pool,
            ;
        }
    }
}

/// The referrers' claims are the referrer's part once for each referred bet
/// on the winning side.
pub proof fn lemma_affiliate_claims_counted(round: Round, bets: Seq<Bet>)
    requires
        !round.is_tie(),
    ensures
        affiliate_claims(round, bets) == referred_on(bets, round.longs_won())
            * round.affiliate_payout(),
    decreases bets.len(),
{
    let part = round.affiliate_payout();
    if bets.len() == 0 {
        assert(0 * part == 0) by (nonlinear_arith);
    } else {
        let rest = bets.drop_last();
        lemma_affiliate_claims_counted(round, rest);
        let counted = referred_on(rest, round.longs_won());
        assert((counted + 1) * part == counted * part + part) by (nonlinear_arith);
    }
}

/// Where the price has moved, what settlement takes from the losing pool
/// never exceeds it: the platform's fee, the jackpot's contribution, the
/// earnings of all winners and the parts of all referrers, each rounded down
/// and all of them claimed, add up to the losing side's stakes at most. This
/// holds of every round that is settled under an allocation of one whole and
/// whose totals are those of its bets.
pub proof fn lemma_settlement_within_losing_pool(round: Round, bets: Seq<Bet>)
    requires
        !round.is_tie(),
        round.allocation.is_valid(),
        round.records(bets),
    ensures
        0 <= winner_claims(round, bets) <= round.winners_pool(),
        0 <= affiliate_claims(round, bets) <= round.affiliate_pool(),
        round.platform_fee() + round.jackpot_contribution() + winner_claims(round, bets)
            + affiliate_claims(round, bets) <= round.losing_total(),
{
    let losing = round.losing_total();
    let winning = round.winning_total();
    let allocation = round.allocation;
    let winners = allocation.winners_share as int;
    let affiliate = allocation.affiliate_share as int;
    let jackpot = allocation.jackpot_share as int;
    let platform = allocation.platform_share as int;
    let side = round.longs_won();
    lemma_share_of_bounds(losing, winners);
    lemma_share_of_bounds(losing, affiliate);
    lemma_share_of_bounds(losing, jackpot);
    lemma_share_of_bounds(losing, platform);
    lemma_share_of_bounds(losing, 10000);
    lemma_share_of_superadditive(losing, platform, jackpot);
    lemma_share_of_superadditive(losing, winners, affiliate);
    lemma_share_of_superadditive(losing, platform + jackpot, winners + affiliate);
    lemma_staked_on_nonnegative(bets, side);
    lemma_affiliate_claims_counted(round, bets);
    let referred = referred_on(bets, side);
    let part = round.affiliate_payout();
    let pool = round.affiliate_pool();
    assert(referred == round.winning_affiliates());
    assert(0 <= referred * part <= pool) by (nonlinear_arith)
        requires
            referred >= 0,
            pool >= 0,
            part == (if referred == 0 {
                0
            } else {
                pool / referred
            }),
    ;
    if winning == 0 {
        lemma_empty_side_has_no_bet(bets, side);
        lemma_winner_claims_of_losers(round, bets);
    } else {
        lemma_winner_claims_scaled(round, bets);
        let claims = winner_claims(round, bets);
        let prize = round.winners_pool();
        assert(staked_on(bets, side) == winning);
        assert(claims <= prize) by (nonlinear_arith)
            requires
                claims * winning <= winning * prize,
                winning > 0,
        ;
    }
}

/// Bets of which none is on the winning side claim nothing.
pub proof fn lemma_winner_claims_of_losers(round: Round, bets: Seq<Bet>)
    requires
        forall|i: int| 0 <= i < bets.len() ==> !round.side_won((#[trigger] bets[i]).is_long),
    ensures
        winner_claims(round, bets) == 0,
        affiliate_claims(round, bets) == 0,
    decreases bets.len(),
{
    if bets.len() > 0 {
        let rest = bets.drop_last();
        assert(bets.last() == bets[bets.len() - 1]);
        assert forall|i: int| 0 <= i < rest.len() implies !round.side_won(
            (#[trigger] rest[i]).is_long,
        ) by {
            assert(rest[i] == bets[i]);
        }
        lemma_winner_claims_of_losers(round, rest);
    }
}

/// In a tied round nobody can claim, and what goes to the platform and to
/// the jackpot together never exceeds everything staked.
pub proof fn lemma_tie_routes_within_pool(round: Round, bets: Seq<Bet>)
    requires
        round.is_tie(),
        round.allocation.is_valid(),
    ensures
        winner_claims(round, bets) == 0,
        affiliate_claims(round, bets) == 0,
        0 <= round.platform_fee(),
        0 <= round.jackpot_contribution(),
        round.platform_fee() + round.jackpot_contribution() <= round.combined_pool(),
{
    let pool = round.combined_pool();
    let allocation = round.allocation;
    let routed = allocation.jackpot_share + allocation.winners_share + allocation.affiliate_share;
    lemma_winner_claims_of_losers(round, bets);
    lemma_share_of_bounds(pool, allocation.platform_share as int);
    lemma_share_of_bounds(pool, routed);
    lemma_share_of_bounds(pool, 10000);
    lemma_share_of_superadditive(pool, allocation.platform_share as int, routed);
}

/// Where all stakes are on one side and the price has moved, nobody earns
/// anything from the round: the winners' and the affiliates' shares of the
/// losing pool go to the jackpot with the jackpot's own.
pub proof fn lemma_one_sided_pool_goes_to_jackpot(round: Round, bets: Seq<Bet>)
    requires
        !round.is_tie(),
        round.is_one_sided(),
        round.records(bets),
    ensures
        winner_claims(round, bets) == 0,
        affiliate_claims(round, bets) == 0,
        forall|stake: int| 0 <= stake ==> round.payout_for(stake) == 0,
        round.jackpot_contribution() == share_of(
            round.losing_total(),
            round.allocation.jackpot_share as int,
        ) + share_of(
            round.losing_total(),
            round.allocation.winners_share + round.allocation.affiliate_share,
        ),
{
    let side = round.longs_won();
    if round.winning_total() == 0 {
        lemma_empty_side_has_no_bet(bets, side);
        lemma_winner_claims_of_losers(round, bets);
    } else {
        assert(round.losing_total() == 0);
        lemma_share_of_bounds(0, round.allocation.winners_share as int);
        lemma_share_of_bounds(0, round.allocation.affiliate_share as int);
        assert(round.winners_pool() == 0);
        assert(round.affiliate_pool() == 0);
        let total = round.winning_total();
        assert forall|stake: int| 0 <= stake implies round.payout_for(stake) == 0 by {
            assert(stake * 0 / total == 0) by (nonlinear_arith)
                requires
                    total > 0,
            ;
        }
        lemma_winner_claims_scaled(round, bets);
        let claims = winner_claims(round, bets);
        let staked = staked_on(bets, side);
        assert(claims == 0) by (nonlinear_arith)
            requires
                0 <= claims,
                claims * total <= staked * 0,
                total > 0,
        ;
        lemma_affiliate_claims_counted(round, bets);
        let referred = referred_on(bets, side);
        let part = round.affiliate_payout();
        assert(part == 0) by {
            if round.winning_affiliates() != 0 {
                let n = round.winning_affiliates();
                assert(0int / n == 0) by (nonlinear_arith)
                    requires
                        n > 0,
                ;
            }
        }
        assert(referred * 0 == 0) by (nonlinear_arith);
    }
}

/// A bet that is accepted keeps the round in step with its bets: where the
/// round's counts and totals are those of `bets`, the round after the bet
/// stands for `bets` with the new bet at the end. This takes a minimum bet
/// above zero, as every valid configuration has.
pub proof fn lemma_place_bet_keeps_records(
    ctx: PlaceBet,
    amount: u64,
    is_long: bool,
    bets: Seq<Bet>,
)
    requires
        ctx.round.records(bets),
        ctx.platform_config.global_round_info.min_bet_amount > 0,
        ctx.place_bet_error(amount, is_long) is None,
    ensures
        ctx.placed(amount, is_long).round.records(bets.push(ctx.new_bet(amount, is_long))),
        ctx.placed(amount, is_long).user_info.amount + amount == ctx.user_info.amount,
{
    let bet = ctx.new_bet(amount, is_long);
    let all = bets.push(bet);
    assert(all.drop_last() =~= bets);
    assert(all.last() == bet);
    assert forall|i: int| 0 <= i < all.len() implies (#[trigger] all[i]).amount > 0 by {
        if i < bets.len() {
            assert(all[i] == bets[i]);
        }
    }
}

} // verus!
