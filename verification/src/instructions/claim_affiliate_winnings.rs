//! A referrer's claim on a winning bet of a closed round.
use crate::error::ErrorCodes;
use crate::events::AffiliateWinningsClaimed;
use crate::pubkey::Pubkey;
use crate::state::bet::{Bet, ClaimStatus};
use crate::state::round::Round;
use vstd::prelude::*;

verus! {

/// The accounts for a referrer's claim: who claims, the bet claimed against
/// and the round that the bet was placed in.
#[derive(Clone, Copy, Debug, PartialEq, Eq)]
pub struct ClaimAffiliateWinnings {
    /// The bettor whose bet is claimed against.
    pub user: Pubkey,
    /// Who claims.
    pub affiliate: Pubkey,
    pub round: Round,
    pub user_bet: Bet,
}

impl ClaimAffiliateWinnings {
    /// The claimant is the referrer recorded on the bet.
    pub open spec fn is_referrer(self) -> bool {
        self.user_bet.has_affiliate() && self.affiliate == self.user_bet.affiliate
    }

    /// Why the claim is rejected, if it is. The reasons are tried in this
    /// order: the claimant is not the bet's referrer; the round is not
    /// closed; the referrer has claimed against this bet; the bet's side has
    /// not won, which is so for both sides of a tied round; the affiliate
    /// pool exceeds 64 bits; the referrer's part is zero.
    pub open spec fn claim_error(self) -> Option<ErrorCodes> {
        if !self.is_referrer() {
            Some(ErrorCodes::IneligibleForClaim)
        } else if !self.round.is_closed() {
            Some(ErrorCodes::PriceCannotBeZero)
        } else if self.user_bet.has_affiliate_claimed_winnings == ClaimStatus::Claimed {
            Some(ErrorCodes::AlreadyClaimedWinnings)
        } else if !self.round.side_won(self.user_bet.is_long) {
            Some(ErrorCodes::IneligibleForClaim)
        } else if self.round.affiliate_pool() > u64::MAX {
            Some(ErrorCodes::ArithmeticOverflow)
        } else if self.round.affiliate_payout() == 0 {
            Some(ErrorCodes::ClaimAmountZero)
        } else {
            None
        }
    }

    /// The accounts after the claim: the bet is marked claimed by its
    /// referrer.
    pub open spec fn claimed(self) -> ClaimAffiliateWinnings {
        ClaimAffiliateWinnings {
            user_bet: Bet { has_affiliate_claimed_winnings: ClaimStatus::Claimed, ..self.user_bet },
            ..self
        }
    }

    /// Pays the referrer of a winning bet of the round with index
    /// `round_index`: an equal part of the round's affiliate pool for each
    /// referred bet on the winning side, whatever the stakes. The amount of
    /// the event is what the host moves to the referrer. A bet is paid to its
    /// referrer at most once.
    pub fn claim_affiliate_winnings(ctx: &mut ClaimAffiliateWinnings, round_index: u64) -> (claimed:
        Result<AffiliateWinningsClaimed, ErrorCodes>)
        ensures
            match claimed {
                Ok(event) => {
                    &&& old(ctx).claim_error() is None
                    &&& *final(ctx) == old(ctx).claimed()
                    &&& event == (AffiliateWinningsClaimed {
                        affiliate: old(ctx).affiliate,
                        round_index,
                        amount: old(ctx).round.affiliate_payout() as u64,
                    })
                    &&& event.amount > 0
                },
                Err(e) => {
                    &&& old(ctx).claim_error() == Some(e)
                    &&& *final(ctx) == *old(ctx)
                },
            },
            old(ctx).user_bet.has_affiliate_claimed_winnings == ClaimStatus::Claimed
                ==> claimed is Err,
            old(ctx).round.is_tie() ==> claimed is Err,
            final(ctx).round == old(ctx).round,
            old(ctx).user_bet.has_affiliate_claimed_winnings == ClaimStatus::Claimed
                ==> final(ctx).user_bet.has_affiliate_claimed_winnings == ClaimStatus::Claimed,
            final(ctx).user_bet.has_claimed_winnings == old(ctx).user_bet.has_claimed_winnings,
    {
        if ctx.user_bet.affiliate.is_default() || ctx.affiliate != ctx.user_bet.affiliate {
            return Err(ErrorCodes::IneligibleForClaim);
        }
        if !(ctx.round.ending_price != 0) {
            return Err(ErrorCodes::PriceCannotBeZero);
        }
        if ctx.user_bet.has_affiliate_claimed_winnings.is_claimed() {
            return Err(ErrorCodes::AlreadyClaimedWinnings);
        }
        let have_longs_won = ctx.round.have_longs_won();
        if !(ctx.round.ending_price != ctx.round.starting_price && ((have_longs_won
            && ctx.user_bet.is_long) || (!have_longs_won && !ctx.user_bet.is_long))) {
            return Err(ErrorCodes::IneligibleForClaim);
        }
        let amount: u64 = match ctx.round.affiliate_share() {
            Some(amount) => amount,
            None => {
                return Err(ErrorCodes::ArithmeticOverflow);
            },
        };
        if !(amount > 0) {
            return Err(ErrorCodes::ClaimAmountZero);
        }
        ctx.user_bet.has_affiliate_claimed_winnings = ClaimStatus::Claimed;
        Ok(AffiliateWinningsClaimed { affiliate: ctx.affiliate, round_index, amount })
    }
}

/// A referrer is paid once for a bet. After `claim_affiliate_winnings` has
/// succeeded on a bet, the same claim on that bet is rejected as already
/// claimed; and a rejected call changes nothing.
pub proof fn lemma_affiliate_claim_only_once(
    ctx: ClaimAffiliateWinnings,
    again: ClaimAffiliateWinnings,
)
    requires
        ctx.claim_error() is None,
        again.user_bet == ctx.claimed().user_bet,
        again.round == ctx.round,
        again.affiliate == ctx.affiliate,
    ensures
        again.claim_error() == Some(ErrorCodes::AlreadyClaimedWinnings),
{
}

/// A tied round has no winner: a referrer's claim on it is rejected for a
/// bet on either side.
pub proof fn lemma_tie_admits_no_affiliate_claim(ctx: ClaimAffiliateWinnings)
    requires
        ctx.round.is_tie(),
    ensures
        ctx.claim_error() is Some,
{
}

} // verus!
