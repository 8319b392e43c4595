//! Naming the referrer of a participant.
use crate::error::ErrorCodes;
use crate::events::AffiliateSet;
use crate::pubkey::Pubkey;
use crate::state::user_info::UserInfo;
use vstd::prelude::*;

verus! {

/// The address bumps that the host found for the accounts of `SetAffiliate`.
#[derive(Clone, Copy, Debug, PartialEq, Eq, Structural)]
pub struct SetAffiliateBumps {
    pub user_info: u8,
}

/// The accounts for naming a referrer: the participant and their record.
#[derive(Clone, Copy, Debug, PartialEq, Eq)]
pub struct SetAffiliate {
    pub user: Pubkey,
    pub user_info: UserInfo,
    pub bumps: SetAffiliateBumps,
}

impl SetAffiliate {
    /// The accounts after `affiliate` has been named: the record holds the
    /// referrer, and a record without a bump has got the one that the host
    /// found.
    pub open spec fn with_affiliate(self, affiliate: Pubkey) -> SetAffiliate {
        SetAffiliate {
            user_info: UserInfo {
                affiliate,
                bump: if self.user_info.bump == 0 {
                    self.bumps.user_info
                } else {
                    self.user_info.bump
                },
                ..self.user_info
            },
            ..self
        }
    }

    /// Makes `affiliate` the participant's referrer, for the bets placed
    /// from now on. Nobody refers themselves: naming oneself is rejected.
    pub fn set_affiliate(ctx: &mut SetAffiliate, affiliate: Pubkey) -> (set: Result<
        AffiliateSet,
        ErrorCodes,
    >)
        ensures
            match set {
                Ok(event) => {
                    &&& affiliate != old(ctx).user
                    &&& *final(ctx) == old(ctx).with_affiliate(affiliate)
                    &&& event == (AffiliateSet { user: old(ctx).user, affiliate })
                },
                Err(e) => {
                    &&& affiliate == old(ctx).user
                    &&& e == ErrorCodes::InvalidAffiliate
                    &&& *final(ctx) == *old(ctx)
                },
            },
    {
        let mut user_info = ctx.user_info;
        user_info.affiliate = affiliate;
        if user_info.bump == 0 {
            user_info.bump = ctx.bumps.user_info;
        }
        match user_info.validate_affiliate(&ctx.user) {
            Err(e) => {
                return Err(e);
            },
            Ok(()) => {},
        }
        ctx.user_info = user_info;
        Ok(AffiliateSet { user: ctx.user, affiliate })
    }
}

} // verus!
