//! Collecting the fees that settlement has set aside for the platform.
use crate::error::ErrorCodes;
use crate::events::CollectedPlatformFees;
use crate::pubkey::Pubkey;
use crate::state::platform_config::{GlobalRoundInfo, PlatformConfig};
use vstd::prelude::*;

verus! {

/// The accounts for collecting the fees: the owner and the configuration
/// record.
#[derive(Clone, Copy, Debug, PartialEq, Eq)]
pub struct WithdrawPlatformFees {
    pub owner: Pubkey,
    pub platform_config: PlatformConfig,
}

impl WithdrawPlatformFees {
    /// The accounts after the fees have been collected: none are left.
    pub open spec fn collected(self) -> WithdrawPlatformFees {
        WithdrawPlatformFees {
            platform_config: PlatformConfig {
                global_round_info: GlobalRoundInfo {
                    accumulated_platform_fees: 0,
                    ..self.platform_config.global_round_info
                },
                ..self.platform_config
            },
            ..self
        }
    }

    /// Collects all accumulated fees at once: the balance goes to zero, and
    /// the event tells the host to move what it held to the owner. With no
    /// fees to collect the operation is rejected.
    pub fn withdraw_platform_fees(ctx: &mut WithdrawPlatformFees) -> (collected: Result<
        CollectedPlatformFees,
        ErrorCodes,
    >)
        ensures
            match collected {
                Ok(event) => {
                    &&& old(ctx).platform_config.global_round_info.accumulated_platform_fees > 0
                    &&& *final(ctx) == old(ctx).collected()
                    &&& event == (CollectedPlatformFees {
                        owner: old(ctx).owner,
                        amount: old(ctx).platform_config.global_round_info.accumulated_platform_fees,
                    })
                },
                Err(e) => {
                    &&& old(ctx).platform_config.global_round_info.accumulated_platform_fees == 0
                    &&& e == ErrorCodes::PlatformFeeAmountZero
                    &&& *final(ctx) == *old(ctx)
                },
            },
            final(ctx).platform_config.global_round_info.accumulated_platform_fees == 0,
            old(ctx).platform_config.is_valid() ==> final(ctx).platform_config.is_valid(),
    {
        let accumulated_platform_fees = ctx.platform_config.global_round_info.accumulated_platform_fees;
        if !(accumulated_platform_fees > 0) {
            return Err(ErrorCodes::PlatformFeeAmountZero);
        }
        ctx.platform_config.global_round_info.accumulated_platform_fees = 0;
        Ok(CollectedPlatformFees { owner: ctx.owner, amount: accumulated_platform_fees })
    }
}

} // verus!
