//! Setting the platform up.
use crate::error::ErrorCodes;
use crate::events::Initialized;
use crate::pubkey::Pubkey;
use crate::state::platform_config::{GlobalRoundInfo, PlatformConfig};
use vstd::prelude::*;

verus! {

/// The address bumps that the host found for the accounts of `Initialize`.
#[derive(Clone, Copy, Debug, PartialEq, Eq, Structural)]
pub struct InitializeBumps {
    pub platform_config: u8,
    pub platform_vault: u8,
}

/// The accounts for setting the platform up: who will own it, the token it
/// works with, the vault that holds the tokens in custody, and the
/// configuration record to fill.
#[derive(Clone, Copy, Debug, PartialEq, Eq)]
pub struct Initialize {
    pub owner: Pubkey,
    pub stablecoin: Pubkey,
    pub platform_vault: Pubkey,
    pub platform_config: PlatformConfig,
    pub bumps: InitializeBumps,
}

impl Initialize {
    /// The accounts after the platform has been set up with
    /// `global_round_info`.
    pub open spec fn initialized(self, global_round_info: GlobalRoundInfo) -> Initialize {
        Initialize {
            platform_config: PlatformConfig {
                owner: self.owner,
                stablecoin: self.stablecoin,
                global_round_info: global_round_info.at_start(),
                bump: self.bumps.platform_config,
                platform_vault_bump: self.bumps.platform_vault,
            },
            ..self
        }
    }

    /// Fills the configuration record: the owner, the token and the given
    /// parameters, with the round counter and both running balances at zero
    /// whatever `global_round_info` holds for them. Parameters that break a
    /// rule are rejected, with the first rule broken as the reason.
    pub fn initialize(ctx: &mut Initialize, global_round_info: GlobalRoundInfo) -> (initialized:
        Result<Initialized, ErrorCodes>)
        ensures
            match initialized {
                Ok(event) => {
                    &&& global_round_info.is_valid()
                    &&& *final(ctx) == old(ctx).initialized(global_round_info)
                    &&& event == (Initialized {
                        owner: old(ctx).owner,
                        stablecoin: old(ctx).stablecoin,
                        platform_vault: old(ctx).platform_vault,
                        global_round_info,
                    })
                    &&& final(ctx).platform_config.is_valid()
                },
                Err(e) => {
                    &&& global_round_info.broken_rule() == Some(e)
                    &&& *final(ctx) == *old(ctx)
                },
            },
    {
        let mut platform_config = PlatformConfig {
            owner: ctx.owner,
            stablecoin: ctx.stablecoin,
            global_round_info,
            bump: ctx.bumps.platform_config,
            platform_vault_bump: ctx.bumps.platform_vault,
        };
        platform_config.global_round_info.round = 0;
        platform_config.global_round_info.jackpot_pool_amount = 0;
        platform_config.global_round_info.accumulated_platform_fees = 0;
        match platform_config.validate() {
            Err(e) => {
                return Err(e);
            },
            Ok(()) => {},
        }
        ctx.platform_config = platform_config;
        Ok(
            Initialized {
                owner: ctx.owner,
                stablecoin: ctx.stablecoin,
                platform_vault: ctx.platform_vault,
                global_round_info,
            },
        )
    }
}

} // verus!
