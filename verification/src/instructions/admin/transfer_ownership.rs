//! Handing the platform to a new owner.
use crate::error::ErrorCodes;
use crate::events::OwnershipTransferred;
use crate::pubkey::Pubkey;
use crate::state::platform_config::PlatformConfig;
use vstd::prelude::*;

verus! {

/// The accounts for a change of owner: the owner, who takes over, and the
/// configuration record.
#[derive(Clone, Copy, Debug, PartialEq, Eq)]
pub struct TransferOwnership {
    pub owner: Pubkey,
    pub new_owner: Pubkey,
    pub platform_config: PlatformConfig,
}

impl TransferOwnership {
    /// Makes `new_owner` the owner of the platform. It always succeeds.
    pub fn transfer_ownership(ctx: &mut TransferOwnership) -> (transferred: Result<
        OwnershipTransferred,
        ErrorCodes,
    >)
        ensures
            transferred == Ok::<OwnershipTransferred, ErrorCodes>(
                OwnershipTransferred { owner: old(ctx).owner, new_owner: old(ctx).new_owner },
            ),
            *final(ctx) == (TransferOwnership {
                platform_config: PlatformConfig {
                    owner: old(ctx).new_owner,
                    ..old(ctx).platform_config
                },
                ..*old(ctx)
            }),
            old(ctx).platform_config.is_valid() ==> final(ctx).platform_config.is_valid(),
    {
        ctx.platform_config.owner = ctx.new_owner;
        Ok(OwnershipTransferred { owner: ctx.owner, new_owner: ctx.new_owner })
    }
}

} // verus!
