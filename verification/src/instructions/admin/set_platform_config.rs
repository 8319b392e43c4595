//! Changing one parameter of the configuration at a time.
use crate::error::ErrorCodes;
use crate::events::{
    AllocationSet, DurationSet, JackPotAllocationSet, MinBetAmountSet, PriceAccountSet,
    StalenessThresholdSet,
};
use crate::pubkey::Pubkey;
use crate::state::platform_config::{Allocation, GlobalRoundInfo, JackPotAllocation, PlatformConfig};
use vstd::prelude::*;

verus! {

/// The accounts for changing the configuration: the owner and the
/// configuration record.
#[derive(Clone, Copy, Debug, PartialEq, Eq)]
pub struct SetPlatformConfig {
    pub owner: Pubkey,
    pub platform_config: PlatformConfig,
}

impl SetPlatformConfig {
    /// These accounts with `info` as the parameters of the configuration.
    pub open spec fn with_info(self, info: GlobalRoundInfo) -> SetPlatformConfig {
        SetPlatformConfig {
            platform_config: PlatformConfig { global_round_info: info, ..self.platform_config },
            ..self
        }
    }

    /// Sets the least duration of a round, which must not be zero.
    pub fn set_duration(ctx: &mut SetPlatformConfig, duration: u64) -> (set: Result<
        DurationSet,
        ErrorCodes,
    >)
        ensures
            match set {
                Ok(event) => {
                    &&& duration > 0
                    &&& *final(ctx) == old(ctx).with_info(
                        GlobalRoundInfo { duration, ..old(ctx).platform_config.global_round_info },
                    )
                    &&& event == (DurationSet { duration })
                },
                Err(e) => {
                    &&& duration == 0
                    &&& e == ErrorCodes::DurationZero
                    &&& *final(ctx) == *old(ctx)
                },
            },
            old(ctx).platform_config.is_valid() ==> final(ctx).platform_config.is_valid(),
    {
        let mut platform_config = ctx.platform_config;
        platform_config.global_round_info.duration = duration;
        match platform_config.validate_duration() {
            Err(e) => {
                return Err(e);
            },
            Ok(()) => {},
        }
        ctx.platform_config = platform_config;
        Ok(DurationSet { duration })
    }

    /// Sets how a losing pool is divided. An allocation whose four shares do
    /// not add up to one whole is rejected.
    pub fn set_allocation(ctx: &mut SetPlatformConfig, allocation: Allocation) -> (set: Result<
        AllocationSet,
        ErrorCodes,
    >)
        ensures
            match set {
                Ok(event) => {
                    &&& allocation.is_valid()
                    &&& *final(ctx) == old(ctx).with_info(
                        GlobalRoundInfo { allocation, ..old(ctx).platform_config.global_round_info },
                    )
                    &&& event == (AllocationSet { allocation })
                },
                Err(e) => {
                    &&& !allocation.is_valid()
                    &&& e == ErrorCodes::InvalidAllocation
                    &&& *final(ctx) == *old(ctx)
                },
            },
            old(ctx).platform_config.is_valid() ==> final(ctx).platform_config.is_valid(),
    {
        let mut platform_config = ctx.platform_config;
        platform_config.global_round_info.allocation = allocation;
        match platform_config.validate_allocation() {
            Err(e) => {
                return Err(e);
            },
            Ok(()) => {},
        }
        ctx.platform_config = platform_config;
        Ok(AllocationSet { allocation })
    }

    /// Sets what each winning streak is paid from the jackpot pool. A share
    /// above one whole is rejected, and so are shares that do not increase
    /// strictly with the length of the streak.
    pub fn set_jackpot_allocation(
        ctx: &mut SetPlatformConfig,
        jackpot_allocation: JackPotAllocation,
    ) -> (set: Result<JackPotAllocationSet, ErrorCodes>)
        ensures
            match set {
                Ok(event) => {
                    &&& jackpot_allocation.is_valid()
                    &&& *final(ctx) == old(ctx).with_info(
                        GlobalRoundInfo {
                            jackpot_allocation,
                            ..old(ctx).platform_config.global_round_info
                        },
                    )
                    &&& event == (JackPotAllocationSet { jackpot_allocation })
                },
                Err(e) => {
                    &&& !jackpot_allocation.is_valid()
                    &&& e == (if !jackpot_allocation.within_max() {
                        ErrorCodes::ExceedsMaxFee
                    } else {
                        ErrorCodes::InvalidJackPotAllocation
                    })
                    &&& *final(ctx) == *old(ctx)
                },
            },
            old(ctx).platform_config.is_valid() ==> final(ctx).platform_config.is_valid(),
    {
        let mut platform_config = ctx.platform_config;
        platform_config.global_round_info.jackpot_allocation = jackpot_allocation;
        match platform_config.validate_jackpot_allocation() {
            Err(e) => {
                return Err(e);
            },
            Ok(()) => {},
        }
        ctx.platform_config = platform_config;
        Ok(JackPotAllocationSet { jackpot_allocation })
    }

    /// Sets the least stake of a bet, which must not be zero.
    pub fn set_min_bet_amount(ctx: &mut SetPlatformConfig, min_bet_amount: u64) -> (set: Result<
        MinBetAmountSet,
        ErrorCodes,
    >)
        ensures
            match set {
                Ok(event) => {
                    &&& min_bet_amount > 0
                    &&& *final(ctx) == old(ctx).with_info(
                        GlobalRoundInfo {
                            min_bet_amount,
                            ..old(ctx).platform_config.global_round_info
                        },
                    )
                    &&& event == (MinBetAmountSet { min_bet_amount })
                },
                Err(e) => {
                    &&& min_bet_amount == 0
                    &&& e == ErrorCodes::MinBetAmountZero
                    &&& *final(ctx) == *old(ctx)
                },
            },
            old(ctx).platform_config.is_valid() ==> final(ctx).platform_config.is_valid(),
    {
        let mut platform_config = ctx.platform_config;
        platform_config.global_round_info.min_bet_amount = min_bet_amount;
        match platform_config.validate_min_bet_amount() {
            Err(e) => {
                return Err(e);
            },
            Ok(()) => {},
        }
        ctx.platform_config = platform_config;
        Ok(MinBetAmountSet { min_bet_amount })
    }

    /// Sets the oracle account that the reference price is read from, which
    /// must not be the identity that stands for "none".
    pub fn set_price_account(ctx: &mut SetPlatformConfig, price_account: Pubkey) -> (set: Result<
        PriceAccountSet,
        ErrorCodes,
    >)
        ensures
            match set {
                Ok(event) => {
                    &&& !price_account.is_default()
                    &&& *final(ctx) == old(ctx).with_info(
                        GlobalRoundInfo {
                            price_account,
                            ..old(ctx).platform_config.global_round_info
                        },
                    )
                    &&& event == (PriceAccountSet { price_account })
                },
                Err(e) => {
                    &&& price_account.is_default()
                    &&& e == ErrorCodes::PriceAccountDefaultPubkey
                    &&& *final(ctx) == *old(ctx)
                },
            },
            old(ctx).platform_config.is_valid() ==> final(ctx).platform_config.is_valid(),
    {
        let mut platform_config = ctx.platform_config;
        platform_config.global_round_info.price_account = price_account;
        match platform_config.validate_price_account() {
            Err(e) => {
                return Err(e);
            },
            Ok(()) => {},
        }
        ctx.platform_config = platform_config;
        Ok(PriceAccountSet { price_account })
    }

    /// Sets the greatest age, in seconds, at which a published price still
    /// counts. Every value is accepted.
    pub fn set_staleness_threshold(ctx: &mut SetPlatformConfig, staleness_threshold: u64) -> (set:
        Result<StalenessThresholdSet, ErrorCodes>)
        ensures
            set == Ok::<StalenessThresholdSet, ErrorCodes>(
                StalenessThresholdSet { staleness_threshold },
            ),
            *final(ctx) == old(ctx).with_info(
                GlobalRoundInfo {
                    staleness_threshold,
                    ..old(ctx).platform_config.global_round_info
                },
            ),
            old(ctx).platform_config.is_valid() ==> final(ctx).platform_config.is_valid(),
    {
        ctx.platform_config.global_round_info.staleness_threshold = staleness_threshold;
        Ok(StalenessThresholdSet { staleness_threshold })
    }
}

} // verus!
