use bearish_dot_fun::error::ErrorCodes;
use bearish_dot_fun::events::{
    AllocationSet, CollectedPlatformFees, DurationSet, Initialized, JackPotAllocationSet,
    MinBetAmountSet, OwnershipTransferred, PriceAccountSet, StalenessThresholdSet,
};
use bearish_dot_fun::instructions::admin::set_platform_config::SetPlatformConfig;
use bearish_dot_fun::instructions::admin::transfer_ownership::TransferOwnership;
use bearish_dot_fun::instructions::admin::withdraw_platform_fees::WithdrawPlatformFees;
use bearish_dot_fun::instructions::initialize::{Initialize, InitializeBumps};
use bearish_dot_fun::pubkey::Pubkey;
use bearish_dot_fun::state::platform_config::{
    Allocation, GlobalRoundInfo, JackPotAllocation, PlatformConfig,
};

fn key(n: u8) -> Pubkey {
    Pubkey::new_from_array([n; 32])
}

fn allocation(winners: u16, affiliate: u16, jackpot: u16, platform: u16) -> Allocation {
    Allocation {
        winners_share: winners,
        affiliate_share: affiliate,
        jackpot_share: jackpot,
        platform_share: platform,
    }
}

fn streaks(s: [u16; 6]) -> JackPotAllocation {
    JackPotAllocation {
        streak_5: s[0],
        streak_6: s[1],
        streak_7: s[2],
        streak_8: s[3],
        streak_9: s[4],
        streak_10: s[5],
    }
}

fn info() -> GlobalRoundInfo {
    GlobalRoundInfo {
        round: 0,
        duration: 300,
        allocation: allocation(7000, 1000, 1000, 1000),
        jackpot_allocation: streaks([500, 1000, 2000, 3000, 4000, 5000]),
        min_bet_amount: 10,
        price_account: key(9),
        staleness_threshold: 60,
        jackpot_pool_amount: 0,
        accumulated_platform_fees: 0,
    }
}

fn blank_config() -> PlatformConfig {
    PlatformConfig {
        owner: Pubkey::default(),
        stablecoin: Pubkey::default(),
        global_round_info: GlobalRoundInfo {
            round: 0,
            duration: 0,
            allocation: Allocation::default(),
            jackpot_allocation: JackPotAllocation::default(),
            min_bet_amount: 0,
            price_account: Pubkey::default(),
            staleness_threshold: 0,
            jackpot_pool_amount: 0,
            accumulated_platform_fees: 0,
        },
        bump: 0,
        platform_vault_bump: 0,
    }
}

fn config() -> PlatformConfig {
    PlatformConfig {
        owner: key(1),
        stablecoin: key(2),
        global_round_info: info(),
        bump: 254,
        platform_vault_bump: 253,
    }
}

fn fresh() -> Initialize {
    Initialize {
        owner: key(1),
        stablecoin: key(2),
        platform_vault: key(3),
        platform_config: blank_config(),
        bumps: InitializeBumps { platform_config: 254, platform_vault: 253 },
    }
}

fn with_info(info: GlobalRoundInfo) -> PlatformConfig {
    PlatformConfig { global_round_info: info, ..config() }
}

#[test]
fn initialize_fills_the_configuration() {
    let mut ctx = fresh();
    let event = Initialize::initialize(&mut ctx, info());
    assert_eq!(
        event,
        Ok(Initialized {
            owner: key(1),
            stablecoin: key(2),
            platform_vault: key(3),
            global_round_info: info(),
        })
    );
    assert_eq!(ctx.platform_config, config());
}

#[test]
fn initialize_starts_the_counters_at_zero() {
    let mut ctx = fresh();
    let given = GlobalRoundInfo {
        round: 17,
        jackpot_pool_amount: 1_000_000,
        accumulated_platform_fees: 55,
        ..info()
    };
    let event = Initialize::initialize(&mut ctx, given).unwrap();
    assert_eq!(event.global_round_info, given);
    assert_eq!(ctx.platform_config.global_round_info, info());
    assert_eq!(ctx.platform_config.global_round_info.round, 0);
    assert_eq!(ctx.platform_config.global_round_info.jackpot_pool_amount, 0);
    assert_eq!(ctx.platform_config.global_round_info.accumulated_platform_fees, 0);
}

#[test]
fn initialize_rejects_each_broken_rule_and_keeps_the_record() {
    let cases = vec![
        (GlobalRoundInfo { duration: 0, ..info() }, ErrorCodes::DurationZero),
        (
            GlobalRoundInfo { allocation: allocation(7000, 1000, 1000, 999), ..info() },
            ErrorCodes::InvalidAllocation,
        ),
        (
            GlobalRoundInfo {
                jackpot_allocation: streaks([500, 1000, 2000, 3000, 4000, 10_001]),
                ..info()
            },
            ErrorCodes::ExceedsMaxFee,
        ),
        (
            GlobalRoundInfo {
                jackpot_allocation: streaks([500, 1000, 2000, 2000, 4000, 5000]),
                ..info()
            },
            ErrorCodes::InvalidJackPotAllocation,
        ),
        (
            GlobalRoundInfo { price_account: Pubkey::default(), ..info() },
            ErrorCodes::PriceAccountDefaultPubkey,
        ),
        (GlobalRoundInfo { min_bet_amount: 0, ..info() }, ErrorCodes::MinBetAmountZero),
    ];
    for (given, error) in cases {
        let mut ctx = fresh();
        assert_eq!(Initialize::initialize(&mut ctx, given), Err(error));
        assert_eq!(ctx, fresh());
    }
}

#[test]
fn initialize_reports_the_first_broken_rule() {
    let mut ctx = fresh();
    let given = GlobalRoundInfo {
        duration: 0,
        allocation: allocation(1, 1, 1, 1),
        min_bet_amount: 0,
        ..info()
    };
    assert_eq!(Initialize::initialize(&mut ctx, given), Err(ErrorCodes::DurationZero));
    let given = GlobalRoundInfo {
        allocation: allocation(1, 1, 1, 1),
        price_account: Pubkey::default(),
        ..info()
    };
    assert_eq!(Initialize::initialize(&mut ctx, given), Err(ErrorCodes::InvalidAllocation));
}

#[test]
fn allocation_must_add_up_to_one_whole() {
    assert_eq!(with_info(info()).validate_allocation(), Ok(()));
    for shares in [
        allocation(10_000, 0, 0, 0),
        allocation(0, 0, 0, 10_000),
        allocation(2500, 2500, 2500, 2500),
        allocation(1, 2, 3, 9994),
    ] {
        let config = with_info(GlobalRoundInfo { allocation: shares, ..info() });
        assert_eq!(config.validate_allocation(), Ok(()));
    }
    for shares in [
        allocation(0, 0, 0, 0),
        allocation(7000, 1000, 1000, 999),
        allocation(7000, 1000, 1000, 1001),
        allocation(10_000, 10_000, 0, 0),
    ] {
        let config = with_info(GlobalRoundInfo { allocation: shares, ..info() });
        assert_eq!(config.validate_allocation(), Err(ErrorCodes::InvalidAllocation));
    }
}

#[test]
fn allocation_too_large_to_add_in_sixteen_bits_is_rejected() {
    for shares in [
        allocation(u16::MAX, u16::MAX, u16::MAX, u16::MAX),
        allocation(u16::MAX, 1, 0, 0),
        allocation(40_000, 35_536, 0, 0),
        allocation(65_535, 10_001, 0, 0),
    ] {
        let config = with_info(GlobalRoundInfo { allocation: shares, ..info() });
        assert_eq!(config.validate_allocation(), Err(ErrorCodes::InvalidAllocation));
    }
}

#[test]
fn jackpot_allocation_is_capped_and_strictly_increasing() {
    let check = |s: [u16; 6]| {
        with_info(GlobalRoundInfo { jackpot_allocation: streaks(s), ..info() })
            .validate_jackpot_allocation()
    };
    assert_eq!(check([0, 1, 2, 3, 4, 5]), Ok(()));
    assert_eq!(check([500, 1000, 2000, 3000, 4000, 10_000]), Ok(()));
    assert_eq!(check([10_001, 1000, 2000, 3000, 4000, 5000]), Err(ErrorCodes::ExceedsMaxFee));
    assert_eq!(check([500, 1000, 2000, 3000, 4000, 10_001]), Err(ErrorCodes::ExceedsMaxFee));
    assert_eq!(check([5, 4, 3, 2, 1, 10_001]), Err(ErrorCodes::ExceedsMaxFee));
    assert_eq!(check([0, 0, 2, 3, 4, 5]), Err(ErrorCodes::InvalidJackPotAllocation));
    assert_eq!(check([0, 1, 2, 3, 5, 5]), Err(ErrorCodes::InvalidJackPotAllocation));
    assert_eq!(check([6, 5, 4, 3, 2, 1]), Err(ErrorCodes::InvalidJackPotAllocation));
    assert_eq!(check([0, 0, 0, 0, 0, 0]), Err(ErrorCodes::InvalidJackPotAllocation));
}

#[test]
fn single_validators_accept_and_reject() {
    assert_eq!(config().validate_duration(), Ok(()));
    assert_eq!(config().validate_price_account(), Ok(()));
    assert_eq!(config().validate_min_bet_amount(), Ok(()));
    assert_eq!(config().validate(), Ok(()));
    assert_eq!(blank_config().validate_duration(), Err(ErrorCodes::DurationZero));
    assert_eq!(
        blank_config().validate_price_account(),
        Err(ErrorCodes::PriceAccountDefaultPubkey)
    );
    assert_eq!(blank_config().validate_min_bet_amount(), Err(ErrorCodes::MinBetAmountZero));
    assert_eq!(blank_config().validate(), Err(ErrorCodes::DurationZero));
}

#[test]
fn streak_share_is_configured_for_five_to_ten_wins() {
    let shares = streaks([500, 1000, 2000, 3000, 4000, 5000]);
    assert_eq!(shares.streak_share(0), 0);
    assert_eq!(shares.streak_share(4), 0);
    assert_eq!(shares.streak_share(5), 500);
    assert_eq!(shares.streak_share(6), 1000);
    assert_eq!(shares.streak_share(7), 2000);
    assert_eq!(shares.streak_share(8), 3000);
    assert_eq!(shares.streak_share(9), 4000);
    assert_eq!(shares.streak_share(10), 5000);
    assert_eq!(shares.streak_share(11), 0);
    assert_eq!(shares.streak_share(u64::MAX), 0);
}

fn setter() -> SetPlatformConfig {
    SetPlatformConfig { owner: key(1), platform_config: config() }
}

#[test]
fn set_duration_changes_only_the_duration() {
    let mut ctx = setter();
    assert_eq!(SetPlatformConfig::set_duration(&mut ctx, 900), Ok(DurationSet { duration: 900 }));
    assert_eq!(
        ctx.platform_config,
        with_info(GlobalRoundInfo { duration: 900, ..info() })
    );
    assert_eq!(SetPlatformConfig::set_duration(&mut ctx, 0), Err(ErrorCodes::DurationZero));
    assert_eq!(ctx.platform_config.global_round_info.duration, 900);
}

#[test]
fn set_allocation_rejects_any_other_sum() {
    let mut ctx = setter();
    let shares = allocation(6000, 2000, 1500, 500);
    assert_eq!(
        SetPlatformConfig::set_allocation(&mut ctx, shares),
        Ok(AllocationSet { allocation: shares })
    );
    assert_eq!(ctx.platform_config.global_round_info.allocation, shares);
    for bad in [allocation(6000, 2000, 1500, 501), allocation(6000, 2000, 1500, 499)] {
        assert_eq!(
            SetPlatformConfig::set_allocation(&mut ctx, bad),
            Err(ErrorCodes::InvalidAllocation)
        );
        assert_eq!(
            ctx.platform_config,
            with_info(GlobalRoundInfo { allocation: shares, ..info() })
        );
    }
}

#[test]
fn set_jackpot_allocation_rejects_bad_shapes() {
    let mut ctx = setter();
    let shares = streaks([1, 2, 3, 4, 5, 6]);
    assert_eq!(
        SetPlatformConfig::set_jackpot_allocation(&mut ctx, shares),
        Ok(JackPotAllocationSet { jackpot_allocation: shares })
    );
    assert_eq!(ctx.platform_config.global_round_info.jackpot_allocation, shares);
    assert_eq!(
        SetPlatformConfig::set_jackpot_allocation(&mut ctx, streaks([1, 2, 3, 4, 5, 10_001])),
        Err(ErrorCodes::ExceedsMaxFee)
    );
    assert_eq!(
        SetPlatformConfig::set_jackpot_allocation(&mut ctx, streaks([1, 2, 3, 4, 5, 5])),
        Err(ErrorCodes::InvalidJackPotAllocation)
    );
    assert_eq!(ctx.platform_config.global_round_info.jackpot_allocation, shares);
}

#[test]
fn set_min_bet_amount_rejects_zero() {
    let mut ctx = setter();
    assert_eq!(
        SetPlatformConfig::set_min_bet_amount(&mut ctx, 25),
        Ok(MinBetAmountSet { min_bet_amount: 25 })
    );
    assert_eq!(ctx.platform_config.global_round_info.min_bet_amount, 25);
    assert_eq!(
        SetPlatformConfig::set_min_bet_amount(&mut ctx, 0),
        Err(ErrorCodes::MinBetAmountZero)
    );
    assert_eq!(ctx.platform_config.global_round_info.min_bet_amount, 25);
}

#[test]
fn set_price_account_rejects_the_default_identity() {
    let mut ctx = setter();
    assert_eq!(
        SetPlatformConfig::set_price_account(&mut ctx, key(77)),
        Ok(PriceAccountSet { price_account: key(77) })
    );
    assert_eq!(ctx.platform_config.global_round_info.price_account, key(77));
    assert_eq!(
        SetPlatformConfig::set_price_account(&mut ctx, Pubkey::default()),
        Err(ErrorCodes::PriceAccountDefaultPubkey)
    );
    assert_eq!(ctx.platform_config.global_round_info.price_account, key(77));
}

#[test]
fn set_staleness_threshold_takes_any_value() {
    let mut ctx = setter();
    for value in [0, 1, u64::MAX] {
        assert_eq!(
            SetPlatformConfig::set_staleness_threshold(&mut ctx, value),
            Ok(StalenessThresholdSet { staleness_threshold: value })
        );
        assert_eq!(
            ctx.platform_config,
            with_info(GlobalRoundInfo { staleness_threshold: value, ..info() })
        );
    }
}

#[test]
fn transfer_ownership_names_the_new_owner() {
    let mut ctx =
        TransferOwnership { owner: key(1), new_owner: key(8), platform_config: config() };
    assert_eq!(
        TransferOwnership::transfer_ownership(&mut ctx),
        Ok(OwnershipTransferred { owner: key(1), new_owner: key(8) })
    );
    assert_eq!(ctx.platform_config, PlatformConfig { owner: key(8), ..config() });
}

#[test]
fn withdraw_platform_fees_takes_everything_once() {
    let mut ctx = WithdrawPlatformFees {
        owner: key(1),
        platform_config: with_info(GlobalRoundInfo {
            accumulated_platform_fees: 1234,
            jackpot_pool_amount: 99,
            ..info()
        }),
    };
    assert_eq!(
        WithdrawPlatformFees::withdraw_platform_fees(&mut ctx),
        Ok(CollectedPlatformFees { owner: key(1), amount: 1234 })
    );
    assert_eq!(ctx.platform_config.global_round_info.accumulated_platform_fees, 0);
    assert_eq!(ctx.platform_config.global_round_info.jackpot_pool_amount, 99);
    let after = ctx;
    assert_eq!(
        WithdrawPlatformFees::withdraw_platform_fees(&mut ctx),
        Err(ErrorCodes::PlatformFeeAmountZero)
    );
    assert_eq!(ctx, after);
}
