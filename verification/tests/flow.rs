use bearish_dot_fun::{
    Allocation, Bet, ClaimAffiliateWinnings, ClaimUserWinnings, DepositAndWithdraw,
    DepositAndWithdrawBumps, ErrorCodes, GlobalRoundInfo, Initialize, InitializeBumps,
    JackPotAllocation, OraclePrice, PlaceBet, PlaceBetBumps, PlatformConfig, Pubkey, Round,
    RunRound, RunRoundBumps, SetAffiliate, SetAffiliateBumps, SetPlatformConfig, UserInfo,
    WithdrawPlatformFees,
};

fn key(n: u8) -> Pubkey {
    Pubkey::new_from_array([n; 32])
}

fn set_up() -> PlatformConfig {
    let blank = GlobalRoundInfo {
        round: 0,
        duration: 0,
        allocation: Allocation::default(),
        jackpot_allocation: JackPotAllocation::default(),
        min_bet_amount: 0,
        price_account: Pubkey::default(),
        staleness_threshold: 0,
        jackpot_pool_amount: 0,
        accumulated_platform_fees: 0,
    };
    let mut ctx = Initialize {
        owner: key(1),
        stablecoin: key(2),
        platform_vault: key(3),
        platform_config: PlatformConfig {
            owner: Pubkey::default(),
            stablecoin: Pubkey::default(),
            global_round_info: blank,
            bump: 0,
            platform_vault_bump: 0,
        },
        bumps: InitializeBumps { platform_config: 255, platform_vault: 254 },
    };
    let info = GlobalRoundInfo {
        duration: 300,
        allocation: Allocation {
            winners_share: 7000,
            affiliate_share: 1000,
            jackpot_share: 1000,
            platform_share: 1000,
        },
        jackpot_allocation: JackPotAllocation {
            streak_5: 500,
            streak_6: 1000,
            streak_7: 2000,
            streak_8: 3000,
            streak_9: 4000,
            streak_10: 5000,
        },
        min_bet_amount: 100,
        price_account: key(9),
        staleness_threshold: 60,
        ..blank
    };
    Initialize::initialize(&mut ctx, info).unwrap();
    ctx.platform_config
}

fn join(user: Pubkey, affiliate: Option<Pubkey>, deposit: u64) -> UserInfo {
    let mut user_info = UserInfo::default();
    if let Some(affiliate) = affiliate {
        let mut ctx =
            SetAffiliate { user, user_info, bumps: SetAffiliateBumps { user_info: 200 } };
        SetAffiliate::set_affiliate(&mut ctx, affiliate).unwrap();
        user_info = ctx.user_info;
    }
    let mut ctx = DepositAndWithdraw {
        user,
        stablecoin: key(2),
        user_info,
        bumps: DepositAndWithdrawBumps { user_info: 200 },
    };
    assert_eq!(DepositAndWithdraw::deposit(&mut ctx, deposit).unwrap().amount, deposit);
    ctx.user_info
}

fn stake(
    config: PlatformConfig,
    round: &mut Round,
    user: Pubkey,
    user_info: &mut UserInfo,
    amount: u64,
    is_long: bool,
) -> Bet {
    let mut ctx = PlaceBet {
        user,
        platform_config: config,
        user_info: *user_info,
        round: *round,
        user_bet: Bet::default(),
        bumps: PlaceBetBumps { user_bet: 100 },
    };
    let event = PlaceBet::place_bet(&mut ctx, amount, is_long).unwrap();
    assert_eq!(event.round, config.global_round_info.round + 1);
    *user_info = ctx.user_info;
    *round = ctx.round;
    ctx.user_bet
}

#[test]
fn one_round_from_deposit_to_claims_keeps_custody_whole() {
    let mut config = set_up();
    let mut users = [
        join(key(11), Some(key(21)), 10_000),
        join(key(12), Some(key(21)), 10_000),
        join(key(13), Some(key(22)), 10_000),
        join(key(14), None, 10_000),
    ];
    let deposited: u64 = 40_000;

    let mut run = RunRound {
        platform_config: config,
        round: Round::default(),
        price_account: OraclePrice { price: 50_000, conf: 3, expo: -2, publish_time: 995 },
        bumps: RunRoundBumps { round: 7 },
    };
    assert_eq!(RunRound::start_round(&mut run, 1_000).unwrap().round, 1);
    let mut round = run.round;

    let stakes = [(1_000u64, true), (2_000, true), (1_500, false), (500, false)];
    let mut bets = Vec::new();
    for (i, (amount, is_long)) in stakes.iter().enumerate() {
        let user = key(11 + i as u8);
        bets.push(stake(config, &mut round, user, &mut users[i], *amount, *is_long));
    }
    assert_eq!(
        (round.total_bet_amount_long, round.total_bet_amount_short),
        (3_000, 2_000)
    );
    assert_eq!((round.long_positions, round.short_positions), (2, 2));
    assert_eq!(
        (round.affiliates_for_long_positions, round.affiliates_for_short_positions),
        (2, 1)
    );

    run.round = round;
    run.price_account = OraclePrice { price: 51_000, conf: 3, expo: -2, publish_time: 1_301 };
    assert_eq!(RunRound::end_round(&mut run, 1_299), Err(ErrorCodes::RoundHasNotEndedYet));
    let ended = RunRound::end_round(&mut run, 1_300).unwrap();
    assert_eq!((ended.round, ended.ending_price), (1, 51_000));
    config = run.platform_config;
    round = run.round;
    assert_eq!(config.global_round_info.round, 1);
    assert_eq!(config.global_round_info.jackpot_pool_amount, 200);
    assert_eq!(config.global_round_info.accumulated_platform_fees, 200);

    // The owner changes the allocation after the round has closed.
    let mut admin = SetPlatformConfig { owner: key(1), platform_config: config };
    let later = Allocation {
        winners_share: 1000,
        affiliate_share: 7000,
        jackpot_share: 1000,
        platform_share: 1000,
    };
    SetPlatformConfig::set_allocation(&mut admin, later).unwrap();
    config = admin.platform_config;

    let mut earned = Vec::new();
    for i in 0..4 {
        let mut ctx = ClaimUserWinnings {
            user: key(11 + i as u8),
            platform_config: config,
            user_info: users[i],
            round,
            user_bet: bets[i],
        };
        match ClaimUserWinnings::claim_user_winnings(&mut ctx, 0) {
            Ok(event) => earned.push(event.amount),
            Err(error) => {
                assert_eq!(error, ErrorCodes::IneligibleForClaim);
                earned.push(0);
            }
        }
        config = ctx.platform_config;
        users[i] = ctx.user_info;
        bets[i] = ctx.user_bet;
        assert_eq!(ctx.round, round);
    }
    assert_eq!(earned, vec![466, 933, 0, 0]);
    let balances: Vec<u64> = users.iter().map(|user| user.amount).collect();
    assert_eq!(balances, vec![10_466, 10_933, 8_500, 9_500]);
    assert_eq!(users[0].times_won, 1);
    assert_eq!(users[0].last_won_round, 1);
    assert_eq!(users[2].times_won, 0);

    let mut referred = 0;
    for i in 0..4 {
        let affiliate = bets[i].affiliate;
        let mut ctx =
            ClaimAffiliateWinnings { user: key(11 + i as u8), affiliate, round, user_bet: bets[i] };
        if let Ok(event) = ClaimAffiliateWinnings::claim_affiliate_winnings(&mut ctx, 0) {
            assert_eq!(event.affiliate, key(21));
            referred += event.amount;
        }
        bets[i] = ctx.user_bet;
    }
    assert_eq!(referred, 200);

    let mut owner = WithdrawPlatformFees { owner: key(1), platform_config: config };
    let fees = WithdrawPlatformFees::withdraw_platform_fees(&mut owner).unwrap().amount;
    assert_eq!(fees, 200);
    config = owner.platform_config;

    let owed: u64 = balances.iter().sum::<u64>()
        + referred
        + fees
        + config.global_round_info.jackpot_pool_amount
        + config.global_round_info.accumulated_platform_fees;
    assert_eq!(owed, 39_999);
    assert!(owed <= deposited);

    let mut wallet = DepositAndWithdraw {
        user: key(11),
        stablecoin: key(2),
        user_info: users[0],
        bumps: DepositAndWithdrawBumps { user_info: 200 },
    };
    assert_eq!(DepositAndWithdraw::withdraw(&mut wallet, 10_466).unwrap().amount, 10_466);
    assert_eq!(wallet.user_info.amount, 0);
}
