use bearish_dot_fun::error::ErrorCodes;
use bearish_dot_fun::pubkey::Pubkey;

#[test]
fn default_pubkey_is_all_zero() {
    assert_eq!(Pubkey::default().to_bytes(), [0u8; 32]);
    assert!(Pubkey::default().is_default());
    assert!(Pubkey::new_from_array([0u8; 32]).is_default());
}

#[test]
fn one_set_byte_makes_a_pubkey_non_default() {
    let mut bytes = [0u8; 32];
    bytes[31] = 1;
    assert!(!Pubkey::new_from_array(bytes).is_default());
    let mut bytes = [0u8; 32];
    bytes[0] = 200;
    assert!(!Pubkey::new_from_array(bytes).is_default());
}

#[test]
fn pubkeys_compare_by_all_their_bytes() {
    let a = Pubkey::new_from_array([7u8; 32]);
    let b = Pubkey::new_from_array([7u8; 32]);
    let mut bytes = [7u8; 32];
    bytes[31] = 8;
    let c = Pubkey::new_from_array(bytes);
    assert!(a == b);
    assert!(a != c);
    assert_eq!(a.to_bytes(), [7u8; 32]);
    assert_eq!(c.to_bytes(), bytes);
}

#[test]
fn every_error_has_its_message() {
    assert_eq!(ErrorCodes::DurationZero.message(), "Round duration cannot be 0.");
    assert_eq!(
        ErrorCodes::InvalidAllocation.message(),
        "Invalid allocation. Does not add up to 100%."
    );
    assert_eq!(ErrorCodes::ExceedsMaxFee.message(), "Exceeds max fee in bips.");
    assert_eq!(ErrorCodes::InvalidJackPotAllocation.message(), "Invalid jackpot allocation.");
    assert_eq!(
        ErrorCodes::PriceAccountDefaultPubkey.message(),
        "Price account cannot be default pubkey."
    );
    assert_eq!(ErrorCodes::DepositAmountZero.message(), "Deposit amount cannot be 0.");
    assert_eq!(ErrorCodes::WithdrawAmountZero.message(), "Withdraw amount cannot be 0.");
    assert_eq!(ErrorCodes::InvalidAffiliate.message(), "Invalid affiliate address.");
    assert_eq!(ErrorCodes::PriceCannotBeZero.message(), "Price cannot be 0.");
    assert_eq!(ErrorCodes::RoundHasNotEndedYet.message(), "Round has not ended yet.");
    assert_eq!(ErrorCodes::RoundAlreadyStarted.message(), "Round already started.");
    assert_eq!(ErrorCodes::RoundAlreadyEnded.message(), "Round already ended.");
    assert_eq!(
        ErrorCodes::BetAmountBelowMinBetAmount.message(),
        "Bet amount cannot be less than the minimum bet amount."
    );
    assert_eq!(ErrorCodes::AlreadyClaimedWinnings.message(), "Already claimed winnings.");
    assert_eq!(ErrorCodes::IneligibleForClaim.message(), "Ineligible for claim.");
    assert_eq!(
        ErrorCodes::AlreadyCollectedPlatformFees.message(),
        "Already collected platform fees."
    );
    assert_eq!(ErrorCodes::ClaimAmountZero.message(), "Claim amount cannot be 0.");
    assert_eq!(
        ErrorCodes::PlatformFeeAmountZero.message(),
        "Platform fee amount to collect is 0."
    );
    assert_eq!(ErrorCodes::MinBetAmountZero.message(), "Minimum bet amount cannot be 0.");
    assert_eq!(
        ErrorCodes::StalePrice.message(),
        "Price is older than the staleness threshold."
    );
    assert_eq!(ErrorCodes::ArithmeticOverflow.message(), "Arithmetic overflow.");
    assert_eq!(ErrorCodes::ArithmeticUnderflow.message(), "Arithmetic underflow.");
}
