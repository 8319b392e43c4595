//! What the platform keeps for each participant.
use crate::error::ErrorCodes;
use crate::pubkey::Pubkey;
use vstd::prelude::*;

verus! {

/// A participant's balance, referrer and winning streak.
#[derive(Clone, Copy, Debug, PartialEq, Eq)]
pub struct UserInfo {
    /// The deposited funds that are free to be staked or withdrawn.
    pub amount: u64,
    /// Who referred this participant; the default identity for nobody.
    pub affiliate: Pubkey,
    /// The number of the round won last, counting from one; zero before the
    /// first win.
    pub last_won_round: u64,
    /// How many rounds in a row have been won.
    pub times_won: u64,
    pub bump: u8,
}

impl UserInfo {
    /// Rejects a participant who names themselves as their referrer.
    pub fn validate_affiliate(&self, user: &Pubkey) -> (checked: Result<(), ErrorCodes>)
        ensures
            checked is Ok <==> self.affiliate != *user,
            checked is Err ==> checked == Err::<(), ErrorCodes>(ErrorCodes::InvalidAffiliate),
    {
        if !(self.affiliate != *user) {
            return Err(ErrorCodes::InvalidAffiliate);
        }
        Ok(())
    }
}

impl Default for UserInfo {
    /// The record of a participant who has done nothing yet.
    fn default() -> (user_info: Self)
        ensures
            user_info.amount == 0,
            user_info.affiliate.is_default(),
            user_info.last_won_round == 0,
            user_info.times_won == 0,
            user_info.bump == 0,
    {
        UserInfo {
            amount: 0,
            affiliate: Pubkey::default(),
            last_won_round: 0,
            times_won: 0,
            bump: 0,
        }
    }
}

} // verus!
