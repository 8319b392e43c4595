//! Moving funds into and out of a participant's balance.
use crate::error::ErrorCodes;
use crate::events::{Deposited, Withdrawn};
use crate::pubkey::Pubkey;
use crate::state::user_info::UserInfo;
use vstd::prelude::*;

verus! {

/// The address bumps that the host found for the accounts of
/// `DepositAndWithdraw`.
#[derive(Clone, Copy, Debug, PartialEq, Eq, Structural)]
pub struct DepositAndWithdrawBumps {
    pub user_info: u8,
}

/// The accounts for a deposit or a withdrawal: the participant, the token
/// and the participant's record.
#[derive(Clone, Copy, Debug, PartialEq, Eq)]
pub struct DepositAndWithdraw {
    pub user: Pubkey,
    pub stablecoin: Pubkey,
    pub user_info: UserInfo,
    pub bumps: DepositAndWithdrawBumps,
}

impl DepositAndWithdraw {
    /// Why the deposit is rejected, if it is: the amount is zero, or the
    /// balance would exceed 64 bits.
    pub open spec fn deposit_error(self, amount: u64) -> Option<ErrorCodes> {
        if amount == 0 {
            Some(ErrorCodes::DepositAmountZero)
        } else if self.user_info.amount + amount > u64::MAX {
            Some(ErrorCodes::ArithmeticOverflow)
        } else {
            None
        }
    }

    /// The accounts after the deposit: the balance has grown by `amount`,
    /// and a record without a bump has got the one that the host found.
    pub open spec fn deposited(self, amount: u64) -> DepositAndWithdraw {
        DepositAndWithdraw {
            user_info: UserInfo {
                amount: (self.user_info.amount + amount) as u64,
                bump: if self.user_info.bump == 0 {
                    self.bumps.user_info
                } else {
                    self.user_info.bump
                },
                ..self.user_info
            },
            ..self
        }
    }

    /// Why the withdrawal is rejected, if it is: the amount is zero, or it
    /// exceeds the balance.
    pub open spec fn withdraw_error(self, amount: u64) -> Option<ErrorCodes> {
        if amount == 0 {
            Some(ErrorCodes::WithdrawAmountZero)
        } else if self.user_info.amount < amount {
            Some(ErrorCodes::ArithmeticUnderflow)
        } else {
            None
        }
    }

    /// The accounts after the withdrawal: the balance has shrunk by `amount`.
    pub open spec fn withdrawn(self, amount: u64) -> DepositAndWithdraw {
        DepositAndWithdraw {
            user_info: UserInfo { amount: (self.user_info.amount - amount) as u64, ..self.user_info },
            ..self
        }
    }

    /// Adds `amount` to the participant's balance. The event tells the host
    /// to take the tokens into custody.
    pub fn deposit(ctx: &mut DepositAndWithdraw, amount: u64) -> (deposited: Result<
        Deposited,
        ErrorCodes,
    >)
        ensures
            match deposited {
                Ok(event) => {
                    &&& old(ctx).deposit_error(amount) is None
                    &&& *final(ctx) == old(ctx).deposited(amount)
                    &&& event == (Deposited {
                        user: old(ctx).user,
                        stablecoin: old(ctx).stablecoin,
                        amount,
                    })
                },
                Err(e) => {
                    &&& old(ctx).deposit_error(amount) == Some(e)
                    &&& *final(ctx) == *old(ctx)
                },
            },
    {
        if !(amount > 0) {
            return Err(ErrorCodes::DepositAmountZero);
        }
        let balance = match ctx.user_info.amount.checked_add(amount) {
            Some(balance) => balance,
            None => {
                return Err(ErrorCodes::ArithmeticOverflow);
            },
        };
        ctx.user_info.amount = balance;
        if ctx.user_info.bump == 0 {
            ctx.user_info.bump = ctx.bumps.user_info;
        }
        Ok(Deposited { user: ctx.user, stablecoin: ctx.stablecoin, amount })
    }

    /// Takes `amount` from the participant's balance. The event tells the
    /// host to hand the tokens out of custody.
    pub fn withdraw(ctx: &mut DepositAndWithdraw, amount: u64) -> (withdrawn: Result<
        Withdrawn,
        ErrorCodes,
    >)
        ensures
            match withdrawn {
                Ok(event) => {
                    &&& old(ctx).withdraw_error(amount) is None
                    &&& *final(ctx) == old(ctx).withdrawn(amount)
                    &&& event == (Withdrawn {
                        user: old(ctx).user,
                        stablecoin: old(ctx).stablecoin,
                        amount,
                    })
                },
                Err(e) => {
                    &&& old(ctx).withdraw_error(amount) == Some(e)
                    &&& *final(ctx) == *old(ctx)
                },
            },
    {
        if !(amount > 0) {
            return Err(ErrorCodes::WithdrawAmountZero);
        }
        let balance = match ctx.user_info.amount.checked_sub(amount) {
            Some(balance) => balance,
            None => {
                return Err(ErrorCodes::ArithmeticUnderflow);
            },
        };
        ctx.user_info.amount = balance;
        Ok(Withdrawn { user: ctx.user, stablecoin: ctx.stablecoin, amount })
    }
}

} // verus!
