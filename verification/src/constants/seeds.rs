//! Labels from which the host derives the address of each kind of record.
use vstd::prelude::*;

verus! {

pub const PLATFORM_CONFIG: &'static str = "platform_config";

pub const PLATFORM_VAULT: &'static str = "platform_vault";

pub const USER: &'static str = "user";

pub const ROUND: &'static str = "round";

pub const USER_BET: &'static str = "user_bet";

} // verus!
