//! What is held to the funds that pass the contract besides a mint: the
//! settings that bound a mint, and the withdrawal of what has gathered in
//! the contract's balance.

use crate::errors::Error;
use crate::requirements::{is_privileged, royalties_limits_refusal};
use crate::state::MinterState;
use crate::types::Address;
use vstd::prelude::*;

verus! {

/// Why the limits of the royalties are not set, if they are not.
pub open spec fn royalties_refusal(
    s: MinterState,
    caller: Address,
    min_royalties: u128,
    max_royalties: u128,
) -> Option<Error> {
    if !is_privileged(s, caller) {
        Some(Error::NotPrivileged)
    } else {
        royalties_limits_refusal(min_royalties, max_royalties)
    }
}

/// Why the largest donation is not set, if it is not: it is a share of a
/// mint, 10000 basis points at most.
pub open spec fn donation_percentage_refusal(s: MinterState, caller: Address, percentage: u64)
    -> Option<Error> {
    if !is_privileged(s, caller) {
        Some(Error::NotPrivileged)
    } else if percentage > 10_000 {
        Some(Error::PercentageTooHigh)
    } else {
        None
    }
}

/// Why nothing is withdrawn, if nothing is; `balance` is what the contract
/// holds of the token.
pub open spec fn withdraw_refusal(s: MinterState, caller: Address, amount: u128, balance: u128)
    -> Option<Error> {
    if s.withdrawal_address is None {
        Some(Error::WithdrawalAddressNotSet)
    } else if s.withdrawal_address != Some(caller) {
        Some(Error::OnlyWithdrawalAddressCanWithdraw)
    } else if amount == 0 {
        Some(Error::ValueMustBePositive)
    } else if amount > balance {
        Some(Error::NotEnoughFunds)
    } else {
        None
    }
}

} // verus!
