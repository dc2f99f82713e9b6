//! The checks that every operation of the ledger is built from.
//!
//! Each check looks at plain values, keeps no state of its own, and fails
//! with an error of its own kind, so that a caller can tell which condition
//! stood against the operation.

use vstd::prelude::*;
use crate::address::Address;
use crate::token_state::{outcome, AccountState, COption, CustomError, IncoMint};

verus! {

/// Fails with `UninitializedState` where the account was never created.
pub open spec fn require_initialized(state: AccountState) -> Option<CustomError> {
    if state == AccountState::Uninitialized {
        Some(CustomError::UninitializedState)
    } else {
        None
    }
}

/// Fails with `AccountFrozen` where the account is frozen.
pub open spec fn require_not_frozen(state: AccountState) -> Option<CustomError> {
    if state == AccountState::Frozen {
        Some(CustomError::AccountFrozen)
    } else {
        None
    }
}

/// Fails where an account may not take part in a movement of value: with
/// `UninitializedState` where it was never created, with `AccountFrozen`
/// where it is frozen.
pub open spec fn require_usable(state: AccountState) -> Option<CustomError> {
    if require_initialized(state) is Some {
        require_initialized(state)
    } else {
        require_not_frozen(state)
    }
}

/// Fails with `MintMismatch` where the account belongs to another mint.
pub open spec fn require_mint_match(account_mint: Address, mint: Address) -> Option<CustomError> {
    if account_mint != mint {
        Some(CustomError::MintMismatch)
    } else {
        None
    }
}

/// Fails with `OwnerMismatch` where the signer is not the stored owner.
pub open spec fn require_owner(signer: Address, owner: Address) -> Option<CustomError> {
    if signer != owner {
        Some(CustomError::OwnerMismatch)
    } else {
        None
    }
}

/// Fails with `OwnerMismatch` where the signer is not the stored authority,
/// or none is stored.
pub open spec fn require_authority(signer: Address, authority: COption<Address>) -> Option<CustomError> {
    if authority != COption::Present(signer) {
        Some(CustomError::OwnerMismatch)
    } else {
        None
    }
}

/// Fails with `UninitializedState` where the mint was never created.
pub open spec fn require_mint_initialized(mint: IncoMint) -> Option<CustomError> {
    if !mint.is_initialized {
        Some(CustomError::UninitializedState)
    } else {
        None
    }
}

/// The first of two checks that fails.
pub open spec fn first_of(first: Option<CustomError>, second: Option<CustomError>) -> Option<CustomError> {
    if first is Some {
        first
    } else {
        second
    }
}

/// Checks that the account was created.
pub fn check_initialized(state: AccountState) -> (result: Result<(), CustomError>)
    ensures
        result == outcome(require_initialized(state)),
{
    match state {
        AccountState::Uninitialized => Err(CustomError::UninitializedState),
        _ => Ok(()),
    }
}

/// Checks that the account is not frozen.
pub fn check_not_frozen(state: AccountState) -> (result: Result<(), CustomError>)
    ensures
        result == outcome(require_not_frozen(state)),
{
    match state {
        AccountState::Frozen => Err(CustomError::AccountFrozen),
        _ => Ok(()),
    }
}

/// Checks that an account may take part in a movement of value.
pub fn check_usable(state: AccountState) -> (result: Result<(), CustomError>)
    ensures
        result == outcome(require_usable(state)),
{
    check_initialized(state)?;
    check_not_frozen(state)
}

/// Checks that the account belongs to the mint at `mint`.
pub fn check_mint_match(account_mint: &Address, mint: &Address) -> (result: Result<(), CustomError>)
    ensures
        result == outcome(require_mint_match(*account_mint, *mint)),
{
    if *account_mint != *mint {
        Err(CustomError::MintMismatch)
    } else {
        Ok(())
    }
}

/// Checks that the signer is the stored owner.
pub fn check_owner(signer: &Address, owner: &Address) -> (result: Result<(), CustomError>)
    ensures
        result == outcome(require_owner(*signer, *owner)),
{
    if *signer != *owner {
        Err(CustomError::OwnerMismatch)
    } else {
        Ok(())
    }
}

/// Checks that the signer is the stored authority.
pub fn check_authority(signer: &Address, authority: &COption<Address>) -> (result: Result<(), CustomError>)
    ensures
        result == outcome(require_authority(*signer, *authority)),
{
    if authority.holds(signer) {
        Ok(())
    } else {
        Err(CustomError::OwnerMismatch)
    }
}

/// Checks that the mint was created.
pub fn check_mint_initialized(mint: &IncoMint) -> (result: Result<(), CustomError>)
    ensures
        result == outcome(require_mint_initialized(*mint)),
{
    if !mint.is_initialized {
        Err(CustomError::UninitializedState)
    } else {
        Ok(())
    }
}

/// Fails with `InsufficientFunds` where `held` is less than `amount`.
pub open spec fn require_funds(held: u64, amount: u64) -> Option<CustomError> {
    if held < amount {
        Some(CustomError::InsufficientFunds)
    } else {
        None
    }
}

/// Checks that `held` covers `amount`.
pub fn check_funds(held: u64, amount: u64) -> (result: Result<(), CustomError>)
    ensures
        result == outcome(require_funds(held, amount)),
{
    if held < amount {
        Err(CustomError::InsufficientFunds)
    } else {
        Ok(())
    }
}

/// Fails with `UninitializedState` unless the account is in state
/// Initialized.
pub open spec fn require_open(state: AccountState) -> Option<CustomError> {
    if state != AccountState::Initialized {
        Some(CustomError::UninitializedState)
    } else {
        None
    }
}

/// Checks that the account is in state Initialized.
pub fn check_open(state: AccountState) -> (result: Result<(), CustomError>)
    ensures
        result == outcome(require_open(state)),
{
    match state {
        AccountState::Initialized => Ok(()),
        _ => Err(CustomError::UninitializedState),
    }
}

} // verus!
