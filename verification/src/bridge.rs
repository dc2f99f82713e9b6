//! The bridge between a public asset and its confidential form.
//!
//! Wrapping moves plaintext units into a vault and credits an encrypted
//! balance; unwrapping resets the balance and moves units back out. The two
//! halves of each happen together or not at all.

use vstd::prelude::*;
use crate::address::Address;
use crate::custody::{
    lamport_transfer, token_transfer, token_transfer_error, token_transfer_refusal, CustodyError, Record,
    TokenHolding, Wallet,
};
use crate::encrypted::EncryptedValue;
use crate::access_control::{
    check_funds, check_mint_match, check_open, check_owner, first_of, require_funds, require_mint_match,
    require_open, require_owner,
};
use crate::token_state::{outcome, CustomError, IncoAccount, SolVault};

verus! {

/// Records of `wrap`: the user's public holding, the vault of the asset, the
/// user's confidential account, the public asset and the signing user.
#[derive(Clone, Copy, Debug, PartialEq)]
pub struct WrapTokens {
    pub user_spl_account: TokenHolding,
    pub vault: TokenHolding,
    pub confidential_account: Record<IncoAccount>,
    pub spl_mint: Address,
    pub user: Address,
}

/// Records of `unwrap`: as for `wrap`, with the units flowing back.
#[derive(Clone, Copy, Debug, PartialEq)]
pub struct UnwrapTokens {
    pub user_spl_account: TokenHolding,
    pub vault: TokenHolding,
    pub confidential_account: Record<IncoAccount>,
    pub spl_mint: Address,
    pub user: Address,
}

/// Records of `initialize_vault`: the slot of the vault and the asset.
#[derive(Clone, Copy, Debug, PartialEq)]
pub struct InitializeVault {
    pub vault: TokenHolding,
    pub spl_mint: Address,
}

/// Records of `initialize_usdc_vault`: the slot of the vault and the asset.
#[derive(Clone, Copy, Debug, PartialEq)]
pub struct InitializeUsdcVault {
    pub usdc_vault: TokenHolding,
    pub usdc_mint: Address,
}

/// Records of `wrap_sol`: the vault of native currency, the user's
/// confidential account and the signing user's wallet.
#[derive(Clone, Copy, Debug, PartialEq)]
pub struct WrapSol {
    pub sol_vault: Wallet,
    pub confidential_account: Record<IncoAccount>,
    pub user: Wallet,
}

/// Records of `unwrap_sol`: as for `wrap_sol`, with the units flowing back.
#[derive(Clone, Copy, Debug, PartialEq)]
pub struct UnwrapSol {
    pub sol_vault: Wallet,
    pub confidential_account: Record<IncoAccount>,
    pub user: Wallet,
}

/// Records of `initialize_sol_vault`: the slot of the vault record.
#[derive(Clone, Copy, Debug, PartialEq)]
pub struct InitializeSolVault {
    pub sol_vault: Record<SolVault>,
}

/// The ledger's error for a refusal of the custody service.
pub open spec fn custody_refusal(error: CustodyError) -> CustomError {
    match error {
        CustodyError::AuthorizationFailed => CustomError::OwnerMismatch,
        CustodyError::InsufficientFunds => CustomError::InsufficientFunds,
    }
}

/// The ledger's error for a movement of units that the custody service would
/// refuse, if it would.
pub open spec fn custody_error(from: TokenHolding, authority: Address, amount: u64) -> Option<CustomError> {
    match token_transfer_error(from, authority, amount) {
        Some(e) => Some(custody_refusal(e)),
        None => None,
    }
}

/// The ledger's error for a refusal of the custody service.
pub fn refusal(error: CustodyError) -> (mapped: CustomError)
    ensures
        mapped == custody_refusal(error),
{
    match error {
        CustodyError::AuthorizationFailed => CustomError::OwnerMismatch,
        CustodyError::InsufficientFunds => CustomError::InsufficientFunds,
    }
}

/// Checks that the custody service would let `authority` take `amount` units
/// out of `from`.
pub fn check_custody(from: &TokenHolding, authority: &Address, amount: u64) -> (result: Result<(), CustomError>)
    ensures
        result == outcome(custody_error(*from, *authority, amount)),
{
    match token_transfer_refusal(from, authority, amount) {
        Some(e) => Err(refusal(e)),
        None => Ok(()),
    }
}

/// What the holdings and the confidential account must satisfy before units
/// cross the bridge; the checks are made in this order.
pub open spec fn bridge_error(
    user_spl_account: TokenHolding,
    vault: TokenHolding,
    confidential_account: IncoAccount,
    spl_mint: Address,
    user: Address,
) -> Option<CustomError> {
    first_of(
        require_owner(user_spl_account.owner, user),
        first_of(
            require_mint_match(user_spl_account.mint, spl_mint),
            first_of(
                require_mint_match(vault.mint, spl_mint),
                first_of(require_owner(confidential_account.owner, user), require_open(confidential_account.state)),
            ),
        ),
    )
}

fn check_bridge(
    user_spl_account: &TokenHolding,
    vault: &TokenHolding,
    confidential_account: &IncoAccount,
    spl_mint: &Address,
    user: &Address,
) -> (result: Result<(), CustomError>)
    ensures
        result == outcome(bridge_error(*user_spl_account, *vault, *confidential_account, *spl_mint, *user)),
{
    check_owner(&user_spl_account.owner, user)?;
    check_mint_match(&user_spl_account.mint, spl_mint)?;
    check_mint_match(&vault.mint, spl_mint)?;
    check_owner(&confidential_account.owner, user)?;
    check_open(confidential_account.state)
}

/// Why `wrap` is refused; the checks are made in this order.
pub open spec fn wrap_error(ctx: WrapTokens, amount: u64) -> Option<CustomError> {
    first_of(
        bridge_error(ctx.user_spl_account, ctx.vault, ctx.confidential_account.data, ctx.spl_mint, ctx.user),
        custody_error(ctx.user_spl_account, ctx.user, amount),
    )
}

/// The records after `amount` units have been wrapped.
pub open spec fn wrap_effect(ctx: WrapTokens, amount: u64, encrypted_amount: u128) -> WrapTokens {
    WrapTokens {
        user_spl_account: TokenHolding {
            amount: (ctx.user_spl_account.amount - amount) as u64,
            ..ctx.user_spl_account
        },
        vault: TokenHolding { amount: (ctx.vault.amount + amount) as u64, ..ctx.vault },
        confidential_account: Record {
            data: IncoAccount {
                amount: EncryptedValue::spec_wrap(encrypted_amount),
                ..ctx.confidential_account.data
            },
            ..ctx.confidential_account
        },
        ..ctx
    }
}

/// Why a wrap of `amount` units would be refused, if it would.
pub fn wrap_refusal(ctx: &WrapTokens, amount: u64) -> (refused: Option<CustomError>)
    ensures
        refused == wrap_error(*ctx, amount),
{
    match check_bridge(&ctx.user_spl_account, &ctx.vault, &ctx.confidential_account.data, &ctx.spl_mint, &ctx.user) {
        Err(e) => Some(e),
        Ok(()) => match check_custody(&ctx.user_spl_account, &ctx.user, amount) {
            Err(e) => Some(e),
            Ok(()) => None,
        },
    }
}

/// Wraps `amount` units of the public asset: they move from the user's
/// holding into the vault, and the confidential account's balance becomes
/// the handle of `encrypted_amount`.
pub fn wrap(ctx: &mut WrapTokens, amount: u64, encrypted_amount: u128) -> (result: Result<(), CustomError>)
    requires
        wrap_error(*old(ctx), amount) is None ==> old(ctx).vault.amount + amount <= u64::MAX,
    ensures
        result == outcome(wrap_error(*old(ctx), amount)),
        result is Ok ==> *final(ctx) == wrap_effect(*old(ctx), amount, encrypted_amount),
        result is Err ==> *final(ctx) == *old(ctx),
{
    check_bridge(&ctx.user_spl_account, &ctx.vault, &ctx.confidential_account.data, &ctx.spl_mint, &ctx.user)?;
    let authority = ctx.user;
    match token_transfer(&mut ctx.user_spl_account, &mut ctx.vault, &authority, amount) {
        Ok(()) => {},
        Err(e) => {
            return Err(refusal(e));
        },
    }
    ctx.confidential_account.data.amount = EncryptedValue::wrap(encrypted_amount);
    Ok(())
}

/// Why `unwrap` is refused; the checks are made in this order. The vault
/// signs for itself, so it must be its own owner.
pub open spec fn unwrap_error(ctx: UnwrapTokens, amount: u64) -> Option<CustomError> {
    first_of(
        bridge_error(ctx.user_spl_account, ctx.vault, ctx.confidential_account.data, ctx.spl_mint, ctx.user),
        custody_error(ctx.vault, ctx.vault.key, amount),
    )
}

/// The records after `amount` units have been unwrapped.
pub open spec fn unwrap_effect(ctx: UnwrapTokens, amount: u64) -> UnwrapTokens {
    UnwrapTokens {
        user_spl_account: TokenHolding {
            amount: (ctx.user_spl_account.amount + amount) as u64,
            ..ctx.user_spl_account
        },
        vault: TokenHolding { amount: (ctx.vault.amount - amount) as u64, ..ctx.vault },
        confidential_account: Record {
            data: IncoAccount { amount: EncryptedValue::spec_zero(), ..ctx.confidential_account.data },
            ..ctx.confidential_account
        },
        ..ctx
    }
}

/// Why an unwrap of `amount` units would be refused, if it would.
pub fn unwrap_refusal(ctx: &UnwrapTokens, amount: u64) -> (refused: Option<CustomError>)
    ensures
        refused == unwrap_error(*ctx, amount),
{
    match check_bridge(&ctx.user_spl_account, &ctx.vault, &ctx.confidential_account.data, &ctx.spl_mint, &ctx.user) {
        Err(e) => Some(e),
        Ok(()) => match check_custody(&ctx.vault, &ctx.vault.key, amount) {
            Err(e) => Some(e),
            Ok(()) => None,
        },
    }
}

/// Unwraps `amount` units: the confidential balance becomes encrypted zero
/// and the units move from the vault to the user's holding.
///
/// Fails with `InsufficientFunds`, changing nothing, where the vault holds
/// less than `amount`.
pub fn unwrap(ctx: &mut UnwrapTokens, amount: u64) -> (result: Result<(), CustomError>)
    requires
        unwrap_error(*old(ctx), amount) is None ==> old(ctx).user_spl_account.amount + amount <= u64::MAX,
    ensures
        result == outcome(unwrap_error(*old(ctx), amount)),
        result is Ok ==> *final(ctx) == unwrap_effect(*old(ctx), amount),
        result is Err ==> *final(ctx) == *old(ctx),
{
    check_bridge(&ctx.user_spl_account, &ctx.vault, &ctx.confidential_account.data, &ctx.spl_mint, &ctx.user)?;
    let authority = ctx.vault.key;
    match token_transfer(&mut ctx.vault, &mut ctx.user_spl_account, &authority, amount) {
        Ok(()) => {},
        Err(e) => {
            return Err(refusal(e));
        },
    }
    ctx.confidential_account.data.amount = EncryptedValue::zero();
    Ok(())
}

/// Why a vault cannot be created: the slot already holds one.
pub open spec fn vault_slot_error(vault: TokenHolding) -> Option<CustomError> {
    if vault.is_initialized {
        Some(CustomError::InvalidState)
    } else {
        None
    }
}

/// A new, empty vault of `mint` at the slot's address, owned by itself.
pub open spec fn created_vault(slot: TokenHolding, mint: Address) -> TokenHolding {
    TokenHolding { key: slot.key, mint, owner: slot.key, amount: 0, is_initialized: true }
}

fn create_vault(slot: &mut TokenHolding, mint: &Address) -> (result: Result<(), CustomError>)
    ensures
        result == outcome(vault_slot_error(*old(slot))),
        result is Ok ==> *final(slot) == created_vault(*old(slot), *mint),
        result is Err ==> *final(slot) == *old(slot),
{
    if slot.is_initialized {
        return Err(CustomError::InvalidState);
    }
    slot.mint = *mint;
    slot.owner = slot.key;
    slot.amount = 0;
    slot.is_initialized = true;
    Ok(())
}

/// Creates the vault that will back the wrapped units of one public asset.
///
/// Fails with `InvalidState` where the vault already exists.
pub fn initialize_vault(ctx: &mut InitializeVault) -> (result: Result<(), CustomError>)
    ensures
        result == outcome(vault_slot_error(old(ctx).vault)),
        result is Ok ==> *final(ctx) == (InitializeVault {
            vault: created_vault(old(ctx).vault, old(ctx).spl_mint),
            ..*old(ctx)
        }),
        result is Err ==> *final(ctx) == *old(ctx),
{
    let mint = ctx.spl_mint;
    create_vault(&mut ctx.vault, &mint)
}

/// Creates the vault that will back the wrapped units of the stablecoin.
///
/// Fails with `InvalidState` where the vault already exists.
pub fn initialize_usdc_vault(ctx: &mut InitializeUsdcVault) -> (result: Result<(), CustomError>)
    ensures
        result == outcome(vault_slot_error(old(ctx).usdc_vault)),
        result is Ok ==> *final(ctx) == (InitializeUsdcVault {
            usdc_vault: created_vault(old(ctx).usdc_vault, old(ctx).usdc_mint),
            ..*old(ctx)
        }),
        result is Err ==> *final(ctx) == *old(ctx),
{
    let mint = ctx.usdc_mint;
    create_vault(&mut ctx.usdc_vault, &mint)
}

/// Why `wrap_sol` is refused; the checks are made in this order.
pub open spec fn wrap_sol_error(ctx: WrapSol, amount: u64) -> Option<CustomError> {
    first_of(
        require_owner(ctx.confidential_account.data.owner, ctx.user.key),
        first_of(require_open(ctx.confidential_account.data.state), require_funds(ctx.user.lamports, amount)),
    )
}

/// The records after `amount` of native currency has been wrapped.
pub open spec fn wrap_sol_effect(ctx: WrapSol, amount: u64, encrypted_amount: u128) -> WrapSol {
    WrapSol {
        sol_vault: Wallet { lamports: (ctx.sol_vault.lamports + amount) as u64, ..ctx.sol_vault },
        confidential_account: Record {
            data: IncoAccount {
                amount: EncryptedValue::spec_wrap(encrypted_amount),
                ..ctx.confidential_account.data
            },
            ..ctx.confidential_account
        },
        user: Wallet { lamports: (ctx.user.lamports - amount) as u64, ..ctx.user },
    }
}

fn check_wrap_sol(ctx: &WrapSol, amount: u64) -> (result: Result<(), CustomError>)
    ensures
        result == outcome(wrap_sol_error(*ctx, amount)),
{
    check_owner(&ctx.confidential_account.data.owner, &ctx.user.key)?;
    check_open(ctx.confidential_account.data.state)?;
    check_funds(ctx.user.lamports, amount)
}

/// Why a wrap of `amount` of native currency would be refused, if it would.
pub fn wrap_sol_refusal(ctx: &WrapSol, amount: u64) -> (refused: Option<CustomError>)
    ensures
        refused == wrap_sol_error(*ctx, amount),
{
    match check_wrap_sol(ctx, amount) {
        Err(e) => Some(e),
        Ok(()) => None,
    }
}

/// Wraps `amount` of native currency: it moves from the user's wallet to
/// the vault, and the confidential account's balance becomes the handle of
/// `encrypted_amount`.
pub fn wrap_sol(ctx: &mut WrapSol, amount: u64, encrypted_amount: u128) -> (result: Result<(), CustomError>)
    requires
        wrap_sol_error(*old(ctx), amount) is None ==> old(ctx).sol_vault.lamports + amount <= u64::MAX,
    ensures
        result == outcome(wrap_sol_error(*old(ctx), amount)),
        result is Ok ==> *final(ctx) == wrap_sol_effect(*old(ctx), amount, encrypted_amount),
        result is Err ==> *final(ctx) == *old(ctx),
{
    check_owner(&ctx.confidential_account.data.owner, &ctx.user.key)?;
    check_open(ctx.confidential_account.data.state)?;
    match lamport_transfer(&mut ctx.user.lamports, &mut ctx.sol_vault.lamports, amount) {
        Ok(()) => {},
        Err(e) => {
            return Err(refusal(e));
        },
    }
    ctx.confidential_account.data.amount = EncryptedValue::wrap(encrypted_amount);
    Ok(())
}

/// Why `unwrap_sol` is refused; the checks are made in this order.
pub open spec fn unwrap_sol_error(ctx: UnwrapSol, amount: u64) -> Option<CustomError> {
    first_of(
        require_owner(ctx.confidential_account.data.owner, ctx.user.key),
        first_of(
            require_open(ctx.confidential_account.data.state),
            require_funds(ctx.sol_vault.lamports, amount),
        ),
    )
}

/// The records after `amount` of native currency has been unwrapped.
pub open spec fn unwrap_sol_effect(ctx: UnwrapSol, amount: u64) -> UnwrapSol {
    UnwrapSol {
        sol_vault: Wallet { lamports: (ctx.sol_vault.lamports - amount) as u64, ..ctx.sol_vault },
        confidential_account: Record {
            data: IncoAccount { amount: EncryptedValue::spec_zero(), ..ctx.confidential_account.data },
            ..ctx.confidential_account
        },
        user: Wallet { lamports: (ctx.user.lamports + amount) as u64, ..ctx.user },
    }
}

fn check_unwrap_sol(ctx: &UnwrapSol, amount: u64) -> (result: Result<(), CustomError>)
    ensures
        result == outcome(unwrap_sol_error(*ctx, amount)),
{
    check_owner(&ctx.confidential_account.data.owner, &ctx.user.key)?;
    check_open(ctx.confidential_account.data.state)?;
    check_funds(ctx.sol_vault.lamports, amount)
}

/// Why an unwrap of `amount` of native currency would be refused, if it
/// would.
pub fn unwrap_sol_refusal(ctx: &UnwrapSol, amount: u64) -> (refused: Option<CustomError>)
    ensures
        refused == unwrap_sol_error(*ctx, amount),
{
    match check_unwrap_sol(ctx, amount) {
        Err(e) => Some(e),
        Ok(()) => None,
    }
}

/// Unwraps `amount` of native currency: the confidential balance becomes
/// encrypted zero and the units move from the vault to the user's wallet.
///
/// Fails with `InsufficientFunds`, changing nothing, where the vault holds
/// less than `amount`.
pub fn unwrap_sol(ctx: &mut UnwrapSol, amount: u64) -> (result: Result<(), CustomError>)
    requires
        unwrap_sol_error(*old(ctx), amount) is None ==> old(ctx).user.lamports + amount <= u64::MAX,
    ensures
        result == outcome(unwrap_sol_error(*old(ctx), amount)),
        result is Ok ==> *final(ctx) == unwrap_sol_effect(*old(ctx), amount),
        result is Err ==> *final(ctx) == *old(ctx),
{
    check_owner(&ctx.confidential_account.data.owner, &ctx.user.key)?;
    check_open(ctx.confidential_account.data.state)?;
    match lamport_transfer(&mut ctx.sol_vault.lamports, &mut ctx.user.lamports, amount) {
        Ok(()) => {},
        Err(e) => {
            return Err(refusal(e));
        },
    }
    ctx.confidential_account.data.amount = EncryptedValue::zero();
    Ok(())
}

/// Why `initialize_sol_vault` is refused: the vault already exists.
pub open spec fn initialize_sol_vault_error(ctx: InitializeSolVault) -> Option<CustomError> {
    if ctx.sol_vault.data.is_initialized {
        Some(CustomError::InvalidState)
    } else {
        None
    }
}

/// Creates the program-owned vault of native currency, remembering the bump
/// seed of its address. This happens once, before any wrap.
pub fn initialize_sol_vault(ctx: &mut InitializeSolVault, bump: u8) -> (result: Result<(), CustomError>)
    ensures
        result == outcome(initialize_sol_vault_error(*old(ctx))),
        result is Ok ==> *final(ctx) == (InitializeSolVault {
            sol_vault: Record { data: SolVault { bump, is_initialized: true }, ..old(ctx).sol_vault },
        }),
        result is Err ==> *final(ctx) == *old(ctx),
{
    if ctx.sol_vault.data.is_initialized {
        return Err(CustomError::InvalidState);
    }
    ctx.sol_vault.data.bump = bump;
    ctx.sol_vault.data.is_initialized = true;
    Ok(())
}

} // verus!
