//! Balances kept per user: one encrypted balance for each pair of user and
//! confidential asset, stored at the address derived from the pair.

use vstd::prelude::*;
use crate::address::Address;
use crate::access_control::{
    check_funds, check_mint_match, check_owner, first_of, require_funds, require_mint_match, require_owner,
};
use crate::bridge::{check_custody, custody_error, refusal};
use crate::custody::{lamport_transfer, token_transfer, Record, TokenHolding, Wallet};
use crate::encrypted::EncryptedValue;
use crate::token_state::{outcome, CustomError, IncoMint, SolVault, UserBalance};

verus! {

/// Records of `initialize_user_balance`: the slot, the asset and the user.
#[derive(Clone, Copy, Debug, PartialEq)]
pub struct InitializeUserBalance {
    pub user_balance: Record<UserBalance>,
    pub mint: Record<IncoMint>,
    pub user: Address,
}

/// Records of `wrap_to_user`: the vault of native currency, the user's
/// balance, the asset and the signing user's wallet.
#[derive(Clone, Copy, Debug, PartialEq)]
pub struct WrapToUser {
    pub sol_vault: Record<SolVault>,
    pub user_balance: Record<UserBalance>,
    pub mint: Record<IncoMint>,
    pub user: Wallet,
}

/// Records of `unwrap_from_user`: as for `wrap_to_user`, with the wallet
/// that receives and the signer who must own the balance.
#[derive(Clone, Copy, Debug, PartialEq)]
pub struct UnwrapFromUser {
    pub sol_vault: Record<SolVault>,
    pub user_balance: Record<UserBalance>,
    pub mint: Record<IncoMint>,
    pub user: Wallet,
    pub authority: Address,
}

/// Records of `transfer_to_user`: both balances, the asset, the signing
/// source user and the destination user.
#[derive(Clone, Copy, Debug, PartialEq)]
pub struct TransferToUser {
    pub source_balance: Record<UserBalance>,
    pub dest_balance: Record<UserBalance>,
    pub mint: Record<IncoMint>,
    pub source_user: Address,
    pub dest_user: Address,
}

/// Records of `faucet_usdc`: the user's balance, the asset and the user.
#[derive(Clone, Copy, Debug, PartialEq)]
pub struct FaucetUsdc {
    pub user_balance: Record<UserBalance>,
    pub mint: Record<IncoMint>,
    pub user: Address,
}

/// Records of `wrap_usdc_to_user`: the vault of the stablecoin, the user's
/// public holding, the user's balance, the asset and the signing user.
#[derive(Clone, Copy, Debug, PartialEq)]
pub struct WrapUsdcToUser {
    pub usdc_vault: TokenHolding,
    pub user_token_account: TokenHolding,
    pub user_balance: Record<UserBalance>,
    pub mint: Record<IncoMint>,
    pub user: Address,
}

/// Records of `unwrap_usdc_from_user`: as for `wrap_usdc_to_user`.
#[derive(Clone, Copy, Debug, PartialEq)]
pub struct UnwrapUsdcFromUser {
    pub usdc_vault: TokenHolding,
    pub user_token_account: TokenHolding,
    pub user_balance: Record<UserBalance>,
    pub mint: Record<IncoMint>,
    pub user: Address,
}

/// Whether the balance is the one of `user` in the asset at `mint`: fails
/// with `UninitializedState` where it was never created, with
/// `OwnerMismatch` where it belongs to another user, with `MintMismatch`
/// where it is a balance of another asset.
pub open spec fn require_balance_of(balance: UserBalance, user: Address, mint: Address) -> Option<CustomError> {
    if !balance.is_initialized {
        Some(CustomError::UninitializedState)
    } else {
        first_of(require_owner(balance.user, user), require_mint_match(balance.mint, mint))
    }
}

/// Checks that the balance is the one of `user` in the asset at `mint`.
pub fn check_balance_of(balance: &UserBalance, user: &Address, mint: &Address) -> (result: Result<(), CustomError>)
    ensures
        result == outcome(require_balance_of(*balance, *user, *mint)),
{
    if !balance.is_initialized {
        return Err(CustomError::UninitializedState);
    }
    check_owner(&balance.user, user)?;
    check_mint_match(&balance.mint, mint)
}

/// The balance with another encrypted amount.
pub open spec fn with_balance(record: Record<UserBalance>, value: EncryptedValue) -> Record<UserBalance> {
    Record { data: UserBalance { encrypted_balance: value, ..record.data }, ..record }
}

/// Why `initialize_user_balance` is refused: the balance already exists.
pub open spec fn initialize_user_balance_error(ctx: InitializeUserBalance) -> Option<CustomError> {
    if ctx.user_balance.data.is_initialized {
        Some(CustomError::InvalidState)
    } else {
        None
    }
}

/// A new balance of encrypted zero for `user` in the asset at `mint`.
pub open spec fn created_balance(user: Address, mint: Address, bump: u8) -> UserBalance {
    UserBalance { user, mint, encrypted_balance: EncryptedValue::spec_zero(), bump, is_initialized: true }
}

/// Creates the balance of the user in the asset, at encrypted zero.
///
/// Fails with `InvalidState` where the balance already exists.
pub fn initialize_user_balance(ctx: &mut InitializeUserBalance, bump: u8) -> (result: Result<(), CustomError>)
    ensures
        result == outcome(initialize_user_balance_error(*old(ctx))),
        result is Ok ==> *final(ctx) == (InitializeUserBalance {
            user_balance: Record {
                data: created_balance(old(ctx).user, old(ctx).mint.key, bump),
                ..old(ctx).user_balance
            },
            ..*old(ctx)
        }),
        result is Err ==> *final(ctx) == *old(ctx),
{
    if ctx.user_balance.data.is_initialized {
        return Err(CustomError::InvalidState);
    }
    ctx.user_balance.data.user = ctx.user;
    ctx.user_balance.data.mint = ctx.mint.key;
    ctx.user_balance.data.encrypted_balance = EncryptedValue::zero();
    ctx.user_balance.data.bump = bump;
    ctx.user_balance.data.is_initialized = true;
    Ok(())
}

/// Why `wrap_to_user` is refused; the checks are made in this order.
pub open spec fn wrap_to_user_error(ctx: WrapToUser, amount: u64) -> Option<CustomError> {
    first_of(
        require_balance_of(ctx.user_balance.data, ctx.user.key, ctx.mint.key),
        require_funds(ctx.user.lamports, amount),
    )
}

/// The records after `amount` of native currency has been wrapped for the
/// user.
pub open spec fn wrap_to_user_effect(ctx: WrapToUser, amount: u64, encrypted_amount: u128) -> WrapToUser {
    WrapToUser {
        sol_vault: Record { lamports: (ctx.sol_vault.lamports + amount) as u64, ..ctx.sol_vault },
        user_balance: with_balance(ctx.user_balance, EncryptedValue::spec_wrap(encrypted_amount)),
        user: Wallet { lamports: (ctx.user.lamports - amount) as u64, ..ctx.user },
        ..ctx
    }
}

fn check_wrap_to_user(ctx: &WrapToUser, amount: u64) -> (result: Result<(), CustomError>)
    ensures
        result == outcome(wrap_to_user_error(*ctx, amount)),
{
    check_balance_of(&ctx.user_balance.data, &ctx.user.key, &ctx.mint.key)?;
    check_funds(ctx.user.lamports, amount)
}

/// Why a wrap of `amount` of native currency into the user's balance would
/// be refused, if it would.
pub fn wrap_to_user_refusal(ctx: &WrapToUser, amount: u64) -> (refused: Option<CustomError>)
    ensures
        refused == wrap_to_user_error(*ctx, amount),
{
    match check_wrap_to_user(ctx, amount) {
        Err(e) => Some(e),
        Ok(()) => None,
    }
}

/// Wraps `amount` of native currency into the user's balance: the units
/// move from the user's wallet to the vault, and the balance becomes the
/// handle of `encrypted_amount`.
pub fn wrap_to_user(ctx: &mut WrapToUser, amount: u64, encrypted_amount: u128) -> (result: Result<(), CustomError>)
    requires
        wrap_to_user_error(*old(ctx), amount) is None ==> old(ctx).sol_vault.lamports + amount <= u64::MAX,
    ensures
        result == outcome(wrap_to_user_error(*old(ctx), amount)),
        result is Ok ==> *final(ctx) == wrap_to_user_effect(*old(ctx), amount, encrypted_amount),
        result is Err ==> *final(ctx) == *old(ctx),
{
    check_balance_of(&ctx.user_balance.data, &ctx.user.key, &ctx.mint.key)?;
    match lamport_transfer(&mut ctx.user.lamports, &mut ctx.sol_vault.lamports, amount) {
        Ok(()) => {},
        Err(e) => {
            return Err(refusal(e));
        },
    }
    ctx.user_balance.data.encrypted_balance = EncryptedValue::wrap(encrypted_amount);
    Ok(())
}

/// Why `unwrap_from_user` is refused; the checks are made in this order.
pub open spec fn unwrap_from_user_error(ctx: UnwrapFromUser, amount: u64) -> Option<CustomError> {
    first_of(
        require_balance_of(ctx.user_balance.data, ctx.user.key, ctx.mint.key),
        first_of(
            require_owner(ctx.authority, ctx.user_balance.data.user),
            require_funds(ctx.sol_vault.lamports, amount),
        ),
    )
}

/// The records after `amount` of native currency has been unwrapped for the
/// user.
pub open spec fn unwrap_from_user_effect(ctx: UnwrapFromUser, amount: u64) -> UnwrapFromUser {
    UnwrapFromUser {
        sol_vault: Record { lamports: (ctx.sol_vault.lamports - amount) as u64, ..ctx.sol_vault },
        user_balance: with_balance(ctx.user_balance, EncryptedValue::spec_zero()),
        user: Wallet { lamports: (ctx.user.lamports + amount) as u64, ..ctx.user },
        ..ctx
    }
}

fn check_unwrap_from_user(ctx: &UnwrapFromUser, amount: u64) -> (result: Result<(), CustomError>)
    ensures
        result == outcome(unwrap_from_user_error(*ctx, amount)),
{
    check_balance_of(&ctx.user_balance.data, &ctx.user.key, &ctx.mint.key)?;
    check_owner(&ctx.authority, &ctx.user_balance.data.user)?;
    check_funds(ctx.sol_vault.lamports, amount)
}

/// Why an unwrap of `amount` of native currency from the user's balance
/// would be refused, if it would.
pub fn unwrap_from_user_refusal(ctx: &UnwrapFromUser, amount: u64) -> (refused: Option<CustomError>)
    ensures
        refused == unwrap_from_user_error(*ctx, amount),
{
    match check_unwrap_from_user(ctx, amount) {
        Err(e) => Some(e),
        Ok(()) => None,
    }
}

/// Unwraps `amount` of native currency from the user's balance: the balance
/// becomes encrypted zero and the units move from the vault to the wallet.
///
/// Fails with `InsufficientFunds`, changing nothing, where the vault holds
/// less than `amount`.
pub fn unwrap_from_user(ctx: &mut UnwrapFromUser, amount: u64) -> (result: Result<(), CustomError>)
    requires
        unwrap_from_user_error(*old(ctx), amount) is None ==> old(ctx).user.lamports + amount <= u64::MAX,
    ensures
        result == outcome(unwrap_from_user_error(*old(ctx), amount)),
        result is Ok ==> *final(ctx) == unwrap_from_user_effect(*old(ctx), amount),
        result is Err ==> *final(ctx) == *old(ctx),
{
    check_balance_of(&ctx.user_balance.data, &ctx.user.key, &ctx.mint.key)?;
    check_owner(&ctx.authority, &ctx.user_balance.data.user)?;
    match lamport_transfer(&mut ctx.sol_vault.lamports, &mut ctx.user.lamports, amount) {
        Ok(()) => {},
        Err(e) => {
            return Err(refusal(e));
        },
    }
    ctx.user_balance.data.encrypted_balance = EncryptedValue::zero();
    Ok(())
}

/// Why `transfer_to_user` is refused; the checks are made in this order.
pub open spec fn transfer_to_user_error(ctx: TransferToUser) -> Option<CustomError> {
    first_of(
        require_balance_of(ctx.source_balance.data, ctx.source_user, ctx.mint.key),
        require_balance_of(ctx.dest_balance.data, ctx.dest_user, ctx.mint.key),
    )
}

/// The records after the transfer: the source is at encrypted zero, the
/// destination at the handle of `encrypted_amount`.
pub open spec fn transfer_to_user_effect(ctx: TransferToUser, encrypted_amount: u128) -> TransferToUser {
    TransferToUser {
        source_balance: with_balance(ctx.source_balance, EncryptedValue::spec_zero()),
        dest_balance: with_balance(ctx.dest_balance, EncryptedValue::spec_wrap(encrypted_amount)),
        ..ctx
    }
}

/// Transfers an encrypted amount from one user's balance to another's.
pub fn transfer_to_user(ctx: &mut TransferToUser, encrypted_amount: u128) -> (result: Result<(), CustomError>)
    ensures
        result == outcome(transfer_to_user_error(*old(ctx))),
        result is Ok ==> *final(ctx) == transfer_to_user_effect(*old(ctx), encrypted_amount),
        result is Err ==> *final(ctx) == *old(ctx),
{
    check_balance_of(&ctx.source_balance.data, &ctx.source_user, &ctx.mint.key)?;
    check_balance_of(&ctx.dest_balance.data, &ctx.dest_user, &ctx.mint.key)?;
    ctx.source_balance.data.encrypted_balance = EncryptedValue::zero();
    ctx.dest_balance.data.encrypted_balance = EncryptedValue::wrap(encrypted_amount);
    Ok(())
}

/// Why `faucet_usdc` is refused: the balance exists and is another user's,
/// or of another asset. A balance that does not exist yet is created.
pub open spec fn faucet_usdc_error(ctx: FaucetUsdc) -> Option<CustomError> {
    if !ctx.user_balance.data.is_initialized {
        None
    } else {
        require_balance_of(ctx.user_balance.data, ctx.user, ctx.mint.key)
    }
}

/// The records after the faucet has run.
pub open spec fn faucet_usdc_effect(ctx: FaucetUsdc, encrypted_amount: u128, bump: u8) -> FaucetUsdc {
    FaucetUsdc {
        user_balance: Record {
            data: if ctx.user_balance.data.is_initialized {
                UserBalance {
                    encrypted_balance: EncryptedValue::spec_wrap(encrypted_amount),
                    ..ctx.user_balance.data
                }
            } else {
                UserBalance {
                    encrypted_balance: EncryptedValue::spec_wrap(encrypted_amount),
                    ..created_balance(ctx.user, ctx.mint.key, bump)
                }
            },
            ..ctx.user_balance
        },
        ..ctx
    }
}

/// Hands test units of the stablecoin to the user: the balance, created if
/// it does not exist yet, becomes the handle of `encrypted_amount`.
pub fn faucet_usdc(ctx: &mut FaucetUsdc, encrypted_amount: u128, bump: u8) -> (result: Result<(), CustomError>)
    ensures
        result == outcome(faucet_usdc_error(*old(ctx))),
        result is Ok ==> *final(ctx) == faucet_usdc_effect(*old(ctx), encrypted_amount, bump),
        result is Err ==> *final(ctx) == *old(ctx),
{
    if !ctx.user_balance.data.is_initialized {
        ctx.user_balance.data.user = ctx.user;
        ctx.user_balance.data.mint = ctx.mint.key;
        ctx.user_balance.data.bump = bump;
        ctx.user_balance.data.is_initialized = true;
    } else {
        check_balance_of(&ctx.user_balance.data, &ctx.user, &ctx.mint.key)?;
    }
    ctx.user_balance.data.encrypted_balance = EncryptedValue::wrap(encrypted_amount);
    Ok(())
}

/// Why `wrap_usdc_to_user` is refused; the checks are made in this order.
pub open spec fn wrap_usdc_to_user_error(ctx: WrapUsdcToUser, amount: u64) -> Option<CustomError> {
    first_of(
        require_balance_of(ctx.user_balance.data, ctx.user, ctx.mint.key),
        custody_error(ctx.user_token_account, ctx.user, amount),
    )
}

/// The records after `amount` units of the stablecoin have been wrapped.
pub open spec fn wrap_usdc_to_user_effect(ctx: WrapUsdcToUser, amount: u64, encrypted_amount: u128) -> WrapUsdcToUser {
    WrapUsdcToUser {
        usdc_vault: TokenHolding { amount: (ctx.usdc_vault.amount + amount) as u64, ..ctx.usdc_vault },
        user_token_account: TokenHolding {
            amount: (ctx.user_token_account.amount - amount) as u64,
            ..ctx.user_token_account
        },
        user_balance: with_balance(ctx.user_balance, EncryptedValue::spec_wrap(encrypted_amount)),
        ..ctx
    }
}

fn check_wrap_usdc_to_user(ctx: &WrapUsdcToUser, amount: u64) -> (result: Result<(), CustomError>)
    ensures
        result == outcome(wrap_usdc_to_user_error(*ctx, amount)),
{
    check_balance_of(&ctx.user_balance.data, &ctx.user, &ctx.mint.key)?;
    check_custody(&ctx.user_token_account, &ctx.user, amount)
}

/// Why a wrap of `amount` units of the stablecoin would be refused, if it
/// would.
pub fn wrap_usdc_to_user_refusal(ctx: &WrapUsdcToUser, amount: u64) -> (refused: Option<CustomError>)
    ensures
        refused == wrap_usdc_to_user_error(*ctx, amount),
{
    match check_wrap_usdc_to_user(ctx, amount) {
        Err(e) => Some(e),
        Ok(()) => None,
    }
}

/// Wraps `amount` units of the stablecoin into the user's balance.
pub fn wrap_usdc_to_user(ctx: &mut WrapUsdcToUser, amount: u64, encrypted_amount: u128) -> (result: Result<
    (),
    CustomError,
>)
    requires
        wrap_usdc_to_user_error(*old(ctx), amount) is None ==> old(ctx).usdc_vault.amount + amount <= u64::MAX,
    ensures
        result == outcome(wrap_usdc_to_user_error(*old(ctx), amount)),
        result is Ok ==> *final(ctx) == wrap_usdc_to_user_effect(*old(ctx), amount, encrypted_amount),
        result is Err ==> *final(ctx) == *old(ctx),
{
    check_balance_of(&ctx.user_balance.data, &ctx.user, &ctx.mint.key)?;
    let authority = ctx.user;
    match token_transfer(&mut ctx.user_token_account, &mut ctx.usdc_vault, &authority, amount) {
        Ok(()) => {},
        Err(e) => {
            return Err(refusal(e));
        },
    }
    ctx.user_balance.data.encrypted_balance = EncryptedValue::wrap(encrypted_amount);
    Ok(())
}

/// Why `unwrap_usdc_from_user` is refused; the checks are made in this
/// order. The vault signs for itself, so it must be its own owner.
pub open spec fn unwrap_usdc_from_user_error(ctx: UnwrapUsdcFromUser, amount: u64) -> Option<CustomError> {
    first_of(
        require_balance_of(ctx.user_balance.data, ctx.user, ctx.mint.key),
        custody_error(ctx.usdc_vault, ctx.usdc_vault.key, amount),
    )
}

/// The records after `amount` units of the stablecoin have been unwrapped.
pub open spec fn unwrap_usdc_from_user_effect(ctx: UnwrapUsdcFromUser, amount: u64) -> UnwrapUsdcFromUser {
    UnwrapUsdcFromUser {
        usdc_vault: TokenHolding { amount: (ctx.usdc_vault.amount - amount) as u64, ..ctx.usdc_vault },
        user_token_account: TokenHolding {
            amount: (ctx.user_token_account.amount + amount) as u64,
            ..ctx.user_token_account
        },
        user_balance: with_balance(ctx.user_balance, EncryptedValue::spec_zero()),
        ..ctx
    }
}

fn check_unwrap_usdc_from_user(ctx: &UnwrapUsdcFromUser, amount: u64) -> (result: Result<(), CustomError>)
    ensures
        result == outcome(unwrap_usdc_from_user_error(*ctx, amount)),
{
    check_balance_of(&ctx.user_balance.data, &ctx.user, &ctx.mint.key)?;
    check_custody(&ctx.usdc_vault, &ctx.usdc_vault.key, amount)
}

/// Why an unwrap of `amount` units of the stablecoin would be refused, if it
/// would.
pub fn unwrap_usdc_from_user_refusal(ctx: &UnwrapUsdcFromUser, amount: u64) -> (refused: Option<CustomError>)
    ensures
        refused == unwrap_usdc_from_user_error(*ctx, amount),
{
    match check_unwrap_usdc_from_user(ctx, amount) {
        Err(e) => Some(e),
        Ok(()) => None,
    }
}

/// Unwraps `amount` units of the stablecoin from the user's balance.
///
/// Fails with `InsufficientFunds`, changing nothing, where the vault holds
/// less than `amount`.
pub fn unwrap_usdc_from_user(ctx: &mut UnwrapUsdcFromUser, amount: u64) -> (result: Result<(), CustomError>)
    requires
        unwrap_usdc_from_user_error(*old(ctx), amount) is None ==> old(ctx).user_token_account.amount + amount
            <= u64::MAX,
    ensures
        result == outcome(unwrap_usdc_from_user_error(*old(ctx), amount)),
        result is Ok ==> *final(ctx) == unwrap_usdc_from_user_effect(*old(ctx), amount),
        result is Err ==> *final(ctx) == *old(ctx),
{
    check_balance_of(&ctx.user_balance.data, &ctx.user, &ctx.mint.key)?;
    let authority = ctx.usdc_vault.key;
    match token_transfer(&mut ctx.usdc_vault, &mut ctx.user_token_account, &authority, amount) {
        Ok(()) => {},
        Err(e) => {
            return Err(refusal(e));
        },
    }
    ctx.user_balance.data.encrypted_balance = EncryptedValue::zero();
    Ok(())
}

} // verus!
