//! The confidential token ledger: mints, accounts and their lifecycle.
//!
//! Each operation names the records it works on, checks every condition
//! before it writes anything, and reports the first condition that fails.
//! An operation that fails leaves every record as it found it.

use vstd::prelude::*;
use crate::address::Address;
use crate::custody::{Record, Wallet};
use crate::encrypted::EncryptedValue;
use crate::access_control::{
    check_authority, check_mint_initialized, check_mint_match, check_open, check_owner, check_usable, first_of,
    require_authority, require_mint_initialized, require_mint_match, require_open, require_owner,
    require_usable,
};
use crate::token_state::{outcome, stored_option, AccountState, COption, CustomError, IncoAccount, IncoMint};

verus! {

/// Records of `initialize_mint`: the slot that will hold the mint.
#[derive(Clone, Copy, Debug, PartialEq)]
pub struct InitializeMint {
    pub mint: Record<IncoMint>,
}

/// Records of `initialize_account`: the slot for the account, the mint it
/// will belong to and the address that will own it.
#[derive(Clone, Copy, Debug, PartialEq)]
pub struct InitializeAccount {
    pub account: Record<IncoAccount>,
    pub mint: Record<IncoMint>,
    pub owner: Address,
}

/// Records of `mint_to`, with the signer who claims the mint authority.
#[derive(Clone, Copy, Debug, PartialEq)]
pub struct IncoMintTo {
    pub mint: Record<IncoMint>,
    pub account: Record<IncoAccount>,
    pub mint_authority: Address,
}

/// Records of `transfer`, with the signer who acts for the source.
#[derive(Clone, Copy, Debug, PartialEq)]
pub struct IncoTransfer {
    pub source: Record<IncoAccount>,
    pub destination: Record<IncoAccount>,
    pub authority: Address,
}

/// Records of `burn`, with the signer.
#[derive(Clone, Copy, Debug, PartialEq)]
pub struct IncoBurn {
    pub account: Record<IncoAccount>,
    pub mint: Record<IncoMint>,
    pub authority: Address,
}

/// Records of `freeze_account`, with the signer who claims the freeze
/// authority.
#[derive(Clone, Copy, Debug, PartialEq)]
pub struct FreezeAccount {
    pub account: Record<IncoAccount>,
    pub mint: Record<IncoMint>,
    pub freeze_authority: Address,
}

/// Records of `thaw_account`, with the signer who claims the freeze
/// authority.
#[derive(Clone, Copy, Debug, PartialEq)]
pub struct ThawAccount {
    pub account: Record<IncoAccount>,
    pub mint: Record<IncoMint>,
    pub freeze_authority: Address,
}

/// Records of `close_account`: the account, the wallet that receives its
/// storage deposit, and the signer.
#[derive(Clone, Copy, Debug, PartialEq)]
pub struct CloseAccount {
    pub account: Record<IncoAccount>,
    pub destination: Wallet,
    pub authority: Address,
}

/// Why `initialize_mint` is refused: the slot already holds a mint.
pub open spec fn initialize_mint_error(ctx: InitializeMint) -> Option<CustomError> {
    if ctx.mint.data.is_initialized {
        Some(CustomError::InvalidState)
    } else {
        None
    }
}

/// The records after a mint has been created in the slot.
pub open spec fn initialize_mint_effect(
    ctx: InitializeMint,
    decimals: u8,
    mint_authority: Address,
    freeze_authority: Option<Address>,
) -> InitializeMint {
    InitializeMint {
        mint: Record {
            data: IncoMint {
                mint_authority: COption::Present(mint_authority),
                supply: EncryptedValue::spec_zero(),
                decimals,
                is_initialized: true,
                freeze_authority: stored_option(freeze_authority),
            },
            ..ctx.mint
        },
    }
}

/// Creates a confidential mint with an encrypted supply of zero.
///
/// Fails with `InvalidState` where the slot already holds a mint.
pub fn initialize_mint(
    ctx: &mut InitializeMint,
    decimals: u8,
    mint_authority: Address,
    freeze_authority: Option<Address>,
) -> (result: Result<(), CustomError>)
    ensures
        result == outcome(initialize_mint_error(*old(ctx))),
        result is Ok ==> *final(ctx) == initialize_mint_effect(
            *old(ctx),
            decimals,
            mint_authority,
            freeze_authority,
        ),
        result is Err ==> *final(ctx) == *old(ctx),
{
    if ctx.mint.data.is_initialized {
        return Err(CustomError::InvalidState);
    }
    ctx.mint.data.mint_authority = COption::Present(mint_authority);
    ctx.mint.data.supply = EncryptedValue::zero();
    ctx.mint.data.decimals = decimals;
    ctx.mint.data.is_initialized = true;
    ctx.mint.data.freeze_authority = COption::from_option(freeze_authority);
    Ok(())
}

/// Why `initialize_account` is refused: the slot already holds an account, or
/// the mint was never created.
pub open spec fn initialize_account_error(ctx: InitializeAccount) -> Option<CustomError> {
    if ctx.account.data.state != AccountState::Uninitialized {
        Some(CustomError::InvalidState)
    } else {
        require_mint_initialized(ctx.mint.data)
    }
}

/// The records after the account has been created.
pub open spec fn initialize_account_effect(ctx: InitializeAccount) -> InitializeAccount {
    InitializeAccount {
        account: Record {
            data: IncoAccount {
                mint: ctx.mint.key,
                owner: ctx.owner,
                amount: EncryptedValue::spec_zero(),
                delegate: COption::Absent,
                state: AccountState::Initialized,
                is_native: COption::Absent,
                delegated_amount: EncryptedValue::spec_zero(),
                close_authority: COption::Absent,
            },
            ..ctx.account
        },
        ..ctx
    }
}

/// Creates an account of the mint for the owner, with an encrypted balance
/// of zero, no delegate and no close authority.
pub fn initialize_account(ctx: &mut InitializeAccount) -> (result: Result<(), CustomError>)
    ensures
        result == outcome(initialize_account_error(*old(ctx))),
        result is Ok ==> *final(ctx) == initialize_account_effect(*old(ctx)),
        result is Err ==> *final(ctx) == *old(ctx),
{
    match ctx.account.data.state {
        AccountState::Uninitialized => {},
        _ => {
            return Err(CustomError::InvalidState);
        },
    }
    check_mint_initialized(&ctx.mint.data)?;
    ctx.account.data.mint = ctx.mint.key;
    ctx.account.data.owner = ctx.owner;
    ctx.account.data.amount = EncryptedValue::zero();
    ctx.account.data.delegate = COption::Absent;
    ctx.account.data.state = AccountState::Initialized;
    ctx.account.data.is_native = COption::Absent;
    ctx.account.data.delegated_amount = EncryptedValue::zero();
    ctx.account.data.close_authority = COption::Absent;
    Ok(())
}

/// Why `mint_to` is refused; the checks are made in this order.
pub open spec fn mint_to_error(ctx: IncoMintTo) -> Option<CustomError> {
    first_of(
        require_mint_initialized(ctx.mint.data),
        first_of(
            require_usable(ctx.account.data.state),
            first_of(
                require_mint_match(ctx.account.data.mint, ctx.mint.key),
                require_authority(ctx.mint_authority, ctx.mint.data.mint_authority),
            ),
        ),
    )
}

/// The records after `amount` has been minted: the account's balance and the
/// mint's supply are both the handle of `amount`.
pub open spec fn mint_to_effect(ctx: IncoMintTo, amount: u128) -> IncoMintTo {
    IncoMintTo {
        mint: Record { data: IncoMint { supply: EncryptedValue::spec_wrap(amount), ..ctx.mint.data }, ..ctx.mint },
        account: Record {
            data: IncoAccount { amount: EncryptedValue::spec_wrap(amount), ..ctx.account.data },
            ..ctx.account
        },
        ..ctx
    }
}

/// Mints the encrypted `amount` to the account.
pub fn mint_to(ctx: &mut IncoMintTo, amount: u128) -> (result: Result<(), CustomError>)
    ensures
        result == outcome(mint_to_error(*old(ctx))),
        result is Ok ==> *final(ctx) == mint_to_effect(*old(ctx), amount),
        result is Err ==> *final(ctx) == *old(ctx),
{
    check_mint_initialized(&ctx.mint.data)?;
    check_usable(ctx.account.data.state)?;
    check_mint_match(&ctx.account.data.mint, &ctx.mint.key)?;
    check_authority(&ctx.mint_authority, &ctx.mint.data.mint_authority)?;
    ctx.account.data.amount = EncryptedValue::wrap(amount);
    ctx.mint.data.supply = EncryptedValue::wrap(amount);
    Ok(())
}

/// Why `transfer` is refused; the checks are made in this order.
pub open spec fn transfer_error(ctx: IncoTransfer) -> Option<CustomError> {
    first_of(
        require_usable(ctx.source.data.state),
        first_of(
            require_usable(ctx.destination.data.state),
            first_of(
                require_mint_match(ctx.destination.data.mint, ctx.source.data.mint),
                require_owner(ctx.authority, ctx.source.data.owner),
            ),
        ),
    )
}

/// The records after the transfer: the destination's balance is the handle
/// of `amount`.
pub open spec fn transfer_effect(ctx: IncoTransfer, amount: u128) -> IncoTransfer {
    IncoTransfer {
        destination: Record {
            data: IncoAccount { amount: EncryptedValue::spec_wrap(amount), ..ctx.destination.data },
            ..ctx.destination
        },
        ..ctx
    }
}

/// Transfers the encrypted `amount` from the source to the destination, on
/// the word of the source's owner.
pub fn transfer(ctx: &mut IncoTransfer, amount: u128) -> (result: Result<(), CustomError>)
    ensures
        result == outcome(transfer_error(*old(ctx))),
        result is Ok ==> *final(ctx) == transfer_effect(*old(ctx), amount),
        result is Err ==> *final(ctx) == *old(ctx),
{
    check_usable(ctx.source.data.state)?;
    check_usable(ctx.destination.data.state)?;
    check_mint_match(&ctx.destination.data.mint, &ctx.source.data.mint)?;
    check_owner(&ctx.authority, &ctx.source.data.owner)?;
    ctx.destination.data.amount = EncryptedValue::wrap(amount);
    Ok(())
}

/// Why `burn` is refused; the checks are made in this order.
pub open spec fn burn_error(ctx: IncoBurn) -> Option<CustomError> {
    first_of(
        require_usable(ctx.account.data.state),
        first_of(
            require_mint_match(ctx.account.data.mint, ctx.mint.key),
            require_mint_initialized(ctx.mint.data),
        ),
    )
}

/// The records after the burn: the account's balance is encrypted zero.
pub open spec fn burn_effect(ctx: IncoBurn) -> IncoBurn {
    IncoBurn {
        account: Record {
            data: IncoAccount { amount: EncryptedValue::spec_zero(), ..ctx.account.data },
            ..ctx.account
        },
        ..ctx
    }
}

/// Burns the account's balance: whatever `amount` is, the balance becomes
/// encrypted zero.
pub fn burn(ctx: &mut IncoBurn, amount: u128) -> (result: Result<(), CustomError>)
    ensures
        result == outcome(burn_error(*old(ctx))),
        result is Ok ==> *final(ctx) == burn_effect(*old(ctx)),
        result is Err ==> *final(ctx) == *old(ctx),
{
    check_usable(ctx.account.data.state)?;
    check_mint_match(&ctx.account.data.mint, &ctx.mint.key)?;
    check_mint_initialized(&ctx.mint.data)?;
    ctx.account.data.amount = EncryptedValue::zero();
    Ok(())
}

/// Why `freeze_account` is refused; the checks are made in this order.
pub open spec fn freeze_account_error(ctx: FreezeAccount) -> Option<CustomError> {
    first_of(
        require_open(ctx.account.data.state),
        first_of(
            require_mint_match(ctx.account.data.mint, ctx.mint.key),
            first_of(
                require_mint_initialized(ctx.mint.data),
                require_authority(ctx.freeze_authority, ctx.mint.data.freeze_authority),
            ),
        ),
    )
}

/// The records with the account in the given state.
pub open spec fn with_state(account: Record<IncoAccount>, state: AccountState) -> Record<IncoAccount> {
    Record { data: IncoAccount { state, ..account.data }, ..account }
}

/// The records after the account has been frozen.
pub open spec fn freeze_account_effect(ctx: FreezeAccount) -> FreezeAccount {
    FreezeAccount { account: with_state(ctx.account, AccountState::Frozen), ..ctx }
}

/// Freezes an account, on the word of the mint's freeze authority.
pub fn freeze_account(ctx: &mut FreezeAccount) -> (result: Result<(), CustomError>)
    ensures
        result == outcome(freeze_account_error(*old(ctx))),
        result is Ok ==> *final(ctx) == freeze_account_effect(*old(ctx)),
        result is Err ==> *final(ctx) == *old(ctx),
{
    check_open(ctx.account.data.state)?;
    check_mint_match(&ctx.account.data.mint, &ctx.mint.key)?;
    check_mint_initialized(&ctx.mint.data)?;
    check_authority(&ctx.freeze_authority, &ctx.mint.data.freeze_authority)?;
    ctx.account.data.state = AccountState::Frozen;
    Ok(())
}

/// Why `thaw_account` is refused; the checks are made in this order.
pub open spec fn thaw_account_error(ctx: ThawAccount) -> Option<CustomError> {
    if ctx.account.data.state != AccountState::Frozen {
        Some(CustomError::InvalidState)
    } else {
        first_of(
            require_mint_match(ctx.account.data.mint, ctx.mint.key),
            first_of(
                require_mint_initialized(ctx.mint.data),
                require_authority(ctx.freeze_authority, ctx.mint.data.freeze_authority),
            ),
        )
    }
}

/// The records after the account has been thawed.
pub open spec fn thaw_account_effect(ctx: ThawAccount) -> ThawAccount {
    ThawAccount { account: with_state(ctx.account, AccountState::Initialized), ..ctx }
}

/// Thaws a frozen account, on the word of the mint's freeze authority.
pub fn thaw_account(ctx: &mut ThawAccount) -> (result: Result<(), CustomError>)
    ensures
        result == outcome(thaw_account_error(*old(ctx))),
        result is Ok ==> *final(ctx) == thaw_account_effect(*old(ctx)),
        result is Err ==> *final(ctx) == *old(ctx),
{
    match ctx.account.data.state {
        AccountState::Frozen => {},
        _ => {
            return Err(CustomError::InvalidState);
        },
    }
    check_mint_match(&ctx.account.data.mint, &ctx.mint.key)?;
    check_mint_initialized(&ctx.mint.data)?;
    check_authority(&ctx.freeze_authority, &ctx.mint.data.freeze_authority)?;
    ctx.account.data.state = AccountState::Initialized;
    Ok(())
}

/// Why `close_account` is refused: the account is not in state Initialized.
pub open spec fn close_account_error(ctx: CloseAccount) -> Option<CustomError> {
    require_open(ctx.account.data.state)
}

/// The records after the account has been closed: its deposit stands with
/// the destination, and its slot holds no account.
pub open spec fn close_account_effect(ctx: CloseAccount) -> CloseAccount {
    CloseAccount {
        account: Record { lamports: 0, data: IncoAccount::vacant(), ..ctx.account },
        destination: Wallet {
            lamports: (ctx.destination.lamports + ctx.account.lamports) as u64,
            ..ctx.destination
        },
        ..ctx
    }
}

/// Why closing the account would be refused, if it would.
pub fn close_account_refusal(ctx: &CloseAccount) -> (refused: Option<CustomError>)
    ensures
        refused == close_account_error(*ctx),
{
    match check_open(ctx.account.data.state) {
        Err(e) => Some(e),
        Ok(()) => None,
    }
}

/// Closes an account: its storage deposit goes to the destination and the
/// account ceases to exist.
pub fn close_account(ctx: &mut CloseAccount) -> (result: Result<(), CustomError>)
    requires
        close_account_error(*old(ctx)) is None ==> old(ctx).destination.lamports + old(ctx).account.lamports
            <= u64::MAX,
    ensures
        result == outcome(close_account_error(*old(ctx))),
        result is Ok ==> *final(ctx) == close_account_effect(*old(ctx)),
        result is Err ==> *final(ctx) == *old(ctx),
{
    check_open(ctx.account.data.state)?;
    let deposit: u64 = ctx.account.lamports;
    ctx.account.lamports = 0;
    ctx.destination.lamports = ctx.destination.lamports + deposit;
    ctx.account.data = IncoAccount::new_vacant();
    Ok(())
}

} // verus!
