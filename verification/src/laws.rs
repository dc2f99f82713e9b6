//! What holds of the ledger, the bridge and the market maker, whatever the
//! records are.

use vstd::prelude::*;
use crate::access_control::require_usable;
use crate::address::Address;
use crate::bridge::{
    bridge_error, unwrap_effect, unwrap_error, unwrap_sol_effect, unwrap_sol_error, wrap_effect, wrap_error,
    wrap_sol_effect, wrap_sol_error, UnwrapSol, UnwrapTokens, WrapSol, WrapTokens,
};
use crate::custody::Record;
use crate::encrypted::EncryptedValue;
use crate::inco_token::{
    burn_error, close_account_effect, close_account_error, freeze_account_effect, freeze_account_error,
    initialize_mint_effect, initialize_mint_error, mint_to_effect, mint_to_error,
    thaw_account_effect, thaw_account_error, transfer_error, with_state, CloseAccount, FreezeAccount, IncoBurn,
    IncoMintTo, IncoTransfer, InitializeMint, ThawAccount,
};
use crate::private_amm::{
    initialize_pool_error, remove_liquidity_error, require_pool, AmmError, InitializePool, RemoveLiquidity,
};
use crate::token_state::{AccountState, CustomError, IncoAccount};
use crate::user_ledger::{
    require_balance_of, unwrap_from_user_effect, unwrap_from_user_error, unwrap_usdc_from_user_effect,
    unwrap_usdc_from_user_error, wrap_to_user_effect, wrap_to_user_error, wrap_usdc_to_user_effect,
    wrap_usdc_to_user_error, UnwrapFromUser, UnwrapUsdcFromUser, WrapToUser, WrapUsdcToUser,
};

verus! {

/// A mint that has just been created accepts a mint of any encrypted amount
/// to any usable account of it, on the word of the authority it was created
/// with; the account's balance is then the handle of that amount.
pub proof fn lemma_mint_to_after_initialize_mint(
    slot: InitializeMint,
    decimals: u8,
    mint_authority: Address,
    freeze_authority: Option<Address>,
    account: Record<IncoAccount>,
    amount: u128,
)
    requires
        initialize_mint_error(slot) is None,
        require_usable(account.data.state) is None,
        account.data.mint == slot.mint.key,
    ensures
        ({
            let created = initialize_mint_effect(slot, decimals, mint_authority, freeze_authority);
            let ctx = IncoMintTo { mint: created.mint, account, mint_authority };
            &&& mint_to_error(ctx) is None
            &&& mint_to_effect(ctx, amount).account.data.amount.handle == amount
            &&& mint_to_effect(ctx, amount).mint.data.supply.handle == amount
        }),
{
}

/// Minting never fails with `MintMismatch` where the account belongs to the
/// mint.
pub proof fn lemma_mint_to_no_mismatch(ctx: IncoMintTo)
    requires
        ctx.account.data.mint == ctx.mint.key,
    ensures
        mint_to_error(ctx) != Some(CustomError::MintMismatch),
{
}

/// An account that has just been frozen is in state Frozen, and nothing else
/// of it has changed.
pub proof fn lemma_freeze_makes_frozen(ctx: FreezeAccount)
    requires
        freeze_account_error(ctx) is None,
    ensures
        freeze_account_effect(ctx).account == with_state(ctx.account, AccountState::Frozen),
        freeze_account_effect(ctx).account.data.state == AccountState::Frozen,
        ctx.mint.data.is_initialized,
{
}

/// Burning from a frozen account fails with `AccountFrozen`.
pub proof fn lemma_frozen_refuses_burn(ctx: IncoBurn)
    requires
        ctx.account.data.state == AccountState::Frozen,
    ensures
        burn_error(ctx) == Some(CustomError::AccountFrozen),
{
}

/// A transfer out of a frozen account fails with `AccountFrozen`.
pub proof fn lemma_frozen_refuses_transfer_out(ctx: IncoTransfer)
    requires
        ctx.source.data.state == AccountState::Frozen,
    ensures
        transfer_error(ctx) == Some(CustomError::AccountFrozen),
{
}

/// A transfer into a frozen account, from a source that may send, fails with
/// `AccountFrozen`.
pub proof fn lemma_frozen_refuses_transfer_in(ctx: IncoTransfer)
    requires
        ctx.destination.data.state == AccountState::Frozen,
        require_usable(ctx.source.data.state) is None,
    ensures
        transfer_error(ctx) == Some(CustomError::AccountFrozen),
{
}

/// Minting to a frozen account of a mint that exists fails with
/// `AccountFrozen`.
pub proof fn lemma_frozen_refuses_mint_to(ctx: IncoMintTo)
    requires
        ctx.account.data.state == AccountState::Frozen,
        ctx.mint.data.is_initialized,
    ensures
        mint_to_error(ctx) == Some(CustomError::AccountFrozen),
{
}

/// After a freeze, minting to that account of that mint fails with
/// `AccountFrozen`, whoever signs.
pub proof fn lemma_freeze_then_mint_to(frozen: FreezeAccount, signer: Address)
    requires
        freeze_account_error(frozen) is None,
    ensures
        mint_to_error(
            IncoMintTo {
                mint: frozen.mint,
                account: freeze_account_effect(frozen).account,
                mint_authority: signer,
            },
        ) == Some(CustomError::AccountFrozen),
{
}

/// The freeze authority that froze an account can thaw it, and the account
/// is then exactly what it was before the freeze: whatever it could do
/// before, it can do again.
pub proof fn lemma_thaw_restores(ctx: FreezeAccount)
    requires
        freeze_account_error(ctx) is None,
    ensures
        ({
            let frozen = freeze_account_effect(ctx);
            let again = ThawAccount {
                account: frozen.account,
                mint: frozen.mint,
                freeze_authority: frozen.freeze_authority,
            };
            &&& thaw_account_error(again) is None
            &&& thaw_account_effect(again).account == ctx.account
        }),
{
}

/// Closing a frozen account fails with `UninitializedState`.
pub proof fn lemma_close_refuses_frozen(ctx: CloseAccount)
    requires
        ctx.account.data.state == AccountState::Frozen,
    ensures
        close_account_error(ctx) == Some(CustomError::UninitializedState),
{
}

/// Closing an account in state Initialized leaves it without deposit and
/// the destination richer by exactly that deposit; the account cannot be
/// closed a second time.
pub proof fn lemma_close_pays_once(ctx: CloseAccount)
    requires
        ctx.account.data.state == AccountState::Initialized,
        ctx.destination.lamports + ctx.account.lamports <= u64::MAX,
    ensures
        close_account_error(ctx) is None,
        close_account_effect(ctx).account.lamports == 0,
        close_account_effect(ctx).destination.lamports == ctx.destination.lamports + ctx.account.lamports,
        close_account_error(close_account_effect(ctx)) == Some(CustomError::UninitializedState),
{
}

/// The records of an unwrap that follows a wrap on the same holdings.
pub open spec fn unwrap_after(wrapped: WrapTokens) -> UnwrapTokens {
    UnwrapTokens {
        user_spl_account: wrapped.user_spl_account,
        vault: wrapped.vault,
        confidential_account: wrapped.confidential_account,
        spl_mint: wrapped.spl_mint,
        user: wrapped.user,
    }
}

/// Wrapping an amount and unwrapping the same amount leaves the vault and
/// the user's holding with what they held before, and the confidential
/// balance at encrypted zero: at its value before the wrap, where that was
/// encrypted zero.
pub proof fn lemma_wrap_unwrap_round_trip(ctx: WrapTokens, amount: u64, encrypted_amount: u128)
    requires
        wrap_error(ctx, amount) is None,
        ctx.vault.owner == ctx.vault.key,
        ctx.vault.amount + amount <= u64::MAX,
    ensures
        ({
            let back = unwrap_after(wrap_effect(ctx, amount, encrypted_amount));
            &&& unwrap_error(back, amount) is None
            &&& unwrap_effect(back, amount).vault == ctx.vault
            &&& unwrap_effect(back, amount).user_spl_account == ctx.user_spl_account
            &&& unwrap_effect(back, amount).confidential_account.data.amount == EncryptedValue::spec_zero()
            &&& ctx.confidential_account.data.amount == EncryptedValue::spec_zero() ==> unwrap_effect(
                back,
                amount,
            ) == unwrap_after(ctx)
        }),
{
}

/// The records of an unwrap of native currency that follows a wrap.
pub open spec fn unwrap_sol_after(wrapped: WrapSol) -> UnwrapSol {
    UnwrapSol {
        sol_vault: wrapped.sol_vault,
        confidential_account: wrapped.confidential_account,
        user: wrapped.user,
    }
}

/// Wrapping native currency and unwrapping the same amount leaves the vault
/// and the wallet with what they held before, and the confidential balance
/// at encrypted zero.
pub proof fn lemma_wrap_unwrap_sol_round_trip(ctx: WrapSol, amount: u64, encrypted_amount: u128)
    requires
        wrap_sol_error(ctx, amount) is None,
        ctx.sol_vault.lamports + amount <= u64::MAX,
    ensures
        ({
            let back = unwrap_sol_after(wrap_sol_effect(ctx, amount, encrypted_amount));
            &&& unwrap_sol_error(back, amount) is None
            &&& unwrap_sol_effect(back, amount).sol_vault == ctx.sol_vault
            &&& unwrap_sol_effect(back, amount).user == ctx.user
            &&& unwrap_sol_effect(back, amount).confidential_account.data.amount == EncryptedValue::spec_zero()
            &&& ctx.confidential_account.data.amount == EncryptedValue::spec_zero() ==> unwrap_sol_effect(
                back,
                amount,
            ) == unwrap_sol_after(ctx)
        }),
{
}

/// The records of an unwrap from a user's balance that follows a wrap, on
/// the word of `authority`.
pub open spec fn unwrap_from_user_after(wrapped: WrapToUser, authority: Address) -> UnwrapFromUser {
    UnwrapFromUser {
        sol_vault: wrapped.sol_vault,
        user_balance: wrapped.user_balance,
        mint: wrapped.mint,
        user: wrapped.user,
        authority,
    }
}

/// Wrapping native currency into a user's balance and unwrapping the same
/// amount, on the user's word, leaves the vault and the wallet with what
/// they held before, and the balance at encrypted zero.
pub proof fn lemma_wrap_unwrap_user_round_trip(ctx: WrapToUser, amount: u64, encrypted_amount: u128)
    requires
        wrap_to_user_error(ctx, amount) is None,
        ctx.sol_vault.lamports + amount <= u64::MAX,
    ensures
        ({
            let back = unwrap_from_user_after(wrap_to_user_effect(ctx, amount, encrypted_amount), ctx.user.key);
            &&& unwrap_from_user_error(back, amount) is None
            &&& unwrap_from_user_effect(back, amount).sol_vault == ctx.sol_vault
            &&& unwrap_from_user_effect(back, amount).user == ctx.user
            &&& unwrap_from_user_effect(back, amount).user_balance.data.encrypted_balance
                == EncryptedValue::spec_zero()
            &&& ctx.user_balance.data.encrypted_balance == EncryptedValue::spec_zero()
                ==> unwrap_from_user_effect(back, amount) == unwrap_from_user_after(ctx, ctx.user.key)
        }),
{
}

/// The records of an unwrap of the stablecoin that follows a wrap.
pub open spec fn unwrap_usdc_after(wrapped: WrapUsdcToUser) -> UnwrapUsdcFromUser {
    UnwrapUsdcFromUser {
        usdc_vault: wrapped.usdc_vault,
        user_token_account: wrapped.user_token_account,
        user_balance: wrapped.user_balance,
        mint: wrapped.mint,
        user: wrapped.user,
    }
}

/// Wrapping units of the stablecoin into a user's balance and unwrapping the
/// same amount leaves the vault and the user's holding with what they held
/// before, and the balance at encrypted zero.
pub proof fn lemma_wrap_unwrap_usdc_round_trip(ctx: WrapUsdcToUser, amount: u64, encrypted_amount: u128)
    requires
        wrap_usdc_to_user_error(ctx, amount) is None,
        ctx.usdc_vault.owner == ctx.usdc_vault.key,
        ctx.usdc_vault.amount + amount <= u64::MAX,
    ensures
        ({
            let back = unwrap_usdc_after(wrap_usdc_to_user_effect(ctx, amount, encrypted_amount));
            &&& unwrap_usdc_from_user_error(back, amount) is None
            &&& unwrap_usdc_from_user_effect(back, amount).usdc_vault == ctx.usdc_vault
            &&& unwrap_usdc_from_user_effect(back, amount).user_token_account == ctx.user_token_account
            &&& unwrap_usdc_from_user_effect(back, amount).user_balance.data.encrypted_balance
                == EncryptedValue::spec_zero()
            &&& ctx.user_balance.data.encrypted_balance == EncryptedValue::spec_zero()
                ==> unwrap_usdc_from_user_effect(back, amount) == unwrap_usdc_after(ctx)
        }),
{
}

/// An unwrap that asks for more than the vault holds, on holdings and an
/// account that pass their checks, fails with `InsufficientFunds`.
pub proof fn lemma_unwrap_beyond_vault(ctx: UnwrapTokens, amount: u64)
    requires
        bridge_error(ctx.user_spl_account, ctx.vault, ctx.confidential_account.data, ctx.spl_mint, ctx.user)
            is None,
        ctx.vault.amount < amount,
    ensures
        unwrap_error(ctx, amount) == Some(CustomError::InsufficientFunds),
{
}

/// An unwrap of native currency that asks for more than the vault holds, by
/// the owner of an open account, fails with `InsufficientFunds`.
pub proof fn lemma_unwrap_sol_beyond_vault(ctx: UnwrapSol, amount: u64)
    requires
        ctx.confidential_account.data.owner == ctx.user.key,
        ctx.confidential_account.data.state == AccountState::Initialized,
        ctx.sol_vault.lamports < amount,
    ensures
        unwrap_sol_error(ctx, amount) == Some(CustomError::InsufficientFunds),
{
}

/// An unwrap from a user's balance that asks for more than the vault holds,
/// on the word of the balance's owner, fails with `InsufficientFunds`.
pub proof fn lemma_unwrap_from_user_beyond_vault(ctx: UnwrapFromUser, amount: u64)
    requires
        require_balance_of(ctx.user_balance.data, ctx.user.key, ctx.mint.key) is None,
        ctx.authority == ctx.user_balance.data.user,
        ctx.sol_vault.lamports < amount,
    ensures
        unwrap_from_user_error(ctx, amount) == Some(CustomError::InsufficientFunds),
{
}

/// An unwrap of the stablecoin that asks for more than the vault holds,
/// from the balance of the user, fails with `InsufficientFunds`.
pub proof fn lemma_unwrap_usdc_beyond_vault(ctx: UnwrapUsdcFromUser, amount: u64)
    requires
        require_balance_of(ctx.user_balance.data, ctx.user, ctx.mint.key) is None,
        ctx.usdc_vault.amount < amount,
    ensures
        unwrap_usdc_from_user_error(ctx, amount) == Some(CustomError::InsufficientFunds),
{
}

/// Wrapping puts into the vault exactly the units that leave the user's
/// holding, and unwrapping takes out of it exactly the units that reach the
/// holding: between them the two always hold the same total.
pub proof fn lemma_bridge_conserves(wrapping: WrapTokens, unwrapping: UnwrapTokens, amount: u64, encrypted_amount: u128)
    requires
        wrap_error(wrapping, amount) is None,
        wrapping.vault.amount + amount <= u64::MAX,
        unwrap_error(unwrapping, amount) is None,
        unwrapping.user_spl_account.amount + amount <= u64::MAX,
    ensures
        wrap_effect(wrapping, amount, encrypted_amount).vault.amount == wrapping.vault.amount + amount,
        wrap_effect(wrapping, amount, encrypted_amount).user_spl_account.amount + wrap_effect(
            wrapping,
            amount,
            encrypted_amount,
        ).vault.amount == wrapping.user_spl_account.amount + wrapping.vault.amount,
        unwrap_effect(unwrapping, amount).vault.amount == unwrapping.vault.amount - amount,
        unwrap_effect(unwrapping, amount).user_spl_account.amount + unwrap_effect(unwrapping, amount).vault.amount
            == unwrapping.user_spl_account.amount + unwrapping.vault.amount,
{
}

/// Wrapping and unwrapping native currency keep the total that the wallet
/// and the vault hold between them.
pub proof fn lemma_sol_bridge_conserves(wrapping: WrapSol, unwrapping: UnwrapSol, amount: u64, encrypted_amount: u128)
    requires
        wrap_sol_error(wrapping, amount) is None,
        wrapping.sol_vault.lamports + amount <= u64::MAX,
        unwrap_sol_error(unwrapping, amount) is None,
        unwrapping.user.lamports + amount <= u64::MAX,
    ensures
        wrap_sol_effect(wrapping, amount, encrypted_amount).sol_vault.lamports == wrapping.sol_vault.lamports
            + amount,
        wrap_sol_effect(wrapping, amount, encrypted_amount).user.lamports + wrap_sol_effect(
            wrapping,
            amount,
            encrypted_amount,
        ).sol_vault.lamports == wrapping.user.lamports + wrapping.sol_vault.lamports,
        unwrap_sol_effect(unwrapping, amount).sol_vault.lamports == unwrapping.sol_vault.lamports - amount,
        unwrap_sol_effect(unwrapping, amount).user.lamports + unwrap_sol_effect(
            unwrapping,
            amount,
        ).sol_vault.lamports == unwrapping.user.lamports + unwrapping.sol_vault.lamports,
{
}

/// Wrapping into a user's balance and unwrapping from it keep the total
/// that the wallet and the vault hold between them.
pub proof fn lemma_user_bridge_conserves(
    wrapping: WrapToUser,
    unwrapping: UnwrapFromUser,
    amount: u64,
    encrypted_amount: u128,
)
    requires
        wrap_to_user_error(wrapping, amount) is None,
        wrapping.sol_vault.lamports + amount <= u64::MAX,
        unwrap_from_user_error(unwrapping, amount) is None,
        unwrapping.user.lamports + amount <= u64::MAX,
    ensures
        wrap_to_user_effect(wrapping, amount, encrypted_amount).user.lamports + wrap_to_user_effect(
            wrapping,
            amount,
            encrypted_amount,
        ).sol_vault.lamports == wrapping.user.lamports + wrapping.sol_vault.lamports,
        unwrap_from_user_effect(unwrapping, amount).user.lamports + unwrap_from_user_effect(
            unwrapping,
            amount,
        ).sol_vault.lamports == unwrapping.user.lamports + unwrapping.sol_vault.lamports,
{
}

/// Wrapping the stablecoin into a user's balance and unwrapping it keep the
/// total that the user's holding and the vault hold between them.
pub proof fn lemma_usdc_bridge_conserves(
    wrapping: WrapUsdcToUser,
    unwrapping: UnwrapUsdcFromUser,
    amount: u64,
    encrypted_amount: u128,
)
    requires
        wrap_usdc_to_user_error(wrapping, amount) is None,
        wrapping.usdc_vault.amount + amount <= u64::MAX,
        unwrap_usdc_from_user_error(unwrapping, amount) is None,
        unwrapping.user_token_account.amount + amount <= u64::MAX,
    ensures
        wrap_usdc_to_user_effect(wrapping, amount, encrypted_amount).user_token_account.amount
            + wrap_usdc_to_user_effect(wrapping, amount, encrypted_amount).usdc_vault.amount
            == wrapping.user_token_account.amount + wrapping.usdc_vault.amount,
        unwrap_usdc_from_user_effect(unwrapping, amount).user_token_account.amount
            + unwrap_usdc_from_user_effect(unwrapping, amount).usdc_vault.amount
            == unwrapping.user_token_account.amount + unwrapping.usdc_vault.amount,
{
}

/// No operation of the ledger goes through on an account that is not in
/// state Initialized, but the thaw, which needs a frozen one; and none goes
/// through on a mint that was never created.
pub proof fn lemma_ledger_needs_initialized(
    minting: IncoMintTo,
    transferring: IncoTransfer,
    burning: IncoBurn,
    freezing: FreezeAccount,
    thawing: ThawAccount,
    closing: CloseAccount,
)
    ensures
        mint_to_error(minting) is None ==> minting.account.data.state == AccountState::Initialized
            && minting.mint.data.is_initialized,
        transfer_error(transferring) is None ==> transferring.source.data.state == AccountState::Initialized
            && transferring.destination.data.state == AccountState::Initialized,
        burn_error(burning) is None ==> burning.account.data.state == AccountState::Initialized
            && burning.mint.data.is_initialized,
        freeze_account_error(freezing) is None ==> freezing.account.data.state == AccountState::Initialized
            && freezing.mint.data.is_initialized,
        thaw_account_error(thawing) is None ==> thawing.account.data.state == AccountState::Frozen
            && thawing.mint.data.is_initialized,
        close_account_error(closing) is None ==> closing.account.data.state == AccountState::Initialized,
{
}

/// No unit crosses the bridge for an account that is not in state
/// Initialized, or for a balance that was never created.
pub proof fn lemma_bridge_needs_initialized(
    wrapping: WrapTokens,
    unwrapping: UnwrapTokens,
    wrapping_sol: WrapSol,
    unwrapping_sol: UnwrapSol,
    wrapping_user: WrapToUser,
    unwrapping_user: UnwrapFromUser,
    wrapping_usdc: WrapUsdcToUser,
    unwrapping_usdc: UnwrapUsdcFromUser,
    amount: u64,
)
    ensures
        wrap_error(wrapping, amount) is None ==> wrapping.confidential_account.data.state
            == AccountState::Initialized,
        unwrap_error(unwrapping, amount) is None ==> unwrapping.confidential_account.data.state
            == AccountState::Initialized,
        wrap_sol_error(wrapping_sol, amount) is None ==> wrapping_sol.confidential_account.data.state
            == AccountState::Initialized,
        unwrap_sol_error(unwrapping_sol, amount) is None ==> unwrapping_sol.confidential_account.data.state
            == AccountState::Initialized,
        wrap_to_user_error(wrapping_user, amount) is None ==> wrapping_user.user_balance.data.is_initialized,
        unwrap_from_user_error(unwrapping_user, amount) is None
            ==> unwrapping_user.user_balance.data.is_initialized,
        wrap_usdc_to_user_error(wrapping_usdc, amount) is None ==> wrapping_usdc.user_balance.data.is_initialized,
        unwrap_usdc_from_user_error(unwrapping_usdc, amount) is None
            ==> unwrapping_usdc.user_balance.data.is_initialized,
{
}

/// Liquidity is removed only from a pool that exists, and only by the owner
/// of the position.
pub proof fn lemma_remove_liquidity_needs_owner(ctx: RemoveLiquidity)
    requires
        remove_liquidity_error(ctx) is None,
    ensures
        require_pool(ctx.pool.data) is None,
        ctx.pool.data.is_initialized,
        ctx.user_position.data.owner == ctx.user,
{
}

/// A pool is refused with `FeeTooHigh` exactly where its fee is above 1000
/// basis points; with a fee of 1000 or less, a pool that does not exist yet
/// is created.
pub proof fn lemma_fee_limit(ctx: InitializePool, fee_bps: u16)
    ensures
        initialize_pool_error(ctx, fee_bps) == Some(AmmError::FeeTooHigh) <==> fee_bps > 1000,
        fee_bps <= 1000 && !ctx.pool.data.is_initialized ==> initialize_pool_error(ctx, fee_bps) is None,
{
}

} // verus!
