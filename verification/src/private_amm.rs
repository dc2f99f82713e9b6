//! The confidential constant-product market maker: pools, liquidity
//! positions and swaps whose reserves and amounts are all encrypted.

use vstd::prelude::*;
use crate::address::Address;
use crate::custody::Record;
use crate::encrypted::EncryptedValue;
use crate::token_state::outcome;

verus! {

/// The highest fee a pool may charge, in basis points: ten percent.
pub const MAX_FEE_BPS: u16 = 1000;

/// A liquidity pool of two assets. Everything monetary is encrypted; the
/// assets, the fee and the authority are public.
#[derive(Clone, Copy, Debug, PartialEq)]
pub struct PrivatePool {
    pub token_a_mint: Address,
    pub token_b_mint: Address,
    pub reserve_a: EncryptedValue,
    pub reserve_b: EncryptedValue,
    pub k_constant: EncryptedValue,
    pub lp_supply: EncryptedValue,
    pub fee_bps: u16,
    pub authority: Address,
    pub bump: u8,
    pub is_initialized: bool,
}

impl PrivatePool {
    /// Stored size in bytes.
    pub const LEN: usize = 32 + 32 + 16 + 16 + 16 + 16 + 2 + 32 + 1 + 1;
}

/// The share of one owner in one pool.
#[derive(Clone, Copy, Debug, PartialEq)]
pub struct UserPosition {
    pub owner: Address,
    pub pool: Address,
    pub lp_amount: EncryptedValue,
}

impl UserPosition {
    /// Stored size in bytes.
    pub const LEN: usize = 32 + 32 + 16;
}

/// What the latest swap of one owner in one pool gave.
#[derive(Clone, Copy, Debug, PartialEq)]
pub struct SwapResult {
    pub owner: Address,
    pub amount_out: EncryptedValue,
    pub is_complete: bool,
}

impl SwapResult {
    /// Stored size in bytes.
    pub const LEN: usize = 32 + 16 + 1;
}

/// What anyone may know of a pool.
#[derive(Clone, Copy, Debug, PartialEq)]
pub struct PoolInfo {
    pub token_a_mint: Address,
    pub token_b_mint: Address,
    pub fee_bps: u16,
    pub is_initialized: bool,
}

/// Records of `initialize_pool`: the slot of the pool, its two assets and
/// the signing authority.
#[derive(Clone, Copy, Debug, PartialEq)]
pub struct InitializePool {
    pub pool: Record<PrivatePool>,
    pub token_a_mint: Address,
    pub token_b_mint: Address,
    pub authority: Address,
}

/// Records of `add_liquidity`: the pool, the user's position and the
/// signing user.
#[derive(Clone, Copy, Debug, PartialEq)]
pub struct AddLiquidity {
    pub pool: Record<PrivatePool>,
    pub user_position: Record<UserPosition>,
    pub user: Address,
}

/// Records of `remove_liquidity`: the pool, the user's position and the
/// signing user.
#[derive(Clone, Copy, Debug, PartialEq)]
pub struct RemoveLiquidity {
    pub pool: Record<PrivatePool>,
    pub user_position: Record<UserPosition>,
    pub user: Address,
}

/// Records of `swap`: the pool, the slot for the user's result and the
/// signing user.
#[derive(Clone, Copy, Debug, PartialEq)]
pub struct Swap {
    pub pool: Record<PrivatePool>,
    pub swap_result: Record<SwapResult>,
    pub user: Address,
}

/// Records of `get_pool_info`: the pool.
#[derive(Clone, Copy, Debug, PartialEq)]
pub struct GetPoolInfo {
    pub pool: Record<PrivatePool>,
}

/// Why an operation of the market maker is refused.
#[derive(Clone, Copy, Debug, PartialEq, Eq, Structural)]
pub enum AmmError {
    FeeTooHigh,
    PoolNotInitialized,
    InvalidAuthority,
    InvalidOwner,
    InsufficientLiquidity,
    SlippageExceeded,
    InvalidDirection,
    PoolAlreadyInitialized,
}

impl AmmError {
    /// What the error says to a person.
    pub fn message(&self) -> (text: &'static str)
        ensures
            text@ == amm_error_text(*self),
    {
        match self {
            AmmError::FeeTooHigh => "Fee too high (max 10%)",
            AmmError::PoolNotInitialized => "Pool not initialized",
            AmmError::InvalidAuthority => "Invalid pool authority",
            AmmError::InvalidOwner => "Invalid owner",
            AmmError::InsufficientLiquidity => "Insufficient liquidity",
            AmmError::SlippageExceeded => "Slippage exceeded",
            AmmError::InvalidDirection => "Invalid swap direction",
            AmmError::PoolAlreadyInitialized => "Pool already initialized",
        }
    }
}

/// The text of each error.
pub open spec fn amm_error_text(error: AmmError) -> Seq<char> {
    match error {
        AmmError::FeeTooHigh => "Fee too high (max 10%)"@,
        AmmError::PoolNotInitialized => "Pool not initialized"@,
        AmmError::InvalidAuthority => "Invalid pool authority"@,
        AmmError::InvalidOwner => "Invalid owner"@,
        AmmError::InsufficientLiquidity => "Insufficient liquidity"@,
        AmmError::SlippageExceeded => "Slippage exceeded"@,
        AmmError::InvalidDirection => "Invalid swap direction"@,
        AmmError::PoolAlreadyInitialized => "Pool already initialized"@,
    }
}

/// Fails with `PoolNotInitialized` where the pool was never created.
pub open spec fn require_pool(pool: PrivatePool) -> Option<AmmError> {
    if !pool.is_initialized {
        Some(AmmError::PoolNotInitialized)
    } else {
        None
    }
}

/// Checks that the pool was created.
pub fn check_pool(pool: &PrivatePool) -> (result: Result<(), AmmError>)
    ensures
        result == outcome(require_pool(*pool)),
{
    if !pool.is_initialized {
        Err(AmmError::PoolNotInitialized)
    } else {
        Ok(())
    }
}

/// Why `initialize_pool` is refused: the fee is above the maximum, or the
/// pool of the two assets already exists.
pub open spec fn initialize_pool_error(ctx: InitializePool, fee_bps: u16) -> Option<AmmError> {
    if fee_bps > MAX_FEE_BPS {
        Some(AmmError::FeeTooHigh)
    } else if ctx.pool.data.is_initialized {
        Some(AmmError::PoolAlreadyInitialized)
    } else {
        None
    }
}

/// The records after the pool has been created: reserves, constant product
/// and share supply are all encrypted zero.
pub open spec fn initialize_pool_effect(ctx: InitializePool, fee_bps: u16, bump: u8) -> InitializePool {
    InitializePool {
        pool: Record {
            data: PrivatePool {
                token_a_mint: ctx.token_a_mint,
                token_b_mint: ctx.token_b_mint,
                reserve_a: EncryptedValue::spec_zero(),
                reserve_b: EncryptedValue::spec_zero(),
                k_constant: EncryptedValue::spec_zero(),
                lp_supply: EncryptedValue::spec_zero(),
                fee_bps,
                authority: ctx.authority,
                bump,
                is_initialized: true,
            },
            ..ctx.pool
        },
        ..ctx
    }
}

/// Creates the pool of two assets with a fee of `fee_bps` basis points.
///
/// Fails with `FeeTooHigh` where `fee_bps` is above 1000, and with
/// `PoolAlreadyInitialized` where the pool exists.
pub fn initialize_pool(ctx: &mut InitializePool, fee_bps: u16, bump: u8) -> (result: Result<(), AmmError>)
    ensures
        result == outcome(initialize_pool_error(*old(ctx), fee_bps)),
        result is Ok ==> *final(ctx) == initialize_pool_effect(*old(ctx), fee_bps, bump),
        result is Err ==> *final(ctx) == *old(ctx),
{
    if fee_bps > MAX_FEE_BPS {
        return Err(AmmError::FeeTooHigh);
    }
    if ctx.pool.data.is_initialized {
        return Err(AmmError::PoolAlreadyInitialized);
    }
    ctx.pool.data.token_a_mint = ctx.token_a_mint;
    ctx.pool.data.token_b_mint = ctx.token_b_mint;
    ctx.pool.data.reserve_a = EncryptedValue::zero();
    ctx.pool.data.reserve_b = EncryptedValue::zero();
    ctx.pool.data.k_constant = EncryptedValue::zero();
    ctx.pool.data.lp_supply = EncryptedValue::zero();
    ctx.pool.data.fee_bps = fee_bps;
    ctx.pool.data.authority = ctx.authority;
    ctx.pool.data.bump = bump;
    ctx.pool.data.is_initialized = true;
    Ok(())
}

/// The records after liquidity has been added: the reserves are the handles
/// of the two amounts; the constant product, the position's share and the
/// share supply are the handle of the first amount. The position belongs to
/// the user and to the pool from now on.
pub open spec fn add_liquidity_effect(
    ctx: AddLiquidity,
    encrypted_amount_a: u128,
    encrypted_amount_b: u128,
) -> AddLiquidity {
    AddLiquidity {
        pool: Record {
            data: PrivatePool {
                reserve_a: EncryptedValue::spec_wrap(encrypted_amount_a),
                reserve_b: EncryptedValue::spec_wrap(encrypted_amount_b),
                k_constant: EncryptedValue::spec_wrap(encrypted_amount_a),
                lp_supply: EncryptedValue::spec_wrap(encrypted_amount_a),
                ..ctx.pool.data
            },
            ..ctx.pool
        },
        user_position: Record {
            data: UserPosition {
                owner: ctx.user,
                pool: ctx.pool.key,
                lp_amount: EncryptedValue::spec_wrap(encrypted_amount_a),
            },
            ..ctx.user_position
        },
        ..ctx
    }
}

/// Adds liquidity to the pool and credits the user's position, which is
/// created by the first deposit.
///
/// Fails with `PoolNotInitialized` where the pool was never created.
pub fn add_liquidity(ctx: &mut AddLiquidity, encrypted_amount_a: u128, encrypted_amount_b: u128) -> (result: Result<
    (),
    AmmError,
>)
    ensures
        result == outcome(require_pool(old(ctx).pool.data)),
        result is Ok ==> *final(ctx) == add_liquidity_effect(*old(ctx), encrypted_amount_a, encrypted_amount_b),
        result is Err ==> *final(ctx) == *old(ctx),
{
    check_pool(&ctx.pool.data)?;
    ctx.pool.data.reserve_a = EncryptedValue::wrap(encrypted_amount_a);
    ctx.pool.data.reserve_b = EncryptedValue::wrap(encrypted_amount_b);
    ctx.pool.data.k_constant = EncryptedValue::wrap(encrypted_amount_a);
    ctx.user_position.data.lp_amount = EncryptedValue::wrap(encrypted_amount_a);
    ctx.user_position.data.owner = ctx.user;
    ctx.user_position.data.pool = ctx.pool.key;
    ctx.pool.data.lp_supply = EncryptedValue::wrap(encrypted_amount_a);
    Ok(())
}

/// Why `remove_liquidity` is refused; the checks are made in this order.
pub open spec fn remove_liquidity_error(ctx: RemoveLiquidity) -> Option<AmmError> {
    if require_pool(ctx.pool.data) is Some {
        require_pool(ctx.pool.data)
    } else if ctx.user_position.data.owner != ctx.user {
        Some(AmmError::InvalidOwner)
    } else {
        None
    }
}

/// The records after liquidity has been removed: the position's share is
/// encrypted zero.
pub open spec fn remove_liquidity_effect(ctx: RemoveLiquidity) -> RemoveLiquidity {
    RemoveLiquidity {
        user_position: Record {
            data: UserPosition { lp_amount: EncryptedValue::spec_zero(), ..ctx.user_position.data },
            ..ctx.user_position
        },
        ..ctx
    }
}

/// Removes the user's liquidity: whatever `encrypted_lp_amount` is, the
/// whole share of the position is given up.
pub fn remove_liquidity(ctx: &mut RemoveLiquidity, encrypted_lp_amount: u128) -> (result: Result<(), AmmError>)
    ensures
        result == outcome(remove_liquidity_error(*old(ctx))),
        result is Ok ==> *final(ctx) == remove_liquidity_effect(*old(ctx)),
        result is Err ==> *final(ctx) == *old(ctx),
{
    check_pool(&ctx.pool.data)?;
    if ctx.user_position.data.owner != ctx.user {
        return Err(AmmError::InvalidOwner);
    }
    ctx.user_position.data.lp_amount = EncryptedValue::zero();
    Ok(())
}

/// The pool with the given reserve on the input side and the given reserve
/// on the output side of a swap in the given direction.
pub open spec fn with_reserves(
    pool: PrivatePool,
    direction: bool,
    reserve_in: EncryptedValue,
    reserve_out: EncryptedValue,
) -> PrivatePool {
    if direction {
        PrivatePool { reserve_a: reserve_in, reserve_b: reserve_out, ..pool }
    } else {
        PrivatePool { reserve_b: reserve_in, reserve_a: reserve_out, ..pool }
    }
}

/// The records after a swap: the output is the handle of the input amount;
/// the reserve that took the input holds that handle, and the reserve that
/// paid holds the output. The result is complete and belongs to the user.
pub open spec fn swap_effect(ctx: Swap, encrypted_amount_in: u128, direction: bool) -> Swap {
    Swap {
        pool: Record {
            data: with_reserves(
                ctx.pool.data,
                direction,
                EncryptedValue::spec_wrap(encrypted_amount_in),
                EncryptedValue::spec_wrap(encrypted_amount_in),
            ),
            ..ctx.pool
        },
        swap_result: Record {
            data: SwapResult {
                owner: ctx.user,
                amount_out: EncryptedValue::spec_wrap(encrypted_amount_in),
                is_complete: true,
            },
            ..ctx.swap_result
        },
        ..ctx
    }
}

/// Swaps an encrypted amount of one asset of the pool for the other;
/// `direction` is true from the first asset to the second. The result is
/// published in the user's swap result, replacing the one before.
///
/// Fails with `PoolNotInitialized` where the pool was never created.
pub fn swap(ctx: &mut Swap, encrypted_amount_in: u128, encrypted_min_out: u128, direction: bool) -> (result: Result<
    (),
    AmmError,
>)
    ensures
        result == outcome(require_pool(old(ctx).pool.data)),
        result is Ok ==> *final(ctx) == swap_effect(*old(ctx), encrypted_amount_in, direction),
        result is Err ==> *final(ctx) == *old(ctx),
{
    check_pool(&ctx.pool.data)?;
    let encrypted_amount_out = EncryptedValue::wrap(encrypted_amount_in);
    if direction {
        ctx.pool.data.reserve_a = EncryptedValue::wrap(encrypted_amount_in);
        ctx.pool.data.reserve_b = encrypted_amount_out;
    } else {
        ctx.pool.data.reserve_b = EncryptedValue::wrap(encrypted_amount_in);
        ctx.pool.data.reserve_a = encrypted_amount_out;
    }
    ctx.swap_result.data.amount_out = encrypted_amount_out;
    ctx.swap_result.data.owner = ctx.user;
    ctx.swap_result.data.is_complete = true;
    Ok(())
}

/// What anyone may know of the pool.
pub open spec fn public_view(pool: PrivatePool) -> PoolInfo {
    PoolInfo {
        token_a_mint: pool.token_a_mint,
        token_b_mint: pool.token_b_mint,
        fee_bps: pool.fee_bps,
        is_initialized: pool.is_initialized,
    }
}

/// The public fields of the pool: its assets, its fee and whether it
/// exists. Reserves are never part of it.
pub fn get_pool_info(ctx: &GetPoolInfo) -> (info: PoolInfo)
    ensures
        info == public_view(ctx.pool.data),
{
    PoolInfo {
        token_a_mint: ctx.pool.data.token_a_mint,
        token_b_mint: ctx.pool.data.token_b_mint,
        fee_bps: ctx.pool.data.fee_bps,
        is_initialized: ctx.pool.data.is_initialized,
    }
}

} // verus!
