use inco_programs::address::Address;
use inco_programs::custody::Record;
use inco_programs::encrypted::EncryptedValue;
use inco_programs::private_amm::{
    add_liquidity, get_pool_info, initialize_pool, remove_liquidity, swap, AddLiquidity, AmmError, GetPoolInfo,
    InitializePool, PoolInfo, PrivatePool, RemoveLiquidity, Swap, SwapResult, UserPosition,
};

fn addr(byte: u8) -> Address {
    Address::new([byte; 32])
}

fn empty_pool() -> Record<PrivatePool> {
    Record {
        key: addr(50),
        lamports: 10,
        data: PrivatePool {
            token_a_mint: Address::zero(),
            token_b_mint: Address::zero(),
            reserve_a: EncryptedValue::zero(),
            reserve_b: EncryptedValue::zero(),
            k_constant: EncryptedValue::zero(),
            lp_supply: EncryptedValue::zero(),
            fee_bps: 0,
            authority: Address::zero(),
            bump: 0,
            is_initialized: false,
        },
    }
}

fn empty_position() -> Record<UserPosition> {
    Record {
        key: addr(60),
        lamports: 10,
        data: UserPosition { owner: Address::zero(), pool: Address::zero(), lp_amount: EncryptedValue::zero() },
    }
}

fn empty_result() -> Record<SwapResult> {
    Record {
        key: addr(70),
        lamports: 10,
        data: SwapResult { owner: Address::zero(), amount_out: EncryptedValue::zero(), is_complete: false },
    }
}

fn new_pool(fee_bps: u16) -> Record<PrivatePool> {
    let mut ctx =
        InitializePool { pool: empty_pool(), token_a_mint: addr(1), token_b_mint: addr(2), authority: addr(3) };
    assert_eq!(initialize_pool(&mut ctx, fee_bps, 254), Ok(()));
    ctx.pool
}

#[test]
fn initialize_pool_fee_limit() {
    let mut ctx =
        InitializePool { pool: empty_pool(), token_a_mint: addr(1), token_b_mint: addr(2), authority: addr(3) };
    assert_eq!(initialize_pool(&mut ctx, 1001, 254), Err(AmmError::FeeTooHigh));
    assert_eq!(ctx.pool.data, empty_pool().data);
    assert_eq!(initialize_pool(&mut ctx, u16::MAX, 254), Err(AmmError::FeeTooHigh));
    assert_eq!(initialize_pool(&mut ctx, 1000, 254), Ok(()));
    assert_eq!(ctx.pool.data.fee_bps, 1000);
    assert!(ctx.pool.data.is_initialized);
}

#[test]
fn initialize_pool_sets_every_field() {
    let pool = new_pool(30);
    assert_eq!(
        pool.data,
        PrivatePool {
            token_a_mint: addr(1),
            token_b_mint: addr(2),
            reserve_a: EncryptedValue { handle: 0 },
            reserve_b: EncryptedValue { handle: 0 },
            k_constant: EncryptedValue { handle: 0 },
            lp_supply: EncryptedValue { handle: 0 },
            fee_bps: 30,
            authority: addr(3),
            bump: 254,
            is_initialized: true,
        }
    );
    assert_eq!(pool.key, addr(50));
}

#[test]
fn initialize_pool_twice_is_refused() {
    let pool = new_pool(30);
    let mut ctx = InitializePool { pool, token_a_mint: addr(7), token_b_mint: addr(8), authority: addr(9) };
    assert_eq!(initialize_pool(&mut ctx, 10, 1), Err(AmmError::PoolAlreadyInitialized));
    assert_eq!(ctx.pool.data, pool.data);
    assert_eq!(initialize_pool(&mut ctx, 2000, 1), Err(AmmError::FeeTooHigh));
}

#[test]
fn pool_scenario_add_liquidity_then_swap() {
    let pool = new_pool(30);
    let mut added = AddLiquidity { pool, user_position: empty_position(), user: addr(9) };
    assert_eq!(add_liquidity(&mut added, 1000, 1000), Ok(()));
    assert_eq!(added.user_position.data.lp_amount.handle, 1000);
    assert_eq!(added.pool.data.lp_supply.handle, 1000);
    assert_eq!(added.pool.data.reserve_a.handle, 1000);
    assert_eq!(added.pool.data.reserve_b.handle, 1000);
    assert_eq!(added.pool.data.k_constant.handle, 1000);
    assert_eq!(added.user_position.data.owner, addr(9));
    assert_eq!(added.user_position.data.pool, addr(50));

    let mut swapped = Swap { pool: added.pool, swap_result: empty_result(), user: addr(9) };
    assert_eq!(swap(&mut swapped, 100, 0, true), Ok(()));
    assert!(swapped.swap_result.data.is_complete);
    assert_eq!(swapped.swap_result.data.amount_out.handle, 100);
    assert_eq!(swapped.swap_result.data.owner, addr(9));
    assert_eq!(swapped.pool.data.reserve_a.handle, 100);
    assert_eq!(swapped.pool.data.reserve_b.handle, 100);
    assert_eq!(swapped.pool.data.k_constant.handle, 1000);
    assert_eq!(swapped.pool.data.lp_supply.handle, 1000);
    assert_eq!(swapped.pool.data.fee_bps, 30);
}

#[test]
fn add_liquidity_takes_the_share_from_the_first_amount() {
    let pool = new_pool(30);
    let mut added = AddLiquidity { pool, user_position: empty_position(), user: addr(9) };
    assert_eq!(add_liquidity(&mut added, 7, 11), Ok(()));
    assert_eq!(added.pool.data.reserve_a.handle, 7);
    assert_eq!(added.pool.data.reserve_b.handle, 11);
    assert_eq!(added.pool.data.k_constant.handle, 7);
    assert_eq!(added.pool.data.lp_supply.handle, 7);
    assert_eq!(added.user_position.data.lp_amount.handle, 7);
}

#[test]
fn swap_in_the_other_direction_overwrites_the_result() {
    let pool = new_pool(30);
    let mut added = AddLiquidity { pool, user_position: empty_position(), user: addr(9) };
    assert_eq!(add_liquidity(&mut added, 1000, 2000), Ok(()));
    let mut swapped = Swap { pool: added.pool, swap_result: empty_result(), user: addr(9) };
    assert_eq!(swap(&mut swapped, 100, 0, false), Ok(()));
    assert_eq!(swapped.pool.data.reserve_a.handle, 100);
    assert_eq!(swapped.pool.data.reserve_b.handle, 100);
    assert_eq!(swap(&mut swapped, 250, 9, true), Ok(()));
    assert_eq!(swapped.swap_result.data.amount_out.handle, 250);
    assert!(swapped.swap_result.data.is_complete);
}

#[test]
fn operations_need_an_initialized_pool() {
    let mut added = AddLiquidity { pool: empty_pool(), user_position: empty_position(), user: addr(9) };
    assert_eq!(add_liquidity(&mut added, 1, 1), Err(AmmError::PoolNotInitialized));
    assert_eq!(added.user_position.data, empty_position().data);
    let mut removed = RemoveLiquidity { pool: empty_pool(), user_position: empty_position(), user: addr(9) };
    assert_eq!(remove_liquidity(&mut removed, 1), Err(AmmError::PoolNotInitialized));
    let mut swapped = Swap { pool: empty_pool(), swap_result: empty_result(), user: addr(9) };
    assert_eq!(swap(&mut swapped, 1, 0, true), Err(AmmError::PoolNotInitialized));
    assert_eq!(swapped.swap_result.data, empty_result().data);
    assert_eq!(swapped.pool.data, empty_pool().data);
}

#[test]
fn remove_liquidity_gives_up_the_whole_share_of_the_owner() {
    let pool = new_pool(30);
    let mut added = AddLiquidity { pool, user_position: empty_position(), user: addr(9) };
    assert_eq!(add_liquidity(&mut added, 1000, 1000), Ok(()));
    let mut stranger = RemoveLiquidity { pool: added.pool, user_position: added.user_position, user: addr(8) };
    assert_eq!(remove_liquidity(&mut stranger, 10), Err(AmmError::InvalidOwner));
    assert_eq!(stranger.user_position.data.lp_amount.handle, 1000);
    let mut removed = RemoveLiquidity { pool: added.pool, user_position: added.user_position, user: addr(9) };
    assert_eq!(remove_liquidity(&mut removed, 10), Ok(()));
    assert_eq!(removed.user_position.data.lp_amount.handle, 0);
    assert_eq!(removed.pool.data, added.pool.data);
}

#[test]
fn get_pool_info_shows_public_fields_only() {
    let pool = new_pool(30);
    let info = get_pool_info(&GetPoolInfo { pool });
    assert_eq!(info, PoolInfo { token_a_mint: addr(1), token_b_mint: addr(2), fee_bps: 30, is_initialized: true });
    let info = get_pool_info(&GetPoolInfo { pool: empty_pool() });
    assert!(!info.is_initialized);
}

#[test]
fn amm_sizes_and_messages() {
    assert_eq!(PrivatePool::LEN, 164);
    assert_eq!(UserPosition::LEN, 80);
    assert_eq!(SwapResult::LEN, 49);
    assert_eq!(AmmError::FeeTooHigh.message(), "Fee too high (max 10%)");
    assert_eq!(AmmError::PoolNotInitialized.message(), "Pool not initialized");
    assert_eq!(AmmError::InvalidAuthority.message(), "Invalid pool authority");
    assert_eq!(AmmError::InvalidOwner.message(), "Invalid owner");
    assert_eq!(AmmError::InsufficientLiquidity.message(), "Insufficient liquidity");
    assert_eq!(AmmError::SlippageExceeded.message(), "Slippage exceeded");
    assert_eq!(AmmError::InvalidDirection.message(), "Invalid swap direction");
    assert_eq!(AmmError::PoolAlreadyInitialized.message(), "Pool already initialized");
}
