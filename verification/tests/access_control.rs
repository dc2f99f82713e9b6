use inco_programs::access_control::{
    check_authority, check_funds, check_initialized, check_mint_initialized, check_mint_match, check_not_frozen, check_open,
    check_owner, check_usable,
};
use inco_programs::address::Address;
use inco_programs::encrypted::EncryptedValue;
use inco_programs::token_state::{AccountState, COption, CustomError, IncoMint};

fn addr(byte: u8) -> Address {
    Address::new([byte; 32])
}

#[test]
fn state_checks_fail_with_their_own_error() {
    assert_eq!(check_initialized(AccountState::Uninitialized), Err(CustomError::UninitializedState));
    assert_eq!(check_initialized(AccountState::Initialized), Ok(()));
    assert_eq!(check_initialized(AccountState::Frozen), Ok(()));
    assert_eq!(check_not_frozen(AccountState::Frozen), Err(CustomError::AccountFrozen));
    assert_eq!(check_not_frozen(AccountState::Initialized), Ok(()));
    assert_eq!(check_not_frozen(AccountState::Uninitialized), Ok(()));
    assert_eq!(check_usable(AccountState::Uninitialized), Err(CustomError::UninitializedState));
    assert_eq!(check_usable(AccountState::Frozen), Err(CustomError::AccountFrozen));
    assert_eq!(check_usable(AccountState::Initialized), Ok(()));
    assert_eq!(check_open(AccountState::Initialized), Ok(()));
    assert_eq!(check_open(AccountState::Frozen), Err(CustomError::UninitializedState));
    assert_eq!(check_open(AccountState::Uninitialized), Err(CustomError::UninitializedState));
}

#[test]
fn identity_checks_fail_with_their_own_error() {
    assert_eq!(check_owner(&addr(1), &addr(1)), Ok(()));
    assert_eq!(check_owner(&addr(1), &addr(2)), Err(CustomError::OwnerMismatch));
    assert_eq!(check_mint_match(&addr(1), &addr(1)), Ok(()));
    assert_eq!(check_mint_match(&addr(1), &addr(2)), Err(CustomError::MintMismatch));
    assert_eq!(check_authority(&addr(1), &COption::Present(addr(1))), Ok(()));
    assert_eq!(check_authority(&addr(1), &COption::Present(addr(2))), Err(CustomError::OwnerMismatch));
    assert_eq!(check_authority(&addr(1), &COption::Absent), Err(CustomError::OwnerMismatch));
}

#[test]
fn mint_must_be_initialized() {
    let mut mint = IncoMint {
        mint_authority: COption::Absent,
        supply: EncryptedValue::zero(),
        decimals: 0,
        is_initialized: false,
        freeze_authority: COption::Absent,
    };
    assert_eq!(check_mint_initialized(&mint), Err(CustomError::UninitializedState));
    mint.is_initialized = true;
    assert_eq!(check_mint_initialized(&mint), Ok(()));
}

#[test]
fn funds_must_cover_the_amount() {
    assert_eq!(check_funds(5, 5), Ok(()));
    assert_eq!(check_funds(5, 6), Err(CustomError::InsufficientFunds));
    assert_eq!(check_funds(0, u64::MAX), Err(CustomError::InsufficientFunds));
    assert_eq!(check_funds(u64::MAX, u64::MAX), Ok(()));
}
