use inco_programs::address::Address;
use inco_programs::custody::{Record, Wallet};
use inco_programs::encrypted::EncryptedValue;
use inco_programs::inco_token::{
    burn, close_account, close_account_refusal, freeze_account, initialize_account, initialize_mint, mint_to,
    thaw_account, transfer, CloseAccount, FreezeAccount, IncoBurn, IncoMintTo, IncoTransfer, InitializeAccount, InitializeMint,
    ThawAccount,
};
use inco_programs::token_state::{AccountState, COption, CustomError, IncoAccount, IncoMint, SolVault, UserBalance};

fn addr(byte: u8) -> Address {
    Address::new([byte; 32])
}

fn empty_mint() -> IncoMint {
    IncoMint {
        mint_authority: COption::Absent,
        supply: EncryptedValue::zero(),
        decimals: 0,
        is_initialized: false,
        freeze_authority: COption::Absent,
    }
}

fn new_mint(key: u8, authority: u8, freeze: Option<u8>) -> Record<IncoMint> {
    let mut ctx = InitializeMint { mint: Record { key: addr(key), lamports: 1_000, data: empty_mint() } };
    assert_eq!(initialize_mint(&mut ctx, 9, addr(authority), freeze.map(addr)), Ok(()));
    ctx.mint
}

fn new_account(key: u8, mint: Record<IncoMint>, owner: u8, lamports: u64) -> Record<IncoAccount> {
    let mut ctx = InitializeAccount {
        account: Record { key: addr(key), lamports, data: IncoAccount::new_vacant() },
        mint,
        owner: addr(owner),
    };
    assert_eq!(initialize_account(&mut ctx), Ok(()));
    ctx.account
}

fn frozen(account: Record<IncoAccount>, mint: Record<IncoMint>, authority: u8) -> Record<IncoAccount> {
    let mut ctx = FreezeAccount { account, mint, freeze_authority: addr(authority) };
    assert_eq!(freeze_account(&mut ctx), Ok(()));
    ctx.account
}

#[test]
fn initialize_mint_sets_every_field() {
    let mint = new_mint(1, 2, Some(3));
    assert_eq!(mint.key, addr(1));
    assert_eq!(mint.lamports, 1_000);
    assert_eq!(mint.data.mint_authority, COption::Present(addr(2)));
    assert_eq!(mint.data.freeze_authority, COption::Present(addr(3)));
    assert_eq!(mint.data.supply, EncryptedValue { handle: 0 });
    assert_eq!(mint.data.decimals, 9);
    assert!(mint.data.is_initialized);
}

#[test]
fn initialize_mint_without_freeze_authority() {
    let mint = new_mint(1, 2, None);
    assert_eq!(mint.data.freeze_authority, COption::Absent);
}

#[test]
fn initialize_mint_twice_is_refused() {
    let mint = new_mint(1, 2, Some(3));
    let mut ctx = InitializeMint { mint };
    assert_eq!(initialize_mint(&mut ctx, 6, addr(8), None), Err(CustomError::InvalidState));
    assert_eq!(ctx.mint.data, mint.data);
}

#[test]
fn initialize_account_starts_empty_and_initialized() {
    let mint = new_mint(1, 2, Some(3));
    let account = new_account(10, mint, 20, 500);
    assert_eq!(account.data.mint, addr(1));
    assert_eq!(account.data.owner, addr(20));
    assert_eq!(account.data.amount.handle, 0);
    assert_eq!(account.data.delegate, COption::Absent);
    assert_eq!(account.data.state, AccountState::Initialized);
    assert_eq!(account.data.is_native, COption::Absent);
    assert_eq!(account.data.delegated_amount.handle, 0);
    assert_eq!(account.data.close_authority, COption::Absent);
    assert_eq!(account.lamports, 500);
}

#[test]
fn initialize_account_needs_an_initialized_mint() {
    let mut ctx = InitializeAccount {
        account: Record { key: addr(10), lamports: 0, data: IncoAccount::new_vacant() },
        mint: Record { key: addr(1), lamports: 0, data: empty_mint() },
        owner: addr(20),
    };
    assert_eq!(initialize_account(&mut ctx), Err(CustomError::UninitializedState));
    assert_eq!(ctx.account.data, IncoAccount::new_vacant());
}

#[test]
fn initialize_account_twice_is_refused() {
    let mint = new_mint(1, 2, Some(3));
    let account = new_account(10, mint, 20, 500);
    let mut ctx = InitializeAccount { account, mint, owner: addr(21) };
    assert_eq!(initialize_account(&mut ctx), Err(CustomError::InvalidState));
    assert_eq!(ctx.account.data.owner, addr(20));
}

#[test]
fn mint_to_after_initialize_mint_sets_balance_and_supply() {
    let mint = new_mint(1, 2, Some(3));
    let account = new_account(10, mint, 20, 500);
    let mut ctx = IncoMintTo { mint, account, mint_authority: addr(2) };
    assert_eq!(mint_to(&mut ctx, 123_456_789_000), Ok(()));
    assert_eq!(ctx.account.data.amount.unwrap(), 123_456_789_000);
    assert_eq!(ctx.mint.data.supply.unwrap(), 123_456_789_000);
    assert_eq!(mint_to(&mut ctx, u128::MAX), Ok(()));
    assert_eq!(ctx.account.data.amount.unwrap(), u128::MAX);
}

#[test]
fn mint_to_reports_the_first_failing_check() {
    let mint = new_mint(1, 2, Some(3));
    let other_mint = new_mint(4, 2, Some(3));
    let account = new_account(10, mint, 20, 500);

    let mut ctx = IncoMintTo {
        mint: Record { key: addr(1), lamports: 0, data: empty_mint() },
        account,
        mint_authority: addr(2),
    };
    assert_eq!(mint_to(&mut ctx, 5), Err(CustomError::UninitializedState));

    let mut ctx = IncoMintTo {
        mint,
        account: Record { key: addr(10), lamports: 0, data: IncoAccount::new_vacant() },
        mint_authority: addr(2),
    };
    assert_eq!(mint_to(&mut ctx, 5), Err(CustomError::UninitializedState));

    let mut ctx = IncoMintTo { mint: other_mint, account, mint_authority: addr(2) };
    assert_eq!(mint_to(&mut ctx, 5), Err(CustomError::MintMismatch));

    let mut ctx = IncoMintTo { mint, account, mint_authority: addr(9) };
    assert_eq!(mint_to(&mut ctx, 5), Err(CustomError::OwnerMismatch));
    assert_eq!(ctx.account.data.amount.handle, 0);
    assert_eq!(ctx.mint.data.supply.handle, 0);
}

#[test]
fn transfer_sets_the_destination_balance() {
    let mint = new_mint(1, 2, Some(3));
    let source = new_account(10, mint, 20, 500);
    let destination = new_account(11, mint, 21, 500);
    let mut ctx = IncoTransfer { source, destination, authority: addr(20) };
    assert_eq!(transfer(&mut ctx, 77), Ok(()));
    assert_eq!(ctx.destination.data.amount.handle, 77);
    assert_eq!(ctx.source.data, source.data);
}

#[test]
fn transfer_refusals() {
    let mint = new_mint(1, 2, Some(3));
    let other_mint = new_mint(4, 2, Some(3));
    let source = new_account(10, mint, 20, 500);
    let destination = new_account(11, mint, 21, 500);
    let foreign = new_account(12, other_mint, 21, 500);
    let vacant = Record { key: addr(13), lamports: 0, data: IncoAccount::new_vacant() };

    let mut ctx = IncoTransfer { source: vacant, destination, authority: addr(20) };
    assert_eq!(transfer(&mut ctx, 1), Err(CustomError::UninitializedState));
    let mut ctx = IncoTransfer { source, destination: vacant, authority: addr(20) };
    assert_eq!(transfer(&mut ctx, 1), Err(CustomError::UninitializedState));
    let mut ctx = IncoTransfer { source, destination: foreign, authority: addr(20) };
    assert_eq!(transfer(&mut ctx, 1), Err(CustomError::MintMismatch));
    let mut ctx = IncoTransfer { source, destination, authority: addr(21) };
    assert_eq!(transfer(&mut ctx, 1), Err(CustomError::OwnerMismatch));
    assert_eq!(ctx.destination.data.amount.handle, 0);
}

#[test]
fn burn_resets_the_balance() {
    let mint = new_mint(1, 2, Some(3));
    let account = new_account(10, mint, 20, 500);
    let mut minted = IncoMintTo { mint, account, mint_authority: addr(2) };
    assert_eq!(mint_to(&mut minted, 900), Ok(()));
    let mut ctx = IncoBurn { account: minted.account, mint: minted.mint, authority: addr(20) };
    assert_eq!(burn(&mut ctx, 1), Ok(()));
    assert_eq!(ctx.account.data.amount.handle, 0);
    assert_eq!(ctx.mint.data.supply.handle, 900);
}

#[test]
fn burn_refusals() {
    let mint = new_mint(1, 2, Some(3));
    let other_mint = new_mint(4, 2, Some(3));
    let account = new_account(10, mint, 20, 500);
    let mut ctx = IncoBurn { account, mint: other_mint, authority: addr(20) };
    assert_eq!(burn(&mut ctx, 1), Err(CustomError::MintMismatch));
    let mut ctx = IncoBurn {
        account,
        mint: Record { key: addr(1), lamports: 0, data: empty_mint() },
        authority: addr(20),
    };
    assert_eq!(burn(&mut ctx, 1), Err(CustomError::UninitializedState));
}

#[test]
fn frozen_account_refuses_transfer_burn_and_mint_to() {
    let mint = new_mint(1, 2, Some(3));
    let account = new_account(10, mint, 20, 500);
    let other = new_account(11, mint, 21, 500);
    let cold = frozen(account, mint, 3);
    assert_eq!(cold.data.state, AccountState::Frozen);

    let mut ctx = IncoTransfer { source: cold, destination: other, authority: addr(20) };
    assert_eq!(transfer(&mut ctx, 1), Err(CustomError::AccountFrozen));
    let mut ctx = IncoTransfer { source: other, destination: cold, authority: addr(21) };
    assert_eq!(transfer(&mut ctx, 1), Err(CustomError::AccountFrozen));
    assert_eq!(ctx.destination.data.amount.handle, 0);
    let mut ctx = IncoBurn { account: cold, mint, authority: addr(20) };
    assert_eq!(burn(&mut ctx, 1), Err(CustomError::AccountFrozen));
    let mut ctx = IncoMintTo { mint, account: cold, mint_authority: addr(2) };
    assert_eq!(mint_to(&mut ctx, 1), Err(CustomError::AccountFrozen));
    assert_eq!(ctx.account.data.amount.handle, 0);
}

#[test]
fn thaw_restores_eligibility() {
    let mint = new_mint(1, 2, Some(3));
    let account = new_account(10, mint, 20, 500);
    let cold = frozen(account, mint, 3);
    let mut ctx = ThawAccount { account: cold, mint, freeze_authority: addr(3) };
    assert_eq!(thaw_account(&mut ctx), Ok(()));
    assert_eq!(ctx.account.data, account.data);
    let mut minted = IncoMintTo { mint, account: ctx.account, mint_authority: addr(2) };
    assert_eq!(mint_to(&mut minted, 5), Ok(()));
    let mut burnt = IncoBurn { account: minted.account, mint, authority: addr(20) };
    assert_eq!(burn(&mut burnt, 5), Ok(()));
}

#[test]
fn freeze_refusals() {
    let mint = new_mint(1, 2, Some(3));
    let unfreezable = new_mint(5, 2, None);
    let other_mint = new_mint(4, 2, Some(3));
    let account = new_account(10, mint, 20, 500);
    let free = new_account(14, unfreezable, 20, 500);

    let mut ctx = FreezeAccount { account, mint, freeze_authority: addr(2) };
    assert_eq!(freeze_account(&mut ctx), Err(CustomError::OwnerMismatch));
    assert_eq!(ctx.account.data.state, AccountState::Initialized);
    let mut ctx = FreezeAccount { account: free, mint: unfreezable, freeze_authority: addr(3) };
    assert_eq!(freeze_account(&mut ctx), Err(CustomError::OwnerMismatch));
    let mut ctx = FreezeAccount { account, mint: other_mint, freeze_authority: addr(3) };
    assert_eq!(freeze_account(&mut ctx), Err(CustomError::MintMismatch));
    let cold = frozen(account, mint, 3);
    let mut ctx = FreezeAccount { account: cold, mint, freeze_authority: addr(3) };
    assert_eq!(freeze_account(&mut ctx), Err(CustomError::UninitializedState));
}

#[test]
fn thaw_of_an_account_that_is_not_frozen_is_invalid() {
    let mint = new_mint(1, 2, Some(3));
    let account = new_account(10, mint, 20, 500);
    let mut ctx = ThawAccount { account, mint, freeze_authority: addr(3) };
    assert_eq!(thaw_account(&mut ctx), Err(CustomError::InvalidState));
    let cold = frozen(account, mint, 3);
    let mut ctx = ThawAccount { account: cold, mint, freeze_authority: addr(2) };
    assert_eq!(thaw_account(&mut ctx), Err(CustomError::OwnerMismatch));
    assert_eq!(ctx.account.data.state, AccountState::Frozen);
}

#[test]
fn close_account_pays_the_deposit_exactly_once() {
    let mint = new_mint(1, 2, Some(3));
    let account = new_account(10, mint, 20, 2_039_280);
    let mut ctx = CloseAccount {
        account,
        destination: Wallet { key: addr(30), lamports: 1_000 },
        authority: addr(20),
    };
    assert_eq!(close_account(&mut ctx), Ok(()));
    assert_eq!(ctx.account.lamports, 0);
    assert_eq!(ctx.destination.lamports, 2_040_280);
    assert_eq!(ctx.account.data, IncoAccount::new_vacant());
    assert_eq!(close_account(&mut ctx), Err(CustomError::UninitializedState));
    assert_eq!(ctx.destination.lamports, 2_040_280);
}

#[test]
fn close_account_refuses_a_frozen_account() {
    let mint = new_mint(1, 2, Some(3));
    let account = new_account(10, mint, 20, 700);
    let cold = frozen(account, mint, 3);
    let mut ctx = CloseAccount {
        account: cold,
        destination: Wallet { key: addr(30), lamports: 1_000 },
        authority: addr(20),
    };
    assert_eq!(close_account(&mut ctx), Err(CustomError::UninitializedState));
    assert_eq!(ctx.account.lamports, 700);
    assert_eq!(ctx.destination.lamports, 1_000);
    assert_eq!(ctx.account.data.state, AccountState::Frozen);
}

#[test]
fn stored_sizes() {
    assert_eq!(IncoMint::LEN, 106);
    assert_eq!(IncoAccount::LEN, 213);
    assert_eq!(UserBalance::LEN, 98);
    assert_eq!(SolVault::LEN, 2);
}

#[test]
fn defaults_and_messages() {
    assert_eq!(COption::<u64>::default(), COption::Absent);
    assert_eq!(AccountState::default(), AccountState::Uninitialized);
    assert_eq!(EncryptedValue::default(), EncryptedValue { handle: 0 });
    assert_eq!(EncryptedValue::wrap(42).unwrap(), 42);
    assert_eq!(CustomError::UninitializedState.message(), "State is uninitialized");
    assert_eq!(CustomError::MintMismatch.message(), "Account not associated with this Mint");
    assert_eq!(CustomError::AccountFrozen.message(), "The account is frozen");
    assert_eq!(CustomError::InvalidState.message(), "Invalid state");
    assert_eq!(CustomError::OwnerMismatch.message(), "Owner does not match");
    assert_eq!(CustomError::InsufficientFunds.message(), "Insufficient funds");
}

#[test]
fn close_account_refusal_does_not_depend_on_the_deposits() {
    let mint = new_mint(1, 2, Some(3));
    let account = new_account(10, mint, 20, u64::MAX);
    let cold = frozen(account, mint, 3);
    let mut ctx = CloseAccount {
        account: cold,
        destination: Wallet { key: addr(30), lamports: u64::MAX },
        authority: addr(20),
    };
    let before = ctx;
    assert_eq!(close_account_refusal(&ctx), Some(CustomError::UninitializedState));
    assert_eq!(close_account(&mut ctx), Err(CustomError::UninitializedState));
    assert_eq!(ctx, before);
    ctx.account = account;
    ctx.destination.lamports = 0;
    assert_eq!(close_account_refusal(&ctx), None);
    assert_eq!(close_account(&mut ctx), Ok(()));
    assert_eq!(ctx.destination.lamports, u64::MAX);
    assert_eq!(ctx.account.lamports, 0);
}
