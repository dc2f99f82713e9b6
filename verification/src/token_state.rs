//! Records of the confidential token ledger and the errors of its rules.

use vstd::prelude::*;
use crate::address::Address;
use crate::encrypted::EncryptedValue;

verus! {

/// An optional value with a fixed-size stored form.
#[derive(Clone, Copy, Debug, PartialEq)]
pub enum COption<T> {
    Absent,
    Present(T),
}

impl<T> Default for COption<T> {
    fn default() -> (value: COption<T>)
        ensures
            value is Absent,
    {
        COption::Absent
    }
}

impl COption<Address> {
    /// Whether the option holds exactly `address`.
    pub fn holds(&self, address: &Address) -> (r: bool)
        ensures
            r == (*self == COption::Present(*address)),
    {
        match self {
            COption::Present(held) => *held == *address,
            COption::Absent => false,
        }
    }

    /// The stored form of an optional address.
    pub fn from_option(value: Option<Address>) -> (stored: COption<Address>)
        ensures
            stored == stored_option(value),
    {
        match value {
            Some(address) => COption::Present(address),
            None => COption::Absent,
        }
    }
}

/// The stored form of an optional address.
pub open spec fn stored_option(value: Option<Address>) -> COption<Address> {
    match value {
        Some(address) => COption::Present(address),
        None => COption::Absent,
    }
}

/// Lifecycle of a confidential token account.
#[derive(Clone, Copy, Debug, PartialEq, Eq, Structural)]
pub enum AccountState {
    Uninitialized,
    Initialized,
    Frozen,
}

impl Default for AccountState {
    fn default() -> (state: AccountState)
        ensures
            state == AccountState::Uninitialized,
    {
        AccountState::Uninitialized
    }
}

/// A confidential asset: who may mint and freeze, and the encrypted supply.
#[derive(Clone, Copy, Debug, PartialEq)]
pub struct IncoMint {
    pub mint_authority: COption<Address>,
    pub supply: EncryptedValue,
    pub decimals: u8,
    pub is_initialized: bool,
    pub freeze_authority: COption<Address>,
}

impl IncoMint {
    /// Stored size in bytes.
    pub const LEN: usize = 36 + 32 + 1 + 1 + 36;
}

/// A holder's encrypted balance of one confidential asset.
#[derive(Clone, Copy, Debug, PartialEq)]
pub struct IncoAccount {
    pub mint: Address,
    pub owner: Address,
    pub amount: EncryptedValue,
    pub delegate: COption<Address>,
    pub state: AccountState,
    pub is_native: COption<u64>,
    pub delegated_amount: EncryptedValue,
    pub close_authority: COption<Address>,
}

impl IncoAccount {
    /// Stored size in bytes.
    pub const LEN: usize = 32 + 32 + 32 + 36 + 1 + 12 + 32 + 36;

    /// The content of a slot that holds no account.
    pub open spec fn vacant() -> IncoAccount {
        IncoAccount {
            mint: Address::spec_zero(),
            owner: Address::spec_zero(),
            amount: EncryptedValue::spec_zero(),
            delegate: COption::Absent,
            state: AccountState::Uninitialized,
            is_native: COption::Absent,
            delegated_amount: EncryptedValue::spec_zero(),
            close_authority: COption::Absent,
        }
    }

    /// A slot that holds no account.
    pub fn new_vacant() -> (account: IncoAccount)
        ensures
            account == IncoAccount::vacant(),
    {
        IncoAccount {
            mint: Address::zero(),
            owner: Address::zero(),
            amount: EncryptedValue::zero(),
            delegate: COption::Absent,
            state: AccountState::Uninitialized,
            is_native: COption::Absent,
            delegated_amount: EncryptedValue::zero(),
            close_authority: COption::Absent,
        }
    }
}

/// The encrypted balance of one user in one confidential asset, stored at the
/// address derived from that pair.
#[derive(Clone, Copy, Debug, PartialEq)]
pub struct UserBalance {
    pub user: Address,
    pub mint: Address,
    pub encrypted_balance: EncryptedValue,
    pub bump: u8,
    pub is_initialized: bool,
}

impl UserBalance {
    /// Stored size in bytes.
    pub const LEN: usize = 32 + 32 + 32 + 1 + 1;
}

/// The program-owned vault of native currency; the units are its deposit.
#[derive(Clone, Copy, Debug, PartialEq)]
pub struct SolVault {
    pub bump: u8,
    pub is_initialized: bool,
}

impl SolVault {
    /// Stored size in bytes.
    pub const LEN: usize = 1 + 1;
}

/// Why an operation of the ledger is refused.
#[derive(Clone, Copy, Debug, PartialEq, Eq, Structural)]
pub enum CustomError {
    UninitializedState,
    MintMismatch,
    AccountFrozen,
    InvalidState,
    OwnerMismatch,
    InsufficientFunds,
}

impl CustomError {
    /// What the error says to a person.
    pub fn message(&self) -> (text: &'static str)
        ensures
            text@ == error_text(*self),
    {
        match self {
            CustomError::UninitializedState => "State is uninitialized",
            CustomError::MintMismatch => "Account not associated with this Mint",
            CustomError::AccountFrozen => "The account is frozen",
            CustomError::InvalidState => "Invalid state",
            CustomError::OwnerMismatch => "Owner does not match",
            CustomError::InsufficientFunds => "Insufficient funds",
        }
    }
}

/// The text of each error.
pub open spec fn error_text(error: CustomError) -> Seq<char> {
    match error {
        CustomError::UninitializedState => "State is uninitialized"@,
        CustomError::MintMismatch => "Account not associated with this Mint"@,
        CustomError::AccountFrozen => "The account is frozen"@,
        CustomError::InvalidState => "Invalid state"@,
        CustomError::OwnerMismatch => "Owner does not match"@,
        CustomError::InsufficientFunds => "Insufficient funds"@,
    }
}

/// The result of an operation that fails with `error` if there is one.
pub open spec fn outcome<E>(error: Option<E>) -> Result<(), E> {
    match error {
        Some(e) => Err(e),
        None => Ok(()),
    }
}

} // verus!
