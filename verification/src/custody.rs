//! Records as the host stores them, and the custody of plaintext units.
//!
//! A stored record has an address and a storage deposit beside its data. A
//! wallet holds native currency; a token holding holds units of one public
//! asset. Moving units between two of them never creates or destroys any.

use vstd::prelude::*;
use crate::address::Address;

verus! {

/// A record of the program at its address, with its storage deposit.
#[derive(Clone, Copy, Debug, PartialEq)]
pub struct Record<T> {
    pub key: Address,
    pub lamports: u64,
    pub data: T,
}

/// An address that holds native currency.
#[derive(Clone, Copy, Debug, PartialEq)]
pub struct Wallet {
    pub key: Address,
    pub lamports: u64,
}

/// A holding of one public asset: which asset, who may move it, how much.
#[derive(Clone, Copy, Debug, PartialEq)]
pub struct TokenHolding {
    pub key: Address,
    pub mint: Address,
    pub owner: Address,
    pub amount: u64,
    pub is_initialized: bool,
}

/// Why a movement of plaintext units is refused.
#[derive(Clone, Copy, Debug, PartialEq, Eq, Structural)]
pub enum CustodyError {
    /// The signing authority may not move units out of the source.
    AuthorizationFailed,
    /// The source holds fewer units than asked for.
    InsufficientFunds,
}

/// Why `authority` may not take `amount` units out of `from`, if it may not.
/// The holding is looked at first, then the authority.
pub open spec fn token_transfer_error(from: TokenHolding, authority: Address, amount: u64) -> Option<CustodyError> {
    if from.amount < amount {
        Some(CustodyError::InsufficientFunds)
    } else if from.owner != authority {
        Some(CustodyError::AuthorizationFailed)
    } else {
        None
    }
}

/// Why `authority` may not take `amount` units out of `from`, if it may not.
pub fn token_transfer_refusal(from: &TokenHolding, authority: &Address, amount: u64) -> (refusal: Option<
    CustodyError,
>)
    ensures
        refusal == token_transfer_error(*from, *authority, amount),
{
    if from.amount < amount {
        Some(CustodyError::InsufficientFunds)
    } else if from.owner != *authority {
        Some(CustodyError::AuthorizationFailed)
    } else {
        None
    }
}

/// Moves `amount` units of a public asset from one holding to another.
///
/// The movement happens only if the source holds enough and `authority`
/// owns it; otherwise both holdings are left as they were. Where units move,
/// the destination must have room for them.
pub fn token_transfer(from: &mut TokenHolding, to: &mut TokenHolding, authority: &Address, amount: u64) -> (result: Result<(), CustodyError>)
    requires
        token_transfer_error(*old(from), *authority, amount) is None ==> old(to).amount + amount <= u64::MAX,
    ensures
        result == (match token_transfer_error(*old(from), *authority, amount) {
            Some(e) => Err::<(), CustodyError>(e),
            None => Ok(()),
        }),
        result is Ok ==> *final(from) == (TokenHolding { amount: (old(from).amount - amount) as u64, ..*old(from) })
            && *final(to) == (TokenHolding { amount: (old(to).amount + amount) as u64, ..*old(to) }),
        result is Err ==> *final(from) == *old(from) && *final(to) == *old(to),
{
    if let Some(refusal) = token_transfer_refusal(from, authority, amount) {
        return Err(refusal);
    }
    from.amount = from.amount - amount;
    to.amount = to.amount + amount;
    Ok(())
}

/// Moves `amount` of native currency from one wallet balance to another.
///
/// Fails, changing nothing, where the source holds less than `amount`.
/// Where units move, the destination must have room for them.
pub fn lamport_transfer(from: &mut u64, to: &mut u64, amount: u64) -> (result: Result<(), CustodyError>)
    requires
        *old(from) >= amount ==> *old(to) + amount <= u64::MAX,
    ensures
        result == (if *old(from) < amount {
            Err::<(), CustodyError>(CustodyError::InsufficientFunds)
        } else {
            Ok(())
        }),
        result is Ok ==> *final(from) == *old(from) - amount && *final(to) == *old(to) + amount,
        result is Err ==> *final(from) == *old(from) && *final(to) == *old(to),
{
    if *from < amount {
        return Err(CustodyError::InsufficientFunds);
    }
    *from = *from - amount;
    *to = *to + amount;
    Ok(())
}

} // verus!
