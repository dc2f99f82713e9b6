//! Encrypted quantities. A value of this module is a handle to a ciphertext
//! that the coprocessor keeps; nothing here ever sees a plaintext amount.

use vstd::prelude::*;

verus! {

/// Handle to an encrypted unsigned quantity.
#[derive(Clone, Copy, Debug, PartialEq, Eq, Structural)]
pub struct EncryptedValue {
    pub handle: u128,
}

/// Calls `Euint128::wrap` of `inco_lightning` and reads the handle's one
/// field. `wrap` stores its argument in that field and does nothing else.
#[verifier::external_body]
fn lightning_wrap(payload: u128) -> (handle: u128)
    ensures
        handle == payload,
{
    inco_lightning::types::Euint128::wrap(payload).0
}

/// Calls `Euint128::default` of `inco_lightning` and reads the handle's one
/// field. The impl is derived, so the field is the default of `u128`.
#[verifier::external_body]
fn lightning_zero() -> (handle: u128)
    ensures
        handle == 0,
{
    inco_lightning::types::Euint128::default().0
}

impl EncryptedValue {
    /// The handle that refers to encrypted zero.
    pub open spec fn spec_zero() -> EncryptedValue {
        EncryptedValue { handle: 0 }
    }

    /// The handle made of a payload that the caller encrypted.
    pub open spec fn spec_wrap(payload: u128) -> EncryptedValue {
        EncryptedValue { handle: payload }
    }

    /// Makes a handle of a payload that the caller has already encrypted.
    pub fn wrap(payload: u128) -> (value: EncryptedValue)
        ensures
            value == Self::spec_wrap(payload),
    {
        EncryptedValue { handle: lightning_wrap(payload) }
    }

    /// The handle of encrypted zero.
    pub fn zero() -> (value: EncryptedValue)
        ensures
            value == Self::spec_zero(),
    {
        EncryptedValue { handle: lightning_zero() }
    }

    /// The payload behind the handle.
    pub fn unwrap(self) -> (payload: u128)
        ensures
            payload == self.handle,
    {
        self.handle
    }
}

impl Default for EncryptedValue {
    fn default() -> (value: EncryptedValue)
        ensures
            value == EncryptedValue::spec_zero(),
    {
        EncryptedValue::zero()
    }
}

} // verus!
