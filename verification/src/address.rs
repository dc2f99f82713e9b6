//! Account addresses: 32 bytes, compared byte by byte.

use vstd::prelude::*;
use vstd::std_specs::cmp::PartialEqSpecImpl;

verus! {

/// A 32-byte account address.
#[derive(Clone, Copy, Debug, Eq)]
pub struct Address {
    pub bytes: [u8; 32],
}

impl View for Address {
    type V = Seq<u8>;

    open spec fn view(&self) -> Seq<u8> {
        self.bytes@
    }
}

impl PartialEq for Address {
    fn eq(&self, other: &Address) -> (r: bool) {
        let mut i: usize = 0;
        while i < 32
            invariant
                i <= 32,
                forall|j: int| 0 <= j < i ==> self.bytes[j] == other.bytes[j],
            decreases 32 - i,
        {
            if self.bytes[i] != other.bytes[i] {
                return false;
            }
            i = i + 1;
        }
        assert(self.bytes =~= other.bytes);
        true
    }
}

impl PartialEqSpecImpl for Address {
    open spec fn obeys_eq_spec() -> bool {
        true
    }

    open spec fn eq_spec(&self, other: &Address) -> bool {
        *self == *other
    }
}

impl Address {
    /// The address whose bytes are all zero: what an unwritten slot holds.
    pub open spec fn spec_zero() -> Address {
        Address { bytes: vstd::array::spec_array_fill_for_copy_type(0u8) }
    }

    /// The address whose bytes are all zero.
    pub fn zero() -> (a: Address)
        ensures
            a == Address::spec_zero(),
    {
        Address { bytes: [0u8; 32] }
    }

    /// The address made of the given bytes.
    pub fn new(bytes: [u8; 32]) -> (a: Address)
        ensures
            a.bytes == bytes,
    {
        Address { bytes }
    }

    /// The bytes of the address, in order.
    pub fn to_vec(&self) -> (v: Vec<u8>)
        ensures
            v@ == self@,
    {
        let mut v: Vec<u8> = Vec::new();
        let mut i: usize = 0;
        while i < 32
            invariant
                i <= 32,
                v@.len() == i,
                forall|j: int| 0 <= j < i ==> v@[j] == self.bytes[j],
            decreases 32 - i,
        {
            v.push(self.bytes[i]);
            i = i + 1;
        }
        assert(v@ =~= self@);
        v
    }

    /// Whether `self` comes before `other`, or equals it, when the two are
    /// compared byte by byte from the front.
    pub fn precedes(&self, other: &Address) -> (r: bool)
        ensures
            r == lex_le(self@, other@, 0),
    {
        let mut i: usize = 0;
        while i < 32
            invariant
                i <= 32,
                lex_le(self@, other@, 0) == lex_le(self@, other@, i as int),
            decreases 32 - i,
        {
            if self.bytes[i] < other.bytes[i] {
                return true;
            }
            if self.bytes[i] > other.bytes[i] {
                return false;
            }
            i = i + 1;
        }
        true
    }
}

/// Two addresses with the same bytes are the same address.
pub proof fn lemma_address_by_bytes(a: Address, b: Address)
    requires
        a@ == b@,
    ensures
        a == b,
{
    assert(forall|i: int| 0 <= i < 32 ==> a.bytes[i] == a@[i]);
    assert(forall|i: int| 0 <= i < 32 ==> b.bytes[i] == b@[i]);
    assert(a.bytes =~= b.bytes);
}

/// Byte-wise order of two 32-byte strings from position `from` on: the first
/// position at which they differ decides, and equal strings are in order.
pub open spec fn lex_le(a: Seq<u8>, b: Seq<u8>, from: int) -> bool
    decreases 32 - from,
{
    if from < 0 || from >= 32 {
        true
    } else if a[from] < b[from] {
        true
    } else if a[from] > b[from] {
        false
    } else {
        lex_le(a, b, from + 1)
    }
}

/// Of two strings, one is in order before the other.
pub proof fn lemma_lex_total(a: Seq<u8>, b: Seq<u8>, from: int)
    requires
        0 <= from <= 32,
    ensures
        lex_le(a, b, from) || lex_le(b, a, from),
    decreases 32 - from,
{
    if from < 32 && a[from] == b[from] {
        lemma_lex_total(a, b, from + 1);
    }
}

/// Two strings that are in order both ways agree from `from` on.
pub proof fn lemma_lex_antisymmetric(a: Seq<u8>, b: Seq<u8>, from: int)
    requires
        0 <= from <= 32,
        lex_le(a, b, from),
        lex_le(b, a, from),
    ensures
        forall|i: int| from <= i < 32 ==> a[i] == b[i],
    decreases 32 - from,
{
    if from < 32 {
        lemma_lex_antisymmetric(a, b, from + 1);
    }
}

} // verus!
