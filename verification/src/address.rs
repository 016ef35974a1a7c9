//! Account addresses and transaction signatures as plain byte arrays.

use vstd::prelude::*;

verus! {

/// A 32-byte account address.
#[derive(Clone, Copy, Debug, PartialEq, Eq, Hash)]
pub struct Address {
    pub bytes: [u8; 32],
}

/// A 64-byte transaction signature.
#[derive(Clone, Copy, Debug, PartialEq, Eq, Hash)]
pub struct Signature {
    pub bytes: [u8; 64],
}

impl View for Address {
    type V = Seq<u8>;

    open spec fn view(&self) -> Seq<u8> {
        self.bytes@
    }
}

/// The array that holds the bytes of `s`, where `s` has the array's length.
pub open spec fn bytes_array<const N: usize>(s: Seq<u8>) -> [u8; N] {
    choose|a: [u8; N]| a@ == s
}

/// The address that holds the bytes of `s`, where `s` has 32 bytes.
pub open spec fn address_of(s: Seq<u8>) -> Address {
    Address { bytes: bytes_array::<32>(s) }
}

/// An array is the one that holds its bytes.
pub proof fn lemma_bytes_array<const N: usize>(a: [u8; N])
    ensures
        bytes_array::<N>(a@) == a,
{
    let b = bytes_array::<N>(a@);
    assert(b@ == a@);
    assert(b =~= a);
}

/// An address is the one that holds its bytes, so that addresses with the
/// same bytes are the same address.
pub proof fn lemma_address_of(a: Address)
    ensures
        address_of(a@) == a,
{
    lemma_bytes_array::<32>(a.bytes);
}

impl Address {
    /// The address made of the given bytes.
    pub fn new(bytes: [u8; 32]) -> (r: Address)
        ensures
            r.bytes == bytes,
            r@ == bytes@,
    {
        Address { bytes }
    }

    /// Byte-wise equality of two addresses.
    pub fn same(&self, other: &Address) -> (r: bool)
        ensures
            r == (self@ == other@),
            r == (*self == *other),
    {
        proof {
            lemma_address_of(*self);
            lemma_address_of(*other);
        }
        let mut i: usize = 0;
        while i < 32
            invariant
                i <= 32,
                forall|j: int| 0 <= j < i ==> self.bytes[j] == other.bytes[j],
            decreases 32 - i,
        {
            if self.bytes[i] != other.bytes[i] {
                return false;
            }
            i = i + 1;
        }
        assert(self@ =~= other@);
        true
    }
}

} // verus!
