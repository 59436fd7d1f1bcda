//! Account addresses: the fixed-width account component of a storage key.

use vstd::prelude::*;

verus! {

/// The number of bytes in an account address.
pub const ADDRESS_LENGTH: usize = 32;

/// A global account address: a fixed-width byte string.
#[derive(Clone, Copy, Debug, Eq, Hash, PartialEq)]
pub struct AccountAddress {
    pub bytes: [u8; 32],
}

impl View for AccountAddress {
    type V = Seq<u8>;

    open spec fn view(&self) -> Seq<u8> {
        self.bytes@
    }
}

impl AccountAddress {
    /// Wraps raw bytes as an address.
    pub fn new(bytes: [u8; 32]) -> (r: Self)
        ensures
            r@ == bytes@,
    {
        AccountAddress { bytes }
    }

    /// The raw bytes of the address.
    pub fn to_bytes(&self) -> (r: [u8; 32])
        ensures
            r@ == self@,
    {
        self.bytes
    }

    /// Whether this address sorts strictly before the other in
    /// lexicographic byte order.
    pub fn less(&self, other: &AccountAddress) -> (r: bool)
        ensures
            r <==> crate::bytes::bytes_lt(self@, other@),
    {
        let mut i: usize = 0;
        proof {
            assert(self.bytes@.skip(0) =~= self.bytes@);
            assert(other.bytes@.skip(0) =~= other.bytes@);
        }
        while i < 32
            invariant
                0 <= i <= 32,
                forall|j: int| 0 <= j < i ==> self.bytes@[j] == other.bytes@[j],
                crate::bytes::bytes_lt(self@, other@) <==> crate::bytes::bytes_lt(
                    self.bytes@.skip(i as int),
                    other.bytes@.skip(i as int),
                ),
            decreases 32 - i,
        {
            if self.bytes[i] != other.bytes[i] {
                proof {
                    assert(self.bytes@.skip(i as int).first() == self.bytes@[i as int]);
                    assert(other.bytes@.skip(i as int).first() == other.bytes@[i as int]);
                }
                return self.bytes[i] < other.bytes[i];
            }
            proof {
                assert(self.bytes@.skip(i as int).first() == other.bytes@.skip(i as int).first());
                assert(self.bytes@.skip(i as int).drop_first() =~= self.bytes@.skip(i + 1));
                assert(other.bytes@.skip(i as int).drop_first() =~= other.bytes@.skip(i + 1));
            }
            i += 1;
        }
        proof {
            assert(other.bytes@.skip(32).len() == 0);
        }
        false
    }

    /// Whether two addresses hold the same bytes.
    pub fn equals(&self, other: &AccountAddress) -> (r: bool)
        ensures
            r <==> self@ == other@,
    {
        let mut i: usize = 0;
        while i < 32
            invariant
                0 <= i <= 32,
                forall|j: int| 0 <= j < i ==> self.bytes@[j] == other.bytes@[j],
            decreases 32 - i,
        {
            if self.bytes[i] != other.bytes[i] {
                assert(self@ != other@);
                return false;
            }
            i += 1;
        }
        assert(self@ =~= other@);
        true
    }
}

} // verus!
