//! Account addresses: thirty-two opaque bytes, compared byte for byte.

use vstd::prelude::*;

verus! {

/// Number of bytes in an address.
pub const ADDRESS_LEN: usize = 32;

/// The identity of an account: an owner, an authority or a feed.
#[derive(Clone, Copy, Debug)]
pub struct Address {
    pub bytes: [u8; 32],
}

impl View for Address {
    type V = Seq<u8>;

    open spec fn view(&self) -> Seq<u8> {
        self.bytes@
    }
}

impl PartialEq for Address {
    fn eq(&self, other: &Address) -> (equal: bool) {
        let mut i: usize = 0;
        while i < 32
            invariant
                i <= 32,
                forall|k: int| 0 <= k < i ==> self.bytes[k] == other.bytes[k],
            decreases 32 - i,
        {
            if self.bytes[i] != other.bytes[i] {
                return false;
            }
            i += 1;
        }
        assert(self.bytes =~= other.bytes);
        true
    }
}

impl Eq for Address {}

impl vstd::std_specs::cmp::PartialEqSpecImpl for Address {
    open spec fn obeys_eq_spec() -> bool {
        true
    }

    open spec fn eq_spec(&self, other: &Address) -> bool {
        *self == *other
    }
}

/// Whether every byte is zero. The all-zero address marks a registry slot
/// that was never set.
pub open spec fn unset(address: Seq<u8>) -> bool {
    forall|i: int| 0 <= i < address.len() ==> address[i] == 0
}

impl Address {
    /// Whether this is the all-zero address.
    pub open spec fn spec_is_unset(&self) -> bool {
        unset(self@)
    }

    /// Whether this is the all-zero address.
    #[verifier::when_used_as_spec(spec_is_unset)]
    pub fn is_unset(&self) -> (unset: bool)
        ensures
            unset == self.spec_is_unset(),
    {
        let mut i: usize = 0;
        while i < 32
            invariant
                i <= 32,
                forall|k: int| 0 <= k < i ==> self.bytes[k] == 0,
            decreases 32 - i,
        {
            if self.bytes[i] != 0 {
                return false;
            }
            i += 1;
        }
        true
    }

    /// Two addresses with the same bytes are the same address.
    pub proof fn lemma_same_bytes(a: Address, b: Address)
        ensures
            (a@ == b@) == (a == b),
    {
        if a@ == b@ {
            assert forall|i: int| 0 <= i < 32 implies a.bytes[i] == b.bytes[i] by {
                assert(a.bytes[i] == a@[i]);
                assert(b.bytes[i] == b@[i]);
            }
            assert(a.bytes =~= b.bytes);
        }
    }

    /// The address stored at `data[at..at + 32]`.
    pub fn read(data: &[u8], at: usize) -> (address: Address)
        requires
            at + 32 <= data@.len(),
        ensures
            address@ == data@.subrange(at as int, at + 32),
    {
        assert(at + 32 <= data.len());
        let mut bytes = [0u8; 32];
        let mut i: usize = 0;
        while i < 32
            invariant
                i <= 32,
                at + 32 <= data@.len() <= usize::MAX,
                forall|k: int| 0 <= k < i ==> bytes[k] == data@[at + k],
            decreases 32 - i,
        {
            bytes[i] = data[at + i];
            i += 1;
        }
        let address = Address { bytes };
        assert(address@ =~= data@.subrange(at as int, at + 32));
        address
    }

    /// Writes the address over `data[at..at + 32]`.
    pub fn write(&self, data: &mut Vec<u8>, at: usize)
        requires
            at + 32 <= old(data)@.len(),
        ensures
            final(data)@ == crate::bytes::overlay(old(data)@, at as int, self@),
    {
        assert(at + 32 <= data.len());
        let mut i: usize = 0;
        while i < 32
            invariant
                i <= 32,
                at + 32 <= data@.len() <= usize::MAX,
                data@.len() == old(data)@.len(),
                forall|k: int|
                    0 <= k < data@.len() && !(at <= k < at + i) ==> data@[k] == old(data)@[k],
                forall|k: int| 0 <= k < i ==> data@[at + k] == self.bytes[k],
            decreases 32 - i,
        {
            data.set(at + i, self.bytes[i]);
            i += 1;
        }
        assert(data@ =~= crate::bytes::overlay(old(data)@, at as int, self@));
    }
}

impl Default for Address {
    fn default() -> (unset: Address)
        ensures
            unset.spec_is_unset(),
    {
        Address { bytes: [0u8; 32] }
    }
}

} // verus!
