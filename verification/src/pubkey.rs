//! Addresses.

use vstd::prelude::*;

verus! {

broadcast use vstd::array::group_array_axioms;

/// A 32-byte ledger address: the identity of an account, a mint or a program.
#[derive(Clone, Copy, Debug, Eq, Hash)]
pub struct Pubkey {
    pub bytes: [u8; 32],
}

impl View for Pubkey {
    type V = Seq<u8>;

    open spec fn view(&self) -> Seq<u8> {
        self.bytes@
    }
}

impl PartialEq for Pubkey {
    fn eq(&self, other: &Self) -> (r: bool) {
        let mut i: usize = 0;
        while i < 32
            invariant
                i <= 32,
                forall|j: int| 0 <= j < i ==> self.bytes[j] == other.bytes[j],
            decreases 32 - i,
        {
            if self.bytes[i] != other.bytes[i] {
                return false;
            }
            i = i + 1;
        }
        proof {
            assert(self.bytes =~= other.bytes);
        }
        true
    }
}

impl vstd::std_specs::cmp::PartialEqSpecImpl for Pubkey {
    open spec fn obeys_eq_spec() -> bool {
        true
    }

    open spec fn eq_spec(&self, other: &Self) -> bool {
        *self == *other
    }
}

impl Pubkey {
    /// The address made of the given bytes.
    pub fn new_from_array(bytes: [u8; 32]) -> (key: Pubkey)
        ensures
            key.bytes == bytes,
    {
        Pubkey { bytes }
    }

    /// The bytes of the address.
    pub fn to_bytes(&self) -> (bytes: [u8; 32])
        ensures
            bytes == self.bytes,
    {
        self.bytes
    }

    /// The bytes of the address as a seed for a derivation.
    pub fn to_vec(&self) -> (seed: Vec<u8>)
        ensures
            seed@ == self@,
    {
        let mut seed: Vec<u8> = Vec::new();
        let mut i: usize = 0;
        while i < 32
            invariant
                i <= 32,
                seed@ == self@.subrange(0, i as int),
            decreases 32 - i,
        {
            seed.push(self.bytes[i]);
            i = i + 1;
            assert(seed@ =~= self@.subrange(0, i as int));
        }
        assert(seed@ =~= self@);
        seed
    }

    /// Whether the address is one of those listed.
    pub fn is_among(&self, keys: &Vec<Pubkey>) -> (found: bool)
        ensures
            found == keys@.contains(*self),
    {
        let mut i: usize = 0;
        while i < keys.len()
            invariant
                i <= keys.len(),
                forall|j: int| 0 <= j < i ==> keys[j] != *self,
            decreases keys.len() - i,
        {
            if keys[i] == *self {
                return true;
            }
            i = i + 1;
        }
        false
    }

    /// Two addresses are the same exactly when their bytes agree.
    pub proof fn lemma_view_injective(a: Pubkey, b: Pubkey)
        ensures
            (a@ == b@) == (a == b),
            a@.len() == 32,
    {
        if a@ == b@ {
            assert(a.bytes =~= b.bytes);
        }
    }
}

} // verus!
