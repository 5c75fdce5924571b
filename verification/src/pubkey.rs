//! 32-byte account addresses.

use vstd::prelude::*;
use vstd::std_specs::cmp::PartialEqSpecImpl;

verus! {

/// Number of bytes in an account address.
pub const PUBKEY_BYTES: usize = 32;

/// The address of an account: 32 raw bytes.
#[derive(Clone, Copy, Debug, Eq, Hash)]
pub struct Pubkey {
    pub bytes: [u8; 32],
}

impl View for Pubkey {
    type V = Seq<u8>;

    open spec fn view(&self) -> Seq<u8> {
        self.bytes@
    }
}

impl Pubkey {
    /// Wraps 32 raw bytes as an address.
    pub fn new_from_array(bytes: [u8; 32]) -> (key: Pubkey)
        ensures
            key.bytes == bytes,
            key@ == bytes@,
    {
        Pubkey { bytes }
    }

    /// The 32 raw bytes of the address.
    pub fn to_bytes(&self) -> (bytes: [u8; 32])
        ensures
            bytes == self.bytes,
            bytes@ == self@,
    {
        self.bytes
    }

    /// The raw bytes as a freshly allocated vector, in order.
    pub fn to_vec(&self) -> (out: Vec<u8>)
        ensures
            out@ == self@,
    {
        let mut out: Vec<u8> = Vec::new();
        let mut i: usize = 0;
        while i < 32
            invariant
                i <= 32,
                out@ == self@.subrange(0, i as int),
            decreases 32 - i,
        {
            out.push(self.bytes[i]);
            i += 1;
        }
        out
    }

    /// Appends the 32 bytes of the address to `out`.
    pub fn put(&self, out: &mut Vec<u8>)
        ensures
            final(out)@ == old(out)@ + self@,
    {
        let mut i: usize = 0;
        while i < 32
            invariant
                i <= 32,
                out@ == old(out)@ + self@.subrange(0, i as int),
            decreases 32 - i,
        {
            out.push(self.bytes[i]);
            i += 1;
            assert(out@ =~= old(out)@ + self@.subrange(0, i as int));
        }
        assert(self@.subrange(0, 32) =~= self@);
    }

    /// Reads the address held in the 32 bytes of `data` from `at`.
    pub fn get(data: &[u8], at: usize) -> (key: Pubkey)
        requires
            at + 32 <= data@.len(),
        ensures
            key@ == data@.subrange(at as int, at + 32),
            key == Pubkey::from_seq(data@.subrange(at as int, at + 32)),
    {
        let len: usize = data.len();
        let mut bytes: [u8; 32] = [0u8; 32];
        let mut i: usize = 0;
        while i < 32
            invariant
                i <= 32,
                at + 32 <= len,
                len == data@.len(),
                forall|j: int| 0 <= j < i ==> bytes@[j] == data@[at + j],
            decreases 32 - i,
        {
            bytes[i] = data[at + i];
            i += 1;
        }
        let key = Pubkey { bytes };
        proof {
            assert(key@ =~= data@.subrange(at as int, at + 32));
            Pubkey::lemma_from_seq_of_view(key);
        }
        key
    }

    /// The address whose bytes are `s`, for a sequence of 32 bytes.
    pub closed spec fn from_seq(s: Seq<u8>) -> Pubkey {
        choose|k: Pubkey| k@ == s
    }

    /// Every sequence of 32 bytes is the bytes of exactly one address.
    pub proof fn lemma_from_seq(s: Seq<u8>)
        requires
            s.len() == 32,
        ensures
            Pubkey::from_seq(s)@ == s,
    {
        let k = Pubkey { bytes: filled(s, 32) };
        lemma_filled(s, 32);
        assert(k@ =~= s);
    }

    /// An address is the one that its own bytes denote.
    pub proof fn lemma_from_seq_of_view(k: Pubkey)
        ensures
            Pubkey::from_seq(k@) == k,
    {
        Pubkey::lemma_from_seq(k@);
        Pubkey::lemma_view_injective(Pubkey::from_seq(k@), k);
    }

    /// Two addresses are the same value exactly when their bytes agree.
    pub proof fn lemma_view_injective(a: Pubkey, b: Pubkey)
        ensures
            (a@ == b@) <==> (a == b),
    {
        if a@ == b@ {
            assert(a.bytes =~= b.bytes);
        }
    }
}

/// An array that agrees with `s` on its first `n` places.
spec fn filled(s: Seq<u8>, n: nat) -> [u8; 32]
    decreases n,
{
    if n == 0 {
        vstd::array::spec_array_fill_for_copy_type::<u8, 32>(0u8)
    } else {
        vstd::array::spec_array_update(filled(s, (n - 1) as nat), n - 1, s[n - 1])
    }
}

proof fn lemma_filled(s: Seq<u8>, n: nat)
    requires
        n <= 32,
        s.len() == 32,
    ensures
        forall|j: int| 0 <= j < n ==> filled(s, n)@[j] == s[j],
    decreases n,
{
    broadcast use vstd::array::group_array_axioms;

    if n > 0 {
        lemma_filled(s, (n - 1) as nat);
    }
}

impl PartialEq for Pubkey {
    fn eq(&self, other: &Pubkey) -> (same: bool) {
        let mut i: usize = 0;
        while i < 32
            invariant
                i <= 32,
                forall|j: int| 0 <= j < i ==> self.bytes[j] == other.bytes[j],
            decreases 32 - i,
        {
            if self.bytes[i] != other.bytes[i] {
                return false;
            }
            i += 1;
        }
        proof {
            assert(self.bytes =~= other.bytes);
        }
        true
    }
}

impl PartialEqSpecImpl for Pubkey {
    open spec fn obeys_eq_spec() -> bool {
        true
    }

    open spec fn eq_spec(&self, other: &Pubkey) -> bool {
        *self == *other
    }
}

} // verus!
