//! Account identities: 32-byte addresses.

use vstd::prelude::*;

verus! {

/// The identity of an account or of a program.
#[derive(Clone, Copy, Debug)]
pub struct Address {
    pub bytes: [u8; 32],
}

impl View for Address {
    type V = Seq<u8>;

    open spec fn view(&self) -> Seq<u8> {
        self.bytes@
    }
}

impl PartialEq for Address {
    fn eq(&self, other: &Address) -> (same: bool) {
        let mut i: usize = 0;
        while i < 32
            invariant
                i <= 32,
                forall|j: int| 0 <= j < i ==> self.bytes[j] == other.bytes[j],
            decreases 32 - i,
        {
            if self.bytes[i] != other.bytes[i] {
                return false;
            }
            i = i + 1;
        }
        assert(self.bytes@ =~= other.bytes@);
        true
    }
}

impl vstd::std_specs::cmp::PartialEqSpecImpl for Address {
    open spec fn obeys_eq_spec() -> bool {
        true
    }

    open spec fn eq_spec(&self, other: &Address) -> bool {
        self@ == other@
    }
}

impl Eq for Address {

}

/// The address whose bytes are the first 32 items of `s`.
pub open spec fn address_from(s: Seq<u8>) -> Address {
    Address {
        bytes: [
            s[0], s[1], s[2], s[3], s[4], s[5], s[6], s[7],
            s[8], s[9], s[10], s[11], s[12], s[13], s[14], s[15],
            s[16], s[17], s[18], s[19], s[20], s[21], s[22], s[23],
            s[24], s[25], s[26], s[27], s[28], s[29], s[30], s[31],
        ],
    }
}

/// An address is determined by its bytes.
pub proof fn lemma_address_by_bytes(a: Address, b: Address)
    ensures
        (a@ == b@) == (a == b),
{
    if a@ == b@ {
        assert(a.bytes =~= b.bytes);
    }
}

/// `address_from` inverts the view, in both directions.
pub proof fn lemma_address_from(s: Seq<u8>, a: Address)
    ensures
        a@.len() == 32,
        address_from(a@) == a,
        s.len() == 32 ==> address_from(s)@ == s,
{
    assert(address_from(a@).bytes =~= a.bytes);
    if s.len() == 32 {
        assert(address_from(s)@ =~= s);
    }
}

impl Address {
    pub fn new(bytes: [u8; 32]) -> (a: Address)
        ensures
            a.bytes == bytes,
    {
        Address { bytes }
    }

    pub fn to_bytes(&self) -> (bytes: [u8; 32])
        ensures
            bytes == self.bytes,
    {
        self.bytes
    }

    /// Reads the address stored in `bytes[at .. at + 32]`.
    pub fn read_from(bytes: &[u8], at: usize) -> (a: Address)
        requires
            at + 32 <= bytes@.len(),
        ensures
            a == address_from(bytes@.subrange(at as int, at + 32)),
            a@ == bytes@.subrange(at as int, at + 32),
    {
        let n = bytes.len();
        let mut out = [0u8; 32];
        let mut i: usize = 0;
        while i < 32
            invariant
                i <= 32,
                n == bytes@.len(),
                at + 32 <= n,
                forall|j: int| 0 <= j < i ==> out[j] == bytes@[at + j],
            decreases 32 - i,
        {
            out[i] = bytes[at + i];
            i = i + 1;
        }
        let a = Address { bytes: out };
        assert(a@ =~= bytes@.subrange(at as int, at + 32));
        proof {
            lemma_address_from(a@, a);
        }
        a
    }

    /// Appends the 32 bytes of the address to `out`.
    pub fn write_to(&self, out: &mut Vec<u8>)
        ensures
            final(out)@ == old(out)@ + self@,
    {
        let mut i: usize = 0;
        while i < 32
            invariant
                i <= 32,
                out@ == old(out)@ + self@.subrange(0, i as int),
            decreases 32 - i,
        {
            out.push(self.bytes[i]);
            i = i + 1;
            assert(out@ =~= old(out)@ + self@.subrange(0, i as int));
        }
        assert(self@.subrange(0, 32) =~= self@);
    }
}

} // verus!
