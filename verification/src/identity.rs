//! Account identities: 32-byte addresses of parties, accounts and asset types.

use vstd::prelude::*;

verus! {

/// The number of bytes in an identity.
pub const IDENTITY_LEN: usize = 32;

/// A 32-byte account identity: a party, an account, an asset type or the
/// program itself. Its mathematical view is the sequence of its bytes.
#[derive(Clone, Copy, Debug, PartialEq, Eq)]
pub struct Identity {
    pub bytes: [u8; 32],
}

impl View for Identity {
    type V = Seq<u8>;

    open spec fn view(&self) -> Seq<u8> {
        self.bytes@
    }
}

impl Identity {
    /// Wraps 32 raw bytes as an identity.
    pub fn new(bytes: [u8; 32]) -> (r: Identity)
        ensures
            r@ == bytes@,
    {
        Identity { bytes }
    }

    /// Reads the 32 bytes at `offset` of `src` as an identity.
    pub fn read_from(src: &[u8], offset: usize) -> (r: Identity)
        requires
            offset + 32 <= src@.len(),
        ensures
            r@ == src@.subrange(offset as int, offset as int + 32),
    {
        let n: usize = src.len();
        let mut bytes: [u8; 32] = [0u8; 32];
        let mut i: usize = 0;
        while i < 32
            invariant
                i <= 32,
                offset + 32 <= n,
                n == src@.len(),
                forall|j: int| 0 <= j < i ==> bytes@[j] == src@[offset + j],
            decreases 32 - i,
        {
            bytes[i] = src[offset + i];
            i += 1;
        }
        let r = Identity { bytes };
        proof {
            assert(r@ =~= src@.subrange(offset as int, offset as int + 32));
        }
        r
    }

    /// Appends this identity's 32 bytes to `out`.
    pub fn append_to(&self, out: &mut Vec<u8>)
        ensures
            final(out)@ == old(out)@ + self@,
    {
        let ghost prefix: Seq<u8> = out@;
        let mut i: usize = 0;
        while i < 32
            invariant
                i <= 32,
                out@ == prefix + self@.subrange(0, i as int),
            decreases 32 - i,
        {
            out.push(self.bytes[i]);
            proof {
                assert(out@ =~= prefix + self@.subrange(0, i + 1));
            }
            i += 1;
        }
        proof {
            assert(out@ =~= prefix + self@);
        }
    }

    /// Byte-for-byte equality of two identities.
    pub fn eq_id(&self, other: &Identity) -> (r: bool)
        ensures
            r <==> self@ == other@,
    {
        let mut i: usize = 0;
        while i < 32
            invariant
                i <= 32,
                forall|j: int| 0 <= j < i ==> self@[j] == other@[j],
            decreases 32 - i,
        {
            if self.bytes[i] != other.bytes[i] {
                return false;
            }
            i += 1;
        }
        proof {
            assert(self@ =~= other@);
        }
        true
    }
}

} // verus!
