//! Public-key identifiers: fixed 32-byte values that name wallets, owners,
//! custody accounts, transfer proposals and recipients.

use vstd::prelude::*;

verus! {

/// Number of bytes in a public-key identifier.
pub const PUBKEY_BYTES: usize = 32;

/// A 32-byte public-key identifier, viewed as the sequence of its bytes.
#[derive(Clone, Copy, Debug)]
pub struct Pubkey(pub [u8; 32]);

impl View for Pubkey {
    type V = Seq<u8>;

    open spec fn view(&self) -> Seq<u8> {
        self.0@
    }
}

impl Pubkey {
    /// Builds an identifier from its 32 bytes.
    pub fn new(bytes: [u8; 32]) -> (r: Pubkey)
        ensures
            r@ == bytes@,
    {
        Pubkey(bytes)
    }

    /// Hands the 32 bytes back.
    pub fn to_bytes(&self) -> (r: [u8; 32])
        ensures
            r@ == self@,
    {
        self.0
    }
}

/// The byte sequences of a list of identifiers.
pub open spec fn keys_view(keys: Seq<Pubkey>) -> Seq<Seq<u8>> {
    keys.map_values(|k: Pubkey| k@)
}

/// Reads the 32-byte identifier stored at `off` in `src`.
pub fn key_from_slice(src: &[u8], off: usize) -> (r: Pubkey)
    requires
        off + 32 <= src@.len(),
    ensures
        r@ == src@.subrange(off as int, off as int + 32),
{
    let n: usize = src.len();
    let mut arr: [u8; 32] = [0u8; 32];
    let mut j: usize = 0;
    while j < 32
        invariant
            j <= 32,
            off + 32 <= n,
            n == src@.len(),
            forall|i: int| 0 <= i < j ==> arr@[i] == src@[off + i],
        decreases 32 - j,
    {
        arr[j] = src[off + j];
        j = j + 1;
    }
    proof {
        assert(arr@ =~= src@.subrange(off as int, off as int + 32));
    }
    Pubkey(arr)
}

/// Appends the 32 bytes of `k` to `out`.
pub fn push_key(out: &mut Vec<u8>, k: &Pubkey)
    ensures
        final(out)@ == old(out)@ + k@,
{
    let mut j: usize = 0;
    while j < 32
        invariant
            j <= 32,
            out@ == old(out)@ + k@.subrange(0, j as int),
        decreases 32 - j,
    {
        out.push(k.0[j]);
        proof {
            assert(out@ =~= old(out)@ + k@.subrange(0, j + 1));
        }
        j = j + 1;
    }
    proof {
        assert(k@.subrange(0, 32) =~= k@);
    }
}

impl PartialEq for Pubkey {
    fn eq(&self, other: &Pubkey) -> (r: bool) {
        let mut i: usize = 0;
        let mut same: bool = true;
        while i < 32
            invariant
                i <= 32,
                same == (forall|j: int| 0 <= j < i ==> self.0@[j] == other.0@[j]),
            decreases 32 - i,
        {
            if self.0[i] != other.0[i] {
                same = false;
            }
            i = i + 1;
        }
        proof {
            if same {
                assert(self.0@ =~= other.0@);
            }
        }
        same
    }
}

impl Eq for Pubkey {
}

impl vstd::std_specs::cmp::PartialEqSpecImpl for Pubkey {
    open spec fn obeys_eq_spec() -> bool {
        true
    }

    open spec fn eq_spec(&self, other: &Pubkey) -> bool {
        self@ == other@
    }
}

} // verus!
