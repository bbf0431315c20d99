//! Shared byte-level building blocks of the binary codec: booleans as a
//! single byte, little-endian integers, and flat runs of fixed-width
//! identifier blocks.

use vstd::prelude::*;

verus! {

/// The single byte that encodes a boolean: 1 for true, 0 for false.
pub open spec fn spec_bool_byte(b: bool) -> u8 {
    if b {
        1u8
    } else {
        0u8
    }
}

/// A run of `n` zero bytes.
pub open spec fn zero_bytes(n: nat) -> Seq<u8> {
    Seq::new(n, |i: int| 0u8)
}

/// The 32-byte block stored at `off` in `s`.
pub open spec fn spec_key_at(s: Seq<u8>, off: int) -> Seq<u8> {
    s.subrange(off, off + 32)
}

/// Identifiers laid out one after the other, 32 bytes each.
pub open spec fn keys_flat(keys: Seq<Seq<u8>>) -> Seq<u8>
    decreases keys.len(),
{
    if keys.len() == 0 {
        Seq::<u8>::empty()
    } else {
        keys[0] + keys_flat(keys.drop_first())
    }
}

/// Each identifier is 32 bytes long.
pub open spec fn keys_wf(keys: Seq<Seq<u8>>) -> bool {
    forall|i: int| 0 <= i < keys.len() ==> (#[trigger] keys[i]).len() == 32
}

pub proof fn lemma_keys_flat_len(keys: Seq<Seq<u8>>)
    requires
        keys_wf(keys),
    ensures
        keys_flat(keys).len() == 32 * keys.len(),
    decreases keys.len(),
{
    if keys.len() > 0 {
        assert(keys_wf(keys.drop_first()));
        lemma_keys_flat_len(keys.drop_first());
    }
}

pub proof fn lemma_keys_flat_index(keys: Seq<Seq<u8>>, i: int)
    requires
        keys_wf(keys),
        0 <= i < keys.len(),
    ensures
        keys_flat(keys).subrange(32 * i, 32 * i + 32) == keys[i],
    decreases i,
{
    lemma_keys_flat_len(keys);
    assert(keys_wf(keys.drop_first()));
    lemma_keys_flat_len(keys.drop_first());
    if i == 0 {
        assert(keys_flat(keys).subrange(0, 32) =~= keys[0]);
    } else {
        lemma_keys_flat_index(keys.drop_first(), i - 1);
        assert(keys_flat(keys).subrange(32 * i, 32 * i + 32) =~= keys_flat(
            keys.drop_first(),
        ).subrange(32 * (i - 1), 32 * (i - 1) + 32));
    }
}

pub proof fn lemma_keys_flat_push(keys: Seq<Seq<u8>>, k: Seq<u8>)
    ensures
        keys_flat(keys.push(k)) == keys_flat(keys) + k,
    decreases keys.len(),
{
    if keys.len() == 0 {
        assert(keys.push(k).drop_first() =~= Seq::<Seq<u8>>::empty());
        assert(keys_flat(keys.push(k).drop_first()) == Seq::<u8>::empty());
        assert(keys_flat(keys.push(k)) == keys.push(k)[0] + keys_flat(keys.push(k).drop_first()));
        assert(keys_flat(keys.push(k)) =~= keys_flat(keys) + k);
    } else {
        assert(keys.push(k).drop_first() =~= keys.drop_first().push(k));
        lemma_keys_flat_push(keys.drop_first(), k);
        assert(keys_flat(keys.push(k)) =~= keys_flat(keys) + k);
    }
}

/// Signer entries laid out one after the other: a 32-byte identifier
/// followed by a single approval byte, 33 bytes each.
pub open spec fn signers_flat(signers: Seq<(Seq<u8>, bool)>) -> Seq<u8>
    decreases signers.len(),
{
    if signers.len() == 0 {
        Seq::<u8>::empty()
    } else {
        signers[0].0 + seq![spec_bool_byte(signers[0].1)] + signers_flat(signers.drop_first())
    }
}

/// Each signer identifier is 32 bytes long.
pub open spec fn signers_wf(signers: Seq<(Seq<u8>, bool)>) -> bool {
    forall|i: int| 0 <= i < signers.len() ==> (#[trigger] signers[i]).0.len() == 32
}

pub proof fn lemma_signers_flat_len(signers: Seq<(Seq<u8>, bool)>)
    requires
        signers_wf(signers),
    ensures
        signers_flat(signers).len() == 33 * signers.len(),
    decreases signers.len(),
{
    if signers.len() > 0 {
        assert(signers_wf(signers.drop_first()));
        lemma_signers_flat_len(signers.drop_first());
    }
}

pub proof fn lemma_signers_flat_index(signers: Seq<(Seq<u8>, bool)>, i: int)
    requires
        signers_wf(signers),
        0 <= i < signers.len(),
    ensures
        signers_flat(signers).subrange(33 * i, 33 * i + 32) == signers[i].0,
        signers_flat(signers)[33 * i + 32] == spec_bool_byte(signers[i].1),
    decreases i,
{
    lemma_signers_flat_len(signers);
    assert(signers_wf(signers.drop_first()));
    lemma_signers_flat_len(signers.drop_first());
    if i == 0 {
        assert(signers_flat(signers).subrange(0, 32) =~= signers[0].0);
    } else {
        lemma_signers_flat_index(signers.drop_first(), i - 1);
        assert(signers_flat(signers).subrange(33 * i, 33 * i + 32) =~= signers_flat(
            signers.drop_first(),
        ).subrange(33 * (i - 1), 33 * (i - 1) + 32));
    }
}

pub proof fn lemma_signers_flat_push(signers: Seq<(Seq<u8>, bool)>, k: Seq<u8>, approved: bool)
    ensures
        signers_flat(signers.push((k, approved))) == signers_flat(signers) + k + seq![
            spec_bool_byte(approved),
        ],
    decreases signers.len(),
{
    if signers.len() == 0 {
        assert(signers.push((k, approved)).drop_first() =~= Seq::<(Seq<u8>, bool)>::empty());
        assert(signers_flat(signers.push((k, approved)).drop_first()) == Seq::<u8>::empty());
        assert(signers_flat(signers.push((k, approved))) == signers.push((k, approved))[0].0
            + seq![spec_bool_byte(signers.push((k, approved))[0].1)] + signers_flat(
            signers.push((k, approved)).drop_first(),
        ));
        assert(signers_flat(signers.push((k, approved))) =~= signers_flat(signers) + k + seq![
            spec_bool_byte(approved),
        ]);
    } else {
        assert(signers.push((k, approved)).drop_first() =~= signers.drop_first().push(
            (k, approved),
        ));
        lemma_signers_flat_push(signers.drop_first(), k, approved);
        assert(signers_flat(signers.push((k, approved))) =~= signers_flat(signers) + k + seq![
            spec_bool_byte(approved),
        ]);
    }
}

} // verus!
