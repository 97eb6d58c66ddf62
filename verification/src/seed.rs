//! Seeds, and what is derived from them.

use crate::ids::SwapId;
use crate::secret::{sha256, sha256_digest, Secret};
use vstd::prelude::*;

verus! {

/// The number of bytes in a seed.
pub const SEED_LENGTH: usize = 32;

/// The root secret of a node, from which each swap's seed is derived.
#[derive(Clone, Copy, Debug, PartialEq, Eq)]
pub struct Seed(pub [u8; 32]);

/// The seed of one swap, from which its secret and keys are derived.
#[derive(Clone, Copy, Debug, PartialEq, Eq)]
pub struct SwapSeed(pub [u8; 32]);

impl View for Seed {
    type V = Seq<u8>;

    open spec fn view(&self) -> Seq<u8> {
        self.0@
    }
}

impl View for SwapSeed {
    type V = Seq<u8>;

    open spec fn view(&self) -> Seq<u8> {
        self.0@
    }
}

/// The bytes of the word `SWAP`.
pub open spec fn swap_tag() -> Seq<u8> {
    seq![0x53u8, 0x57u8, 0x41u8, 0x50u8]
}

/// The bytes of the word `SECRET`.
pub open spec fn secret_tag() -> Seq<u8> {
    seq![0x53u8, 0x45u8, 0x43u8, 0x52u8, 0x45u8, 0x54u8]
}

/// The bytes of the word `REDEEM`.
pub open spec fn redeem_tag() -> Seq<u8> {
    seq![0x52u8, 0x45u8, 0x44u8, 0x45u8, 0x45u8, 0x4du8]
}

/// The bytes of the word `REFUND`.
pub open spec fn refund_tag() -> Seq<u8> {
    seq![0x52u8, 0x45u8, 0x46u8, 0x55u8, 0x4eu8, 0x44u8]
}

/// The digest of a seed followed by the given parts, in order.
pub open spec fn seeded_digest(seed: Seq<u8>, parts: Seq<u8>) -> Seq<u8> {
    sha256(seed + parts)
}

/// Hashes `seed` followed by `first` and then `second`.
fn digest_with_seed(seed: &[u8; 32], first: &[u8], second: &[u8]) -> (r: [u8; 32])
    ensures
        r@ == seeded_digest(seed@, first@ + second@),
{
    let mut data: Vec<u8> = Vec::new();
    let mut i: usize = 0;
    while i < 32
        invariant
            i <= 32,
            data@ == seed@.subrange(0, i as int),
        decreases 32 - i,
    {
        data.push(seed[i]);
        assert(data@ =~= seed@.subrange(0, i + 1));
        i += 1;
    }
    assert(data@ =~= seed@);
    let mut j: usize = 0;
    while j < first.len()
        invariant
            j <= first@.len(),
            data@ == seed@ + first@.subrange(0, j as int),
        decreases first@.len() - j,
    {
        data.push(first[j]);
        assert(data@ =~= seed@ + first@.subrange(0, j + 1));
        j += 1;
    }
    assert(first@.subrange(0, first@.len() as int) =~= first@);
    let mut k: usize = 0;
    while k < second.len()
        invariant
            k <= second@.len(),
            data@ == seed@ + first@ + second@.subrange(0, k as int),
        decreases second@.len() - k,
    {
        data.push(second[k]);
        assert(data@ =~= seed@ + first@ + second@.subrange(0, k + 1));
        k += 1;
    }
    assert(data@ =~= seed@ + (first@ + second@));
    sha256_digest(data.as_slice())
}

impl Seed {
    /// The seed of swap `id`: the digest of this seed, the word `SWAP` and the
    /// id's bytes.
    pub fn derive_swap_seed(&self, id: SwapId) -> (r: SwapSeed)
        ensures
            r@ == seeded_digest(self@, swap_tag() + id@),
    {
        let tag: [u8; 4] = [0x53, 0x57, 0x41, 0x50];
        assert(tag@ =~= swap_tag());
        SwapSeed(digest_with_seed(&self.0, &tag, &id.0))
    }
}

impl SwapSeed {
    /// The secret that this seed stands for, in specifications.
    pub open spec fn spec_secret(self) -> Seq<u8> {
        seeded_digest(self@, secret_tag())
    }

    /// The secret of the swap: the digest of this seed and the word `SECRET`.
    pub fn derive_secret(&self) -> (r: Secret)
        ensures
            r@ == self.spec_secret(),
    {
        let tag: [u8; 6] = [0x53, 0x45, 0x43, 0x52, 0x45, 0x54];
        let none: [u8; 0] = [];
        assert(tag@ + none@ =~= secret_tag());
        Secret(digest_with_seed(&self.0, &tag, &none))
    }

    /// The key material with which this node redeems: the digest of this seed
    /// and the word `REDEEM`.
    pub fn derive_redeem_identity(&self) -> (r: [u8; 32])
        ensures
            r@ == seeded_digest(self@, redeem_tag()),
    {
        let tag: [u8; 6] = [0x52, 0x45, 0x44, 0x45, 0x45, 0x4d];
        let none: [u8; 0] = [];
        assert(tag@ + none@ =~= redeem_tag());
        digest_with_seed(&self.0, &tag, &none)
    }

    /// The key material with which this node takes its refund: the digest of
    /// this seed and the word `REFUND`.
    pub fn derive_refund_identity(&self) -> (r: [u8; 32])
        ensures
            r@ == seeded_digest(self@, refund_tag()),
    {
        let tag: [u8; 6] = [0x52, 0x45, 0x46, 0x55, 0x4e, 0x44];
        let none: [u8; 0] = [];
        assert(tag@ + none@ =~= refund_tag());
        digest_with_seed(&self.0, &tag, &none)
    }
}

} // verus!
