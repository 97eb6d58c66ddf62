//! Secrets, their hashes, and SHA-256.

use crate::bytes::bytes_eq;
use sha2::Digest;
use vstd::prelude::*;

verus! {

/// The SHA-256 digest of a byte string.
pub uninterp spec fn sha256(data: Seq<u8>) -> Seq<u8>;

/// Computes a digest with `sha2::Sha256::digest`. The contract names the
/// digest of the given bytes; nothing else is claimed of it.
#[verifier::external_body]
pub(crate) fn sha256_digest(data: &[u8]) -> (digest: [u8; 32])
    ensures
        digest@ == sha256(data@),
{
    sha2::Sha256::digest(data).into()
}

/// The hash under which the funds of a swap are locked.
#[derive(Clone, Copy, Debug, PartialEq, Eq, Hash)]
pub struct SecretHash(pub [u8; 32]);

/// The preimage that unlocks the funds of a swap.
#[derive(Clone, Copy, Debug, PartialEq, Eq, Hash)]
pub struct Secret(pub [u8; 32]);

impl View for SecretHash {
    type V = Seq<u8>;

    open spec fn view(&self) -> Seq<u8> {
        self.0@
    }
}

impl View for Secret {
    type V = Seq<u8>;

    open spec fn view(&self) -> Seq<u8> {
        self.0@
    }
}

impl SecretHash {
    /// Wraps 32 raw bytes.
    pub fn from_bytes(bytes: [u8; 32]) -> (r: Self)
        ensures
            r.0 == bytes,
    {
        SecretHash(bytes)
    }

    /// The raw bytes of the hash.
    pub fn as_raw(&self) -> (r: &[u8; 32])
        ensures
            *r == self.0,
    {
        &self.0
    }

    /// Whether two hashes are the same.
    pub fn same(&self, other: &SecretHash) -> (r: bool)
        ensures
            r == (*self == *other),
            r == (self@ == other@),
    {
        let r = bytes_eq(&self.0, &other.0);
        proof {
            if r {
                assert(self.0 =~= other.0);
            }
        }
        r
    }
}

impl Secret {
    /// Wraps 32 raw bytes.
    pub fn from_bytes(bytes: [u8; 32]) -> (r: Self)
        ensures
            r.0 == bytes,
    {
        Secret(bytes)
    }

    /// The raw bytes of the secret.
    pub fn as_raw_secret(&self) -> (r: &[u8; 32])
        ensures
            *r == self.0,
    {
        &self.0
    }

    /// Reads a secret from a byte string, which must be exactly 32 bytes long.
    pub fn from_slice(bytes: &[u8]) -> (r: Option<Secret>)
        ensures
            r is Some <==> bytes@.len() == 32,
            r matches Some(s) ==> s@ == bytes@,
    {
        if bytes.len() != 32 {
            return None;
        }
        let mut raw = [0u8; 32];
        let mut i: usize = 0;
        while i < 32
            invariant
                bytes@.len() == 32,
                i <= 32,
                forall|j: int| 0 <= j < i ==> raw@[j] == bytes@[j],
            decreases 32 - i,
        {
            raw[i] = bytes[i];
            i += 1;
        }
        assert(raw@ =~= bytes@);
        Some(Secret(raw))
    }

    /// The SHA-256 hash of the secret.
    pub fn hash(&self) -> (r: SecretHash)
        ensures
            r@ == sha256(self@),
    {
        SecretHash(sha256_digest(&self.0))
    }

    /// Whether this secret is the preimage of `hash`.
    pub fn opens(&self, hash: &SecretHash) -> (r: bool)
        ensures
            r == (sha256(self@) == hash@),
    {
        let own = self.hash();
        own.same(hash)
    }

    /// Whether two secrets are the same.
    pub fn same(&self, other: &Secret) -> (r: bool)
        ensures
            r == (*self == *other),
    {
        let r = bytes_eq(&self.0, &other.0);
        proof {
            if r {
                assert(self.0 =~= other.0);
            }
        }
        r
    }
}

} // verus!
