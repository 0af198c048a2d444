//! A peer's identity as it is known: nothing, a bare digest, or a digest
//! proven to be bound to a public key.
use vstd::prelude::*;
use crate::digest::{generated, lemma_generated_validates, validation_of, Digest, Validation};
use crate::envelope::{decoded, envelope_bytes};
use crate::error::IdError;
use crate::key::{verify_outcome, RSAPubKey};

verus! {

/// Whether `digest` is bound to the public key with DER bytes `key`: it
/// validates against the key's RSA envelope.
pub open spec fn bound(digest: (u64, Seq<u8>), key: Seq<u8>) -> bool {
    validation_of(digest, envelope_bytes(key)) == Validation::Match
}

/// A remote identity. `Proven` is made only where its digest is bound to its key.
pub enum PeerId {
    Unknown,
    Candidate { hash: Digest },
    Proven { hash: Digest, key: RSAPubKey },
}

impl Clone for PeerId {
    fn clone(&self) -> (r: Self)
        ensures
            r.digest_view() == self.digest_view(),
            r.key_view() == self.key_view(),
            r is Unknown == self is Unknown,
            r is Candidate == self is Candidate,
            r is Proven == self is Proven,
    {
        match self {
            PeerId::Unknown => PeerId::Unknown,
            PeerId::Candidate { hash } => PeerId::Candidate { hash: hash.clone() },
            PeerId::Proven { hash, key } => PeerId::Proven { hash: hash.clone(), key: key.clone() },
        }
    }
}

impl PeerId {
    /// The digest, where there is one.
    pub open spec fn digest_view(&self) -> Option<(u64, Seq<u8>)> {
        match self {
            PeerId::Unknown => None,
            PeerId::Candidate { hash } => Some(hash@),
            PeerId::Proven { hash, .. } => Some(hash@),
        }
    }

    /// The public key's bytes, where there is a key.
    pub open spec fn key_view(&self) -> Option<Seq<u8>> {
        match self {
            PeerId::Proven { key, .. } => Some(key@),
            _ => None,
        }
    }

    /// A proven identity's digest is bound to its key.
    pub open spec fn wf(&self) -> bool {
        match self {
            PeerId::Proven { hash, key } => bound(hash@, key@),
            _ => true,
        }
    }

    /// Whether two identities both have a digest, and the same one.
    pub open spec fn matches_spec(&self, other: &PeerId) -> bool {
        self.digest_view() is Some && self.digest_view() == other.digest_view()
    }

    /// What verifying `sig` over `msg` against this identity yields.
    pub open spec fn verify_spec(&self, msg: Seq<u8>, sig: Seq<u8>) -> Result<(), IdError> {
        match self {
            PeerId::Proven { key, .. } => verify_outcome(key@, msg, sig),
            _ => Err(IdError::NoPublicKey),
        }
    }

    /// A proven identity, where `hash` is bound to `key`.
    pub fn new(hash: Digest, key: RSAPubKey) -> (r: Result<PeerId, IdError>)
        ensures
            r is Ok == bound(hash@, key@),
            r matches Ok(p) ==> p is Proven && p.digest_view() == Some(hash@) && p.key_view() == Some(key@)
                && p.wf(),
            r matches Err(e) ==> e == IdError::BindingError,
    {
        let key_bytes = match key.to_protobuf() {
            Ok(b) => b,
            Err(_) => return Err(IdError::BindingError),
        };
        match hash.validate(key_bytes.as_slice()) {
            Validation::Match => Ok(PeerId::Proven { hash, key }),
            _ => Err(IdError::BindingError),
        }
    }

    /// The proven identity of the public key in an RSA envelope, with its
    /// digest computed from the envelope.
    pub fn from_protobuf(bytes: &[u8]) -> (r: Result<PeerId, IdError>)
        ensures
            match r {
                Ok(p) => decoded(bytes@) matches Ok(k) && p is Proven && p.key_view() == Some(k)
                    && p.digest_view() == Some(generated(envelope_bytes(k))) && p.wf(),
                Err(e) => decoded(bytes@) == Err::<Seq<u8>, IdError>(e),
            },
    {
        match RSAPubKey::from_protobuf(bytes) {
            Ok(key) => PeerId::from_key(key),
            Err(e) => Err(e),
        }
    }

    /// The proven identity of `key`, with its digest computed from the key's
    /// envelope. It does not fail.
    pub fn from_key(key: RSAPubKey) -> (r: Result<PeerId, IdError>)
        ensures
            r matches Ok(p) && p is Proven && p.key_view() == Some(key@)
                && p.digest_view() == Some(generated(envelope_bytes(key@))) && p.wf(),
    {
        let key_bytes = match key.to_protobuf() {
            Ok(b) => b,
            Err(e) => return Err(e),
        };
        let hash = Digest::generate(key_bytes.as_slice());
        proof {
            lemma_generated_validates(key_bytes@);
        }
        Ok(PeerId::Proven { hash, key })
    }

    /// A candidate identity: a digest with no key.
    pub fn from_hash(hash: Digest) -> (r: PeerId)
        ensures
            r is Candidate,
            r.digest_view() == Some(hash@),
            r.wf(),
    {
        PeerId::Candidate { hash }
    }

    /// The digest, where there is one.
    pub fn hash(&self) -> (r: Option<&Digest>)
        ensures
            match r {
                None => self.digest_view() is None,
                Some(h) => self.digest_view() == Some(h@),
            },
    {
        match self {
            PeerId::Unknown => None,
            PeerId::Proven { hash, .. } => Some(hash),
            PeerId::Candidate { hash } => Some(hash),
        }
    }

    /// Whether the identity is proven.
    pub fn proven(&self) -> (r: bool)
        ensures
            r == self is Proven,
    {
        match self {
            PeerId::Proven { .. } => true,
            _ => false,
        }
    }

    /// Whether both identities have a digest and the digests are equal.
    pub fn matches(&self, other: &PeerId) -> (r: bool)
        ensures
            r == self.matches_spec(other),
    {
        match (self.hash(), other.hash()) {
            (Some(a), Some(b)) => a.eq(b),
            _ => false,
        }
    }

    /// Verifies a signature with the identity's public key; an identity with
    /// no key gives `NoPublicKey`.
    pub fn verify(&self, msg: &[u8], sig: &[u8]) -> (r: Result<(), IdError>)
        ensures
            r == self.verify_spec(msg@, sig@),
    {
        match self {
            PeerId::Proven { key, .. } => key.verify(msg, sig),
            _ => Err(IdError::NoPublicKey),
        }
    }
}

/// An unknown identity matches nothing, not even another unknown one.
pub proof fn lemma_unknown_matches_nothing(other: PeerId)
    ensures
        !PeerId::Unknown.matches_spec(&other),
        !other.matches_spec(&PeerId::Unknown),
{
}

/// A candidate matches a proven identity with the same digest.
pub proof fn lemma_candidate_matches_proven(candidate: PeerId, proven: PeerId)
    requires
        candidate is Candidate,
        proven is Proven,
        candidate.digest_view() == proven.digest_view(),
    ensures
        candidate.matches_spec(&proven),
        proven.matches_spec(&candidate),
{
}

/// Identities with different digests never match.
pub proof fn lemma_different_digests_never_match(a: PeerId, b: PeerId)
    requires
        a.digest_view() != b.digest_view(),
    ensures
        !a.matches_spec(&b),
{
}

/// A digest generated over bytes other than the key's envelope is not bound to
/// the key, as long as the two SHA-256 digests differ.
pub proof fn lemma_digest_of_other_bytes_not_bound(other: Seq<u8>, key: Seq<u8>)
    requires
        other != envelope_bytes(key),
        crate::digest::sha256_of(other) != crate::digest::sha256_of(envelope_bytes(key)),
    ensures
        !bound(generated(other), key),
{
}

} // verus!
