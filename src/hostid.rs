//! The local node's identity: a digest bound to the public key of a private
//! key that this node holds.
use vstd::prelude::*;
use crate::digest::{generated, Digest, Validation};
use crate::envelope::envelope_bytes;
use crate::error::IdError;
use crate::key::{pkcs1_sha256_signature, private_der_loads, public_modulus_len, RSAPrivKey, RSAPubKey};
use crate::peerid::{bound, PeerId};

verus! {

/// The local identity. Its digest is bound to its key's public key.
pub struct HostId {
    hash: Digest,
    key: RSAPrivKey,
}

impl View for HostId {
    /// The digest, and the private and public key bytes.
    type V = ((u64, Seq<u8>), (Seq<u8>, Seq<u8>));

    closed spec fn view(&self) -> ((u64, Seq<u8>), (Seq<u8>, Seq<u8>)) {
        (self.hash@, self.key@)
    }
}

impl Clone for HostId {
    fn clone(&self) -> (r: Self)
        ensures
            r@ == self@,
    {
        proof {
            use_type_invariant(self);
        }
        HostId { hash: self.hash.clone(), key: self.key.clone() }
    }
}

impl HostId {
    /// The digest is bound to the public key, and the private key is one that
    /// ring loads.
    #[verifier::type_invariant]
    spec fn inv(&self) -> bool {
        bound(self.hash@, self.key@.1) && private_der_loads(self.key@.0)
    }

    /// Whether the digest is bound to the public key and the private key is
    /// one that ring loads. This holds of every local identity.
    pub open spec fn wf(&self) -> bool {
        bound(self@.0, self@.1.1) && private_der_loads(self@.1.0)
    }

    /// The identity of `key`, where `hash` is bound to its public key.
    pub fn new(hash: Digest, key: RSAPrivKey) -> (r: Result<HostId, IdError>)
        ensures
            r is Ok == bound(hash@, key@.1),
            r matches Ok(h) ==> h@ == (hash@, key@) && h.wf(),
            r matches Err(e) ==> e == IdError::BindingError,
    {
        let key_bytes = match key.pub_key().to_protobuf() {
            Ok(b) => b,
            Err(_) => return Err(IdError::BindingError),
        };
        match hash.validate(key_bytes.as_slice()) {
            Validation::Match => Ok(HostId { hash, key }),
            _ => Err(IdError::BindingError),
        }
    }

    /// Loads the key pair and computes the digest of its public key's envelope.
    /// It succeeds exactly when ring loads the private key; the digest is then
    /// bound to the public key.
    pub fn from_der(priv_bytes: Vec<u8>, pub_bytes: Vec<u8>) -> (r: Result<HostId, IdError>)
        ensures
            r is Ok == private_der_loads(priv_bytes@),
            r matches Ok(h) ==> h.wf() && h@ == (generated(envelope_bytes(pub_bytes@)), (
                priv_bytes@,
                pub_bytes@,
            )) && bound(h@.0, h@.1.1),
            r matches Err(e) ==> e == IdError::MalformedKey,
    {
        let key = match RSAPrivKey::from_der(priv_bytes, pub_bytes) {
            Ok(k) => k,
            Err(e) => return Err(e),
        };
        let key_bytes = match key.pub_key().to_protobuf() {
            Ok(b) => b,
            Err(e) => return Err(e),
        };
        let hash = Digest::generate(key_bytes.as_slice());
        Ok(HostId { hash, key })
    }

    /// Signs `msg` with the private key.
    pub fn sign(&self, msg: &[u8]) -> (r: Result<Vec<u8>, IdError>)
        ensures
            match r {
                Ok(s) => pkcs1_sha256_signature(self@.1.0, msg@) == Some(s@) && s@.len()
                    == public_modulus_len(self@.1.0),
                Err(e) => e == IdError::SigningFailed && pkcs1_sha256_signature(self@.1.0, msg@) is None,
            },
    {
        self.key.sign(msg)
    }

    /// The private key.
    pub fn priv_key(&self) -> (r: &RSAPrivKey)
        ensures
            r@ == self@.1,
    {
        &self.key
    }

    /// The public key.
    pub fn pub_key(&self) -> (r: &RSAPubKey)
        ensures
            r@ == self@.1.1,
            self.wf(),
    {
        proof {
            use_type_invariant(self);
        }
        self.key.pub_key()
    }

    /// The digest.
    pub fn hash(&self) -> (r: &Digest)
        ensures
            r@ == self@.0,
            self.wf(),
    {
        proof {
            use_type_invariant(self);
        }
        &self.hash
    }

    /// The proven remote identity that presents this node to its peers.
    pub fn to_peerid(&self) -> (r: PeerId)
        ensures
            r is Proven,
            r.wf(),
            r.digest_view() == Some(self@.0),
            r.key_view() == Some(self@.1.1),
    {
        proof {
            use_type_invariant(self);
        }
        PeerId::Proven { hash: self.hash.clone(), key: self.pub_key().clone() }
    }
}

} // verus!
