//! RSA keys: a public key kept as the DER bytes of its SubjectPublicKeyInfo,
//! and a private key loaded by ring together with its public key.
use std::sync::Arc;
use vstd::prelude::*;
use crate::der::{lemma_prefix_rejected, parse_public_key, parse_spki};
use crate::envelope::{decoded, envelope_bytes, Envelope};
use crate::error::IdError;

verus! {

/// ring's error::Unspecified, the error of a failed verification or signing.
#[verifier::external_type_specification]
#[verifier::external_body]
pub struct ExUnspecified(ring::error::Unspecified);

/// ring's error::KeyRejected, the error of a private key that does not load.
#[verifier::external_type_specification]
#[verifier::external_body]
pub struct ExKeyRejected(ring::error::KeyRejected);

/// ring's RsaKeyPair, a loaded RSA private key; opaque here.
#[verifier::external_type_specification]
#[verifier::external_body]
pub struct ExRsaKeyPair(ring::rsa::KeyPair);

/// Name for whether `sig` is a valid RSASSA-PKCS1-v1.5 SHA-256 signature of
/// `msg` under the public key with modulus `n` and exponent `e`, for a modulus
/// of 2048 to 8192 bits.
pub uninterp spec fn pkcs1_sha256_valid(n: Seq<u8>, e: Seq<u8>, msg: Seq<u8>, sig: Seq<u8>) -> bool;

/// Name for whether ring accepts `der` as a DER-encoded RSAPrivateKey.
pub uninterp spec fn private_der_loads(der: Seq<u8>) -> bool;

/// Name for the RSASSA-PKCS1-v1.5 SHA-256 signature of `msg` made with the
/// RSAPrivateKey `priv_der`, or none where ring does not sign.
pub uninterp spec fn pkcs1_sha256_signature(priv_der: Seq<u8>, msg: Seq<u8>) -> Option<Seq<u8>>;

/// Name for the length in bytes of the public modulus of the RSAPrivateKey
/// `priv_der`.
pub uninterp spec fn public_modulus_len(priv_der: Seq<u8>) -> nat;

/// Relies on ring's RsaPublicKeyComponents::verify with
/// RSA_PKCS1_2048_8192_SHA256: it succeeds exactly when the signature is valid
/// for the message under the key (n, e).
#[verifier::external_body]
fn verify_pkcs1_sha256(n: &[u8], e: &[u8], msg: &[u8], sig: &[u8]) -> (r: Result<
    (),
    ring::error::Unspecified,
>)
    ensures
        r is Ok == pkcs1_sha256_valid(n@, e@, msg@, sig@),
{
    let key = ring::signature::RsaPublicKeyComponents { n, e };
    key.verify(&ring::signature::RSA_PKCS1_2048_8192_SHA256, msg, sig)
}

/// Relies on ring's RsaKeyPair::from_der: it loads an RSAPrivateKey, or
/// rejects it, depending on the bytes alone.
#[verifier::external_body]
fn load_key_pair(der: &[u8]) -> (r: Result<ring::rsa::KeyPair, ring::error::KeyRejected>)
    ensures
        r is Ok == private_der_loads(der@),
{
    ring::rsa::KeyPair::from_der(der)
}

/// Relies on Arc::clone: the clone points to the same key pair.
#[verifier::external_body]
fn share_key_pair(key: &Arc<ring::rsa::KeyPair>) -> (r: Arc<ring::rsa::KeyPair>)
    ensures
        r == *key,
{
    Arc::clone(key)
}

/// What verifying `sig` over `msg` with the public key `key` yields.
pub open spec fn verify_outcome(key: Seq<u8>, msg: Seq<u8>, sig: Seq<u8>) -> Result<(), IdError> {
    match parse_spki(key) {
        None => Err(IdError::MalformedKey),
        Some((n, e)) => if pkcs1_sha256_valid(n, e, msg, sig) {
            Ok(())
        } else {
            Err(IdError::VerificationFailed)
        },
    }
}

/// An RSA public key, held as the DER bytes of its SubjectPublicKeyInfo.
/// The bytes are checked when a signature is verified, not before.
pub struct RSAPubKey {
    bytes: Vec<u8>,
}

impl View for RSAPubKey {
    type V = Seq<u8>;

    closed spec fn view(&self) -> Seq<u8> {
        self.bytes@
    }
}

impl Clone for RSAPubKey {
    fn clone(&self) -> (r: Self)
        ensures
            r@ == self@,
    {
        RSAPubKey { bytes: self.bytes.clone() }
    }
}

impl RSAPubKey {
    /// Reads a public key from an RSA envelope; the data is kept as it is.
    pub fn from_protobuf(bytes: &[u8]) -> (r: Result<RSAPubKey, IdError>)
        ensures
            match r {
                Ok(key) => decoded(bytes@) == Ok::<Seq<u8>, IdError>(key@),
                Err(e) => decoded(bytes@) == Err::<Seq<u8>, IdError>(e),
            },
    {
        match Envelope::decode(bytes) {
            Ok(env) => Ok(RSAPubKey { bytes: env.data }),
            Err(e) => Err(e),
        }
    }

    /// The RSA envelope around the key's bytes. Encoding does not fail.
    pub fn to_protobuf(&self) -> (r: Result<Vec<u8>, IdError>)
        ensures
            r matches Ok(b) && b@ == envelope_bytes(self@),
    {
        let env = Envelope::rsa(self.bytes.clone());
        Ok(env.encode())
    }

    /// The DER bytes of the key.
    pub fn as_bytes(&self) -> (r: &[u8])
        ensures
            r@ == self@,
    {
        self.bytes.as_slice()
    }

    /// Verifies an RSASSA-PKCS1-v1.5 SHA-256 signature of `msg`. A key whose
    /// bytes are not an RSA SubjectPublicKeyInfo gives `MalformedKey`; a
    /// signature that does not check out gives `VerificationFailed`.
    pub fn verify(&self, msg: &[u8], sig: &[u8]) -> (r: Result<(), IdError>)
        ensures
            r == verify_outcome(self@, msg@, sig@),
    {
        let bytes = self.bytes.as_slice();
        let ((n0, n1), (e0, e1)) = match parse_public_key(bytes) {
            None => return Err(IdError::MalformedKey),
            Some(w) => w,
        };
        let n = vstd::slice::slice_subrange(bytes, n0, n1);
        let e = vstd::slice::slice_subrange(bytes, e0, e1);
        match verify_pkcs1_sha256(n, e, msg, sig) {
            Ok(()) => Ok(()),
            Err(_) => Err(IdError::VerificationFailed),
        }
    }
}

/// Once a signature has been accepted, no other signature over the same
/// message with the same key is refused as a malformed key: the key's
/// well-formedness does not depend on the signature.
pub proof fn lemma_other_signature_not_key_error(key: Seq<u8>, msg: Seq<u8>, sig: Seq<u8>, other: Seq<u8>)
    requires
        verify_outcome(key, msg, sig) is Ok,
    ensures
        verify_outcome(key, msg, other) == Ok::<(), IdError>(())
            || verify_outcome(key, msg, other) == Err::<(), IdError>(IdError::VerificationFailed),
{
}

/// Verifying with a key cut short, from a well-formed one, gives
/// `MalformedKey`, whatever the message and signature.
pub proof fn lemma_truncated_key_malformed(key: Seq<u8>, k: int, msg: Seq<u8>, sig: Seq<u8>)
    requires
        parse_spki(key) is Some,
        0 <= k < key.len(),
    ensures
        verify_outcome(key.subrange(0, k), msg, sig) == Err::<(), IdError>(IdError::MalformedKey),
{
    lemma_prefix_rejected(key, k);
}

/// An RSA private key loaded by ring, with the public key that was supplied
/// with it. The pair is not cross-checked.
pub struct RSAPrivKey {
    key: Arc<ring::rsa::KeyPair>,
    bytes: Vec<u8>,
    pub_key: RSAPubKey,
}

impl View for RSAPrivKey {
    /// The private key's DER bytes and the public key's DER bytes.
    type V = (Seq<u8>, Seq<u8>);

    closed spec fn view(&self) -> (Seq<u8>, Seq<u8>) {
        (self.bytes@, self.pub_key@)
    }
}

impl RSAPrivKey {
    /// The private key's bytes are ones that ring loads: every key pair was
    /// loaded from them.
    #[verifier::type_invariant]
    spec fn inv(&self) -> bool {
        private_der_loads(self.bytes@)
    }

    /// Whether the private key's bytes are ones that ring loads. This holds
    /// of every private key.
    pub open spec fn wf(&self) -> bool {
        private_der_loads(self@.0)
    }

    /// Loads a DER-encoded RSAPrivateKey and keeps `pub_bytes` as its public
    /// key, as they are.
    pub fn from_der(priv_bytes: Vec<u8>, pub_bytes: Vec<u8>) -> (r: Result<RSAPrivKey, IdError>)
        ensures
            r is Ok == private_der_loads(priv_bytes@),
            r matches Ok(k) ==> k@ == (priv_bytes@, pub_bytes@) && k.wf(),
            r matches Err(e) ==> e == IdError::MalformedKey,
    {
        match load_key_pair(priv_bytes.as_slice()) {
            Ok(key) => Ok(
                RSAPrivKey { key: Arc::new(key), bytes: priv_bytes, pub_key: RSAPubKey { bytes: pub_bytes } },
            ),
            Err(_) => Err(IdError::MalformedKey),
        }
    }

    /// The public key supplied with the private key.
    pub fn pub_key(&self) -> (r: &RSAPubKey)
        ensures
            r@ == self@.1,
            self.wf(),
    {
        proof {
            use_type_invariant(self);
        }
        &self.pub_key
    }

    /// The length of the private key's DER bytes.
    pub fn der_len(&self) -> (r: usize)
        ensures
            r == self@.0.len(),
    {
        self.bytes.len()
    }

    /// Signs `msg` with RSASSA-PKCS1-v1.5 and SHA-256. The signature has the
    /// length of the public modulus. Fails with `SigningFailed` only where the
    /// crypto library does not sign.
    pub fn sign(&self, msg: &[u8]) -> (r: Result<Vec<u8>, IdError>)
        ensures
            match r {
                Ok(s) => pkcs1_sha256_signature(self@.0, msg@) == Some(s@) && s@.len()
                    == public_modulus_len(self@.0),
                Err(e) => e == IdError::SigningFailed && pkcs1_sha256_signature(self@.0, msg@) is None,
            },
    {
        let len = modulus_len(self);
        let mut sig: Vec<u8> = Vec::with_capacity(len);
        let mut i: usize = 0;
        while i < len
            invariant
                i <= len,
                sig@.len() == i,
            decreases len - i,
        {
            sig.push(0u8);
            i = i + 1;
        }
        match sign_pkcs1_sha256(self, msg, &mut sig) {
            Ok(()) => Ok(sig),
            Err(_) => Err(IdError::SigningFailed),
        }
    }
}

/// Relies on ring's RsaKeyPair::public and PublicKey::modulus_len: the length
/// in bytes of the public modulus of the key pair, which was loaded from the
/// private key's bytes.
#[verifier::external_body]
fn modulus_len(key: &RSAPrivKey) -> (r: usize)
    ensures
        r == public_modulus_len(key@.0),
{
    key.key.public().modulus_len()
}

/// Relies on ring's RsaKeyPair::sign with RSA_PKCS1_SHA256 and a
/// SystemRandom: into a buffer of the modulus length it writes the signature,
/// which PKCS#1 v1.5 padding makes a function of the key and the message alone
/// (the random source is not used). The buffer keeps its length.
#[verifier::external_body]
fn sign_pkcs1_sha256(key: &RSAPrivKey, msg: &[u8], sig: &mut Vec<u8>) -> (r: Result<
    (),
    ring::error::Unspecified,
>)
    requires
        old(sig)@.len() == public_modulus_len(key@.0),
    ensures
        final(sig)@.len() == old(sig)@.len(),
        r is Ok == pkcs1_sha256_signature(key@.0, msg@) is Some,
        r is Ok ==> pkcs1_sha256_signature(key@.0, msg@) == Some(final(sig)@),
{
    let rng = ring::rand::SystemRandom::new();
    key.key.sign(&ring::signature::RSA_PKCS1_SHA256, &rng, msg, sig.as_mut_slice())
}

impl Clone for RSAPrivKey {
    /// Shares the loaded key pair; nothing is parsed again.
    fn clone(&self) -> (r: Self)
        ensures
            r@ == self@,
    {
        proof {
            use_type_invariant(self);
        }
        RSAPrivKey { key: share_key_pair(&self.key), bytes: self.bytes.clone(), pub_key: self.pub_key.clone() }
    }
}

} // verus!
