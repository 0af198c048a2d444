use vstd::prelude::*;

verus! {

/// The ways in which an operation of this library can fail.
#[derive(Clone, Copy, Debug, PartialEq, Eq, Structural)]
pub enum IdError {
    /// The envelope names a key type other than RSA.
    UnsupportedKeyType,
    /// The envelope bytes are not a well-formed record.
    MalformedEnvelope,
    /// The key bytes are not a well-formed key, or the crypto library refused them.
    MalformedKey,
    /// The key is well formed but the signature does not check out.
    VerificationFailed,
    /// The crypto library failed while signing.
    SigningFailed,
    /// The digest does not match the key material it is claimed for.
    BindingError,
    /// Verification was asked of an identity that holds no public key.
    NoPublicKey,
}

} // verus!
