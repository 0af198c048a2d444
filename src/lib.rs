//! Self-certifying peer identities: an identity is a digest bound to an RSA
//! public key, and every such binding can be checked again by recomputing the
//! digest over the key's envelope.
pub mod der;
pub mod digest;
pub mod envelope;
pub mod error;
pub mod hostid;
pub mod key;
pub mod peerid;

pub use digest::{Digest, Validation};
pub use envelope::{Envelope, KeyType};
pub use key::{RSAPrivKey, RSAPubKey};
pub use peerid::PeerId;
pub use hostid::HostId;

pub use error::IdError;



