//! Self-describing digests: an algorithm code together with the digest bytes.
use vstd::prelude::*;

verus! {

/// Multihash code of SHA2-256, the algorithm used to generate digests.
pub const SHA2_256: u64 = 0x12;

/// Name for the SHA-256 digest of a byte sequence.
pub uninterp spec fn sha256_of(data: Seq<u8>) -> Seq<u8>;

/// Relies on ring::digest::digest with ring::digest::SHA256: the result is the
/// SHA-256 digest of the input, which is 32 bytes long.
#[verifier::external_body]
fn sha256(data: &[u8]) -> (r: Vec<u8>)
    ensures
        r@ == sha256_of(data@),
        r@.len() == 32,
{
    ring::digest::digest(&ring::digest::SHA256, data).as_ref().to_vec()
}

/// Outcome of checking a digest against some bytes.
#[derive(Clone, Copy, Debug, PartialEq, Eq, Structural)]
pub enum Validation {
    /// The digest names an algorithm that cannot be computed here.
    Unsupported,
    /// The algorithm is known, but the digest of the bytes differs.
    Mismatch,
    /// The digest is the digest of the bytes.
    Match,
}

/// The algorithms that can be computed here.
pub open spec fn supported(code: u64) -> bool {
    code == SHA2_256
}

/// What checking a digest `(code, bytes)` against `data` yields.
pub open spec fn validation_of(d: (u64, Seq<u8>), data: Seq<u8>) -> Validation {
    if !supported(d.0) {
        Validation::Unsupported
    } else if d.1 == sha256_of(data) {
        Validation::Match
    } else {
        Validation::Mismatch
    }
}

/// The digest that `generate` computes over `data`.
pub open spec fn generated(data: Seq<u8>) -> (u64, Seq<u8>) {
    (SHA2_256, sha256_of(data))
}

/// A generated digest validates against the bytes it was computed over.
pub proof fn lemma_generated_validates(data: Seq<u8>)
    ensures
        validation_of(generated(data), data) == Validation::Match,
{
}

/// A digest tagged with the multihash code of the algorithm that produced it.
pub struct Digest {
    code: u64,
    bytes: Vec<u8>,
}

impl View for Digest {
    type V = (u64, Seq<u8>);

    closed spec fn view(&self) -> (u64, Seq<u8>) {
        (self.code, self.bytes@)
    }
}

impl Digest {
    /// A digest from its algorithm code and its bytes, taken as they are.
    pub fn new(code: u64, bytes: Vec<u8>) -> (r: Digest)
        ensures
            r@ == (code, bytes@),
    {
        Digest { code, bytes }
    }

    /// Computes the SHA2-256 digest of `data`.
    pub fn generate(data: &[u8]) -> (r: Digest)
        ensures
            r@ == generated(data@),
    {
        Digest { code: SHA2_256, bytes: sha256(data) }
    }

    /// Checks this digest against `data`.
    pub fn validate(&self, data: &[u8]) -> (r: Validation)
        ensures
            r == validation_of(self@, data@),
    {
        if self.code != SHA2_256 {
            return Validation::Unsupported;
        }
        let computed = sha256(data);
        if bytes_equal(computed.as_slice(), self.bytes.as_slice()) {
            Validation::Match
        } else {
            Validation::Mismatch
        }
    }

    /// The multihash code of the algorithm.
    pub fn code(&self) -> (r: u64)
        ensures
            r == self@.0,
    {
        self.code
    }

    /// The digest bytes.
    pub fn bytes(&self) -> (r: &[u8])
        ensures
            r@ == self@.1,
    {
        self.bytes.as_slice()
    }
}

/// Compares two byte slices element by element.
pub fn bytes_equal(a: &[u8], b: &[u8]) -> (r: bool)
    ensures
        r == (a@ == b@),
{
    if a.len() != b.len() {
        return false;
    }
    let mut i: usize = 0;
    while i < a.len()
        invariant
            a@.len() == b@.len(),
            i <= a@.len(),
            forall|k: int| 0 <= k < i ==> a@[k] == b@[k],
        decreases a@.len() - i,
    {
        if a[i] != b[i] {
            return false;
        }
        i = i + 1;
    }
    assert(a@ =~= b@);
    true
}

impl Clone for Digest {
    fn clone(&self) -> (r: Self)
        ensures
            r@ == self@,
    {
        Digest { code: self.code, bytes: self.bytes.clone() }
    }
}

impl PartialEq for Digest {
    fn eq(&self, other: &Digest) -> (r: bool) {
        self.code == other.code && bytes_equal(self.bytes.as_slice(), other.bytes.as_slice())
    }
}

impl vstd::std_specs::cmp::PartialEqSpecImpl for Digest {
    open spec fn obeys_eq_spec() -> bool {
        true
    }

    open spec fn eq_spec(&self, other: &Digest) -> bool {
        self@ == other@
    }
}

impl Eq for Digest {
}

} // verus!
