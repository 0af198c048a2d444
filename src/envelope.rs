//! The key envelope: a two-field protobuf record `{ key_type = 1, data = 2 }`
//! that tags raw key bytes with the kind of key they hold.
use vstd::prelude::*;
use crate::error::IdError;

verus! {

/// Largest value of a `u32`, the bound on a field key.
pub const KEY_MAX: u64 = 0xffff_ffff;

/// Field key of `data`: field 2, length-delimited.
pub const DATA_KEY: u64 = 18;

/// The LEB128 form of `v`: seven bits a byte, low bits first, the high bit set
/// on every byte but the last.
pub open spec fn varint_bytes(v: u64) -> Seq<u8>
    decreases v,
{
    if v < 128 {
        seq![v as u8]
    } else {
        seq![((v % 128) + 128) as u8] + varint_bytes(v / 128)
    }
}

/// Relies on prost::encoding::encode_varint: appends the LEB128 form of `v`
/// to the buffer.
#[verifier::external_body]
fn put_varint(v: u64, buf: &mut Vec<u8>)
    ensures
        final(buf)@ == old(buf)@ + varint_bytes(v),
{
    prost::encoding::encode_varint(v, buf)
}

/// The value of the LEB128 integer at `i`, read from at most `n` bytes, and the
/// position after it; none if the bytes run out or the value exceeds a `u64`.
pub open spec fn varint_at(s: Seq<u8>, i: int, n: nat) -> Option<(int, int)>
    decreases n,
{
    if n == 0 || i < 0 || i >= s.len() {
        None
    } else if s[i] < 128 {
        Some((s[i] as int, i + 1))
    } else {
        match varint_at(s, i + 1, (n - 1) as nat) {
            None => None,
            Some((v, j)) => {
                let w = (s[i] - 128) + 128 * v;
                if w > u64::MAX {
                    None
                } else {
                    Some((w, j))
                }
            },
        }
    }
}

/// The LEB128 integer at `i`, at most ten bytes long.
pub open spec fn varint(s: Seq<u8>, i: int) -> Option<(int, int)> {
    varint_at(s, i, 10)
}

/// Where the value of a skipped field of wire type `wt` that starts at `j`
/// ends: a varint, eight bytes, a length-delimited value or four bytes.
pub open spec fn skip_value(s: Seq<u8>, j: int, wt: int) -> Option<int> {
    if wt == 0 {
        match varint(s, j) {
            None => None,
            Some((_, k)) => Some(k),
        }
    } else if wt == 1 {
        if j + 8 <= s.len() { Some(j + 8) } else { None }
    } else if wt == 2 {
        match varint(s, j) {
            None => None,
            Some((len, k)) => if len <= s.len() - k { Some(k + len) } else { None },
        }
    } else if wt == 5 {
        if j + 4 <= s.len() { Some(j + 4) } else { None }
    } else {
        None
    }
}

/// How deeply groups may nest: a field inside this many open groups is refused.
pub const GROUP_LIMIT: usize = 100;

/// The key type and data held by the fields from `i` on, given the values
/// `kt` and `data` read before `i` and the tags of the groups open at `i`.
/// A later field replaces an earlier one of the same number. Fields other
/// than 1 and 2, and every field inside a group, are skipped; a group ends at
/// an end-group key with its own tag.
pub open spec fn fields(s: Seq<u8>, i: int, groups: Seq<u64>, kt: u64, data: Seq<u8>) -> Option<
    (u64, Seq<u8>),
>
    decreases s.len() - i,
    via fields_decreases
{
    if i < 0 {
        None
    } else if i >= s.len() {
        if groups.len() == 0 { Some((kt, data)) } else { None }
    } else {
        match varint(s, i) {
            None => None,
            Some((key, j)) => {
                let tag = key / 8;
                let wt = key % 8;
                if key > KEY_MAX || tag == 0 || wt > 5 {
                    None
                } else if wt == 4 {
                    if groups.len() == 0 || groups.last() != tag {
                        None
                    } else {
                        fields(s, j, groups.drop_last(), kt, data)
                    }
                } else if groups.len() >= GROUP_LIMIT {
                    None
                } else if groups.len() == 0 && tag == 1 {
                    if wt != 0 {
                        None
                    } else {
                        match varint(s, j) {
                            None => None,
                            Some((v, k)) => fields(s, k, groups, v as u64, data),
                        }
                    }
                } else if groups.len() == 0 && tag == 2 {
                    if wt != 2 {
                        None
                    } else {
                        match varint(s, j) {
                            None => None,
                            Some((len, k)) => if len > s.len() - k {
                                None
                            } else {
                                fields(s, k + len, groups, kt, s.subrange(k, k + len as int))
                            },
                        }
                    }
                } else if wt == 3 {
                    fields(s, j, groups.push(tag as u64), kt, data)
                } else {
                    match skip_value(s, j, wt) {
                        None => None,
                        Some(k) => fields(s, k, groups, kt, data),
                    }
                }
            },
        }
    }
}

/// A LEB128 integer, where there is one, takes at least one byte and ends
/// within the sequence.
pub proof fn lemma_varint_advances(s: Seq<u8>, i: int, n: nat)
    ensures
        varint_at(s, i, n) matches Some((v, j)) ==> i < j <= s.len() && 0 <= v <= u64::MAX,
    decreases n,
{
    if n > 0 && 0 <= i < s.len() && s[i] >= 128 {
        lemma_varint_advances(s, i + 1, (n - 1) as nat);
    }
}

#[via_fn]
proof fn fields_decreases(s: Seq<u8>, i: int, groups: Seq<u64>, kt: u64, data: Seq<u8>) {
    lemma_varint_advances(s, i, 10);
    if let Some((key, j)) = varint(s, i) {
        lemma_varint_advances(s, j, 10);
    }
}

/// `128` to the power `k`.
pub open spec fn pow128(k: nat) -> int
    decreases k,
{
    if k == 0 {
        1
    } else {
        128 * pow128((k - 1) as nat)
    }
}

/// A value below `128^k` takes at most `k` bytes, and every value at least one.
pub proof fn lemma_varint_len(v: u64, k: nat)
    requires
        1 <= k,
        (v as int) < pow128(k),
    ensures
        1 <= varint_bytes(v).len() <= k,
    decreases v,
{
    if v >= 128 {
        let p = pow128((k - 1) as nat);
        assert(((v / 128) as int) < p) by (nonlinear_arith)
            requires
                (v as int) < 128 * p,
        ;
        assert(k - 1 >= 1) by {
            if k == 1 {
                assert(pow128(0) == 1);
            }
        }
        lemma_varint_len(v / 128, (k - 1) as nat);
    }
}

/// Every `u64` takes at most ten bytes.
pub proof fn lemma_varint_len_u64(v: u64)
    ensures
        1 <= varint_bytes(v).len() <= 10,
{
    reveal_with_fuel(pow128, 11);
    assert(pow128(10) == 1180591620717411303424int);
    lemma_varint_len(v, 10);
}

/// Reading the LEB128 form of `v` where it stands gives `v` back.
pub proof fn lemma_varint_read(s: Seq<u8>, i: int, v: u64, n: nat)
    requires
        0 <= i,
        i + varint_bytes(v).len() <= s.len(),
        s.subrange(i, i + varint_bytes(v).len()) == varint_bytes(v),
        varint_bytes(v).len() <= n,
    ensures
        varint_at(s, i, n) == Some((v as int, i + varint_bytes(v).len())),
    decreases v,
{
    let b = varint_bytes(v);
    assert(s[i] == b[0]) by {
        assert(s.subrange(i, i + b.len())[0] == s[i]);
    }
    if v >= 128 {
        let w = v / 128;
        let rest = varint_bytes(w);
        assert(b == seq![((v % 128) + 128) as u8] + rest);
        assert(s.subrange(i + 1, i + 1 + rest.len()) =~= rest) by {
            assert forall|k: int| 0 <= k < rest.len() implies s.subrange(i + 1, i + 1 + rest.len())[k]
                == rest[k] by {
                assert(s.subrange(i, i + b.len())[k + 1] == b[k + 1]);
            }
        }
        lemma_varint_read(s, i + 1, w, (n - 1) as nat);
        assert((v % 128) + 128 * w == v);
    }
}

/// Decoding the bytes of an RSA envelope gives its data back.
pub proof fn lemma_envelope_round_trip(data: Seq<u8>)
    requires
        data.len() <= u64::MAX,
    ensures
        decoded(envelope_bytes(data)) == Ok::<Seq<u8>, IdError>(data),
{
    let s = envelope_bytes(data);
    if data.len() == 0 {
        assert(fields(s, 0, Seq::empty(), 0, Seq::empty()) == Some((0u64, Seq::<u8>::empty())));
        assert(data =~= Seq::<u8>::empty());
    } else {
        let len = data.len() as u64;
        let lb = varint_bytes(len);
        lemma_varint_len_u64(len);
        assert(varint_bytes(DATA_KEY) =~= seq![18u8]);
        assert(s[0] == 18u8);
        assert(varint(s, 0) == Some((18int, 1int)));
        assert(s.subrange(1, 1 + lb.len() as int) =~= lb);
        lemma_varint_read(s, 1, len, 10);
        let k: int = 1 + lb.len() as int;
        assert(s.subrange(k, k + len as int) =~= data);
        assert(fields(s, k + len as int, Seq::empty(), 0, data) == Some((0u64, data)));
        assert(fields(s, 0, Seq::empty(), 0, Seq::empty()) == fields(s, k + len as int, Seq::empty(), 0, s.subrange(k, k + len as int)));
    }
}

/// The key types that an envelope can name.
#[derive(Clone, Copy, Debug, PartialEq, Eq, Structural)]
pub enum KeyType {
    RSA,
}

/// Raw key bytes tagged with the type of key they hold.
pub struct Envelope {
    pub key_type: KeyType,
    pub data: Vec<u8>,
}

/// The bytes of an envelope `{ RSA, data }`. The key type is the default value
/// zero and is not written; the data field is written when it is not empty.
pub open spec fn envelope_bytes(data: Seq<u8>) -> Seq<u8> {
    if data.len() == 0 {
        Seq::empty()
    } else {
        varint_bytes(DATA_KEY) + varint_bytes(data.len() as u64) + data
    }
}

/// What decoding `s` yields: the data of an RSA envelope, or the error.
pub open spec fn decoded(s: Seq<u8>) -> Result<Seq<u8>, IdError> {
    match fields(s, 0, Seq::empty(), 0, Seq::empty()) {
        None => Err(IdError::MalformedEnvelope),
        Some((kt, data)) => if kt == 0 {
            Ok(data)
        } else {
            Err(IdError::UnsupportedKeyType)
        },
    }
}

/// Reads the LEB128 integer at `i` from at most `n` bytes.
fn read_varint(s: &[u8], i: usize, n: usize) -> (r: Option<(u64, usize)>)
    ensures
        r matches Some((v, j)) ==> varint_at(s@, i as int, n as nat) == Some((v as int, j as int)),
        r is None ==> varint_at(s@, i as int, n as nat) is None,
    decreases n,
{
    if n == 0 || i >= s.len() {
        return None;
    }
    let b = s[i];
    if b < 128 {
        return Some((b as u64, i + 1));
    }
    proof {
        lemma_varint_advances(s@, i + 1, (n - 1) as nat);
    }
    match read_varint(s, i + 1, n - 1) {
        None => None,
        Some((v, j)) => {
            let low = (b - 128) as u64;
            if v > (u64::MAX - low) / 128 {
                assert(low + 128 * v > u64::MAX) by (nonlinear_arith)
                    requires
                        v > (u64::MAX - low) / 128,
                        low < 128,
                ;
                None
            } else {
                assert(low + 128 * v <= u64::MAX) by (nonlinear_arith)
                    requires
                        v <= (u64::MAX - low) / 128,
                        low < 128,
                ;
                Some((low + 128 * v, j))
            }
        },
    }
}

/// Copies `s[a..b]` into a new vector.
fn copy_range(s: &[u8], a: usize, b: usize) -> (r: Vec<u8>)
    requires
        a <= b <= s@.len(),
    ensures
        r@ == s@.subrange(a as int, b as int),
{
    let mut r: Vec<u8> = Vec::with_capacity(b - a);
    let mut i: usize = a;
    while i < b
        invariant
            a <= i <= b <= s@.len(),
            r@ == s@.subrange(a as int, i as int),
        decreases b - i,
    {
        r.push(s[i]);
        i = i + 1;
        assert(r@ =~= s@.subrange(a as int, i as int));
    }
    r
}

impl Envelope {
    /// An RSA envelope around `data`.
    pub fn rsa(data: Vec<u8>) -> (r: Envelope)
        ensures
            r.key_type == KeyType::RSA,
            r.data@ == data@,
    {
        Envelope { key_type: KeyType::RSA, data }
    }

    /// Encodes the envelope in its wire form.
    pub fn encode(&self) -> (r: Vec<u8>)
        ensures
            r@ == envelope_bytes(self.data@),
    {
        let mut out: Vec<u8> = Vec::new();
        if self.data.len() == 0 {
            assert(out@ =~= envelope_bytes(self.data@));
            return out;
        }
        put_varint(DATA_KEY, &mut out);
        put_varint(self.data.len() as u64, &mut out);
        let mut i: usize = 0;
        let ghost head = out@;
        while i < self.data.len()
            invariant
                i <= self.data@.len(),
                head == varint_bytes(DATA_KEY) + varint_bytes(self.data@.len() as u64),
                out@ == head + self.data@.subrange(0, i as int),
            decreases self.data@.len() - i,
        {
            out.push(self.data[i]);
            i = i + 1;
            assert(out@ =~= head + self.data@.subrange(0, i as int));
        }
        assert(self.data@.subrange(0, self.data@.len() as int) =~= self.data@);
        out
    }

    /// Decodes an envelope from its wire form. Only RSA envelopes are accepted.
    /// Unknown fields are skipped, groups included, down to a nesting of
    /// `GROUP_LIMIT` groups.
    pub fn decode(s: &[u8]) -> (r: Result<Envelope, IdError>)
        ensures
            match r {
                Ok(env) => env.key_type == KeyType::RSA && decoded(s@) == Ok::<Seq<u8>, IdError>(env.data@),
                Err(e) => decoded(s@) == Err::<Seq<u8>, IdError>(e),
            },
    {
        let mut i: usize = 0;
        let mut kt: u64 = 0;
        let mut data: Vec<u8> = Vec::new();
        let mut groups: Vec<u64> = Vec::new();
        let ghost target = fields(s@, 0, Seq::empty(), 0, Seq::empty());
        assert(data@ =~= Seq::<u8>::empty());
        assert(groups@ =~= Seq::<u64>::empty());
        while i < s.len()
            invariant
                i <= s@.len(),
                fields(s@, i as int, groups@, kt, data@) == target,
                target == fields(s@, 0, Seq::empty(), 0, Seq::empty()),
            decreases s@.len() - i,
        {
            proof {
                lemma_varint_advances(s@, i as int, 10);
            }
            let (key, j) = match read_varint(s, i, 10) {
                None => return Err(IdError::MalformedEnvelope),
                Some(p) => p,
            };
            proof {
                lemma_varint_advances(s@, j as int, 10);
            }
            let tag = key / 8;
            let wt = key % 8;
            if key > KEY_MAX || tag == 0 || wt > 5 {
                return Err(IdError::MalformedEnvelope);
            }
            if wt == 4 {
                if groups.len() == 0 || groups[groups.len() - 1] != tag {
                    return Err(IdError::MalformedEnvelope);
                }
                groups.pop();
                i = j;
            } else if groups.len() >= GROUP_LIMIT {
                return Err(IdError::MalformedEnvelope);
            } else if groups.len() == 0 && tag == 1 {
                if wt != 0 {
                    return Err(IdError::MalformedEnvelope);
                }
                let (v, k) = match read_varint(s, j, 10) {
                    None => return Err(IdError::MalformedEnvelope),
                    Some(p) => p,
                };
                kt = v;
                i = k;
            } else if groups.len() == 0 && tag == 2 {
                if wt != 2 {
                    return Err(IdError::MalformedEnvelope);
                }
                let (len, k) = match read_varint(s, j, 10) {
                    None => return Err(IdError::MalformedEnvelope),
                    Some(p) => p,
                };
                if len > (s.len() - k) as u64 {
                    return Err(IdError::MalformedEnvelope);
                }
                data = copy_range(s, k, k + len as usize);
                i = k + len as usize;
            } else if wt == 3 {
                groups.push(tag);
                i = j;
            } else {
                let k = match skip_field(s, j, wt) {
                    None => return Err(IdError::MalformedEnvelope),
                    Some(k) => k,
                };
                i = k;
            }
        }
        if groups.len() != 0 {
            return Err(IdError::MalformedEnvelope);
        }
        if kt != 0 {
            return Err(IdError::UnsupportedKeyType);
        }
        Ok(Envelope { key_type: KeyType::RSA, data })
    }
}

/// Skips the value of a field of wire type `wt` that starts at `j`.
fn skip_field(s: &[u8], j: usize, wt: u64) -> (r: Option<usize>)
    ensures
        r matches Some(k) ==> skip_value(s@, j as int, wt as int) == Some(k as int),
        r is None ==> skip_value(s@, j as int, wt as int) is None,
{
    if wt == 0 {
        match read_varint(s, j, 10) {
            None => None,
            Some((_, k)) => Some(k),
        }
    } else if wt == 1 {
        if j <= s.len() && s.len() - j >= 8 {
            Some(j + 8)
        } else {
            None
        }
    } else if wt == 2 {
        proof {
            lemma_varint_advances(s@, j as int, 10);
        }
        match read_varint(s, j, 10) {
            None => None,
            Some((len, k)) => if len <= (s.len() - k) as u64 {
                Some(k + len as usize)
            } else {
                None
            },
        }
    } else if wt == 5 {
        if j <= s.len() && s.len() - j >= 4 {
            Some(j + 4)
        } else {
            None
        }
    } else {
        None
    }
}

} // verus!
