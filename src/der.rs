//! A small DER reader for the PKIX SubjectPublicKeyInfo of an RSA key.
//!
//! Each element is read as a tag, a length and a value window, and nested
//! elements are read only within the window of the element that holds them.
use vstd::prelude::*;

verus! {

/// DER tag of a SEQUENCE.
pub const TAG_SEQUENCE: u8 = 0x30;

/// DER tag of an OBJECT IDENTIFIER.
pub const TAG_OID: u8 = 0x06;

/// DER tag of NULL.
pub const TAG_NULL: u8 = 0x05;

/// DER tag of a BIT STRING.
pub const TAG_BIT_STRING: u8 = 0x03;

/// DER tag of an INTEGER.
pub const TAG_INTEGER: u8 = 0x02;

/// The content bytes of the rsaEncryption OID, 1.2.840.113549.1.1.1.
pub open spec fn rsa_encryption_oid() -> Seq<u8> {
    seq![42u8, 134u8, 72u8, 134u8, 247u8, 13u8, 1u8, 1u8, 1u8]
}

/// The value window `(start, end)` of the element with tag `tag` that begins
/// at `i` and must end by `lim`. Lengths are in the short form, or in the long
/// form with one or two bytes and no shorter encoding possible.
pub open spec fn element(s: Seq<u8>, i: int, lim: int, tag: u8) -> Option<(int, int)> {
    if i < 0 || lim > s.len() || i + 2 > lim || s[i] != tag {
        None
    } else if s[i + 1] < 0x80 {
        let end = i + 2 + s[i + 1];
        if end <= lim { Some((i + 2, end)) } else { None }
    } else if s[i + 1] == 0x81 {
        if i + 3 > lim || s[i + 2] < 0x80 {
            None
        } else {
            let end = i + 3 + s[i + 2];
            if end <= lim { Some((i + 3, end)) } else { None }
        }
    } else if s[i + 1] == 0x82 {
        if i + 4 > lim {
            None
        } else {
            let len = s[i + 2] * 256 + s[i + 3];
            let end = i + 4 + len;
            if len < 0x100 || end > lim { None } else { Some((i + 4, end)) }
        }
    } else {
        None
    }
}

/// The magnitude window of the positive INTEGER that begins at `i` and must
/// end by `lim`. The encoding may not be empty, may not look negative, and may
/// start with a zero byte only where the next byte has its high bit set; that
/// zero byte is left out of the window. The window ends where the element does.
pub open spec fn positive_integer(s: Seq<u8>, i: int, lim: int) -> Option<(int, int)> {
    match element(s, i, lim, TAG_INTEGER) {
        None => None,
        Some((st, end)) => {
            if st >= end {
                None
            } else if s[st] == 0 {
                if st + 1 >= end || s[st + 1] < 0x80 {
                    None
                } else {
                    Some((st + 1, end))
                }
            } else if s[st] >= 0x80 {
                None
            } else {
                Some((st, end))
            }
        },
    }
}

/// The windows of modulus and exponent in a SubjectPublicKeyInfo:
/// SEQUENCE { SEQUENCE { OID rsaEncryption, NULL (empty) }, BIT STRING { 0 unused bits,
/// SEQUENCE { INTEGER modulus, INTEGER exponent } } }, each element filling
/// the one that holds it.
pub open spec fn spki_windows(s: Seq<u8>) -> Option<((int, int), (int, int))> {
    match element(s, 0, s.len() as int, TAG_SEQUENCE) {
        None => None,
        Some((o0, o1)) => if o1 != s.len() {
            None
        } else {
            match element(s, o0, o1, TAG_SEQUENCE) {
                None => None,
                Some((a0, a1)) => match element(s, a0, a1, TAG_OID) {
                    None => None,
                    Some((d0, d1)) => if s.subrange(d0, d1) != rsa_encryption_oid() {
                        None
                    } else {
                        match element(s, d1, a1, TAG_NULL) {
                            None => None,
                            Some((z0, z1)) => if z0 != z1 || z1 != a1 {
                                None
                            } else {
                                bit_string_windows(s, a1, o1)
                            },
                        }
                    },
                },
            }
        },
    }
}

/// The windows of modulus and exponent in the BIT STRING that begins at `i`
/// and fills the window up to `lim`.
pub open spec fn bit_string_windows(s: Seq<u8>, i: int, lim: int) -> Option<((int, int), (int, int))> {
    match element(s, i, lim, TAG_BIT_STRING) {
        None => None,
        Some((b0, b1)) => if b1 != lim || b0 >= b1 || s[b0] != 0 {
            None
        } else {
            match element(s, b0 + 1, b1, TAG_SEQUENCE) {
                None => None,
                Some((q0, q1)) => if q1 != b1 {
                    None
                } else {
                    match positive_integer(s, q0, q1) {
                        None => None,
                        Some((n0, n1)) => match positive_integer(s, n1, q1) {
                            None => None,
                            Some((e0, e1)) => if e1 != q1 {
                                None
                            } else {
                                Some(((n0, n1), (e0, e1)))
                            },
                        },
                    }
                },
            }
        },
    }
}

/// Modulus and exponent, as big-endian magnitudes, of an RSA SubjectPublicKeyInfo.
pub open spec fn parse_spki(s: Seq<u8>) -> Option<(Seq<u8>, Seq<u8>)> {
    match spki_windows(s) {
        None => None,
        Some(((n0, n1), (e0, e1))) => Some((s.subrange(n0, n1), s.subrange(e0, e1))),
    }
}

/// No proper prefix of a well-formed SubjectPublicKeyInfo is one: the outer
/// SEQUENCE claims more bytes than the prefix holds.
pub proof fn lemma_prefix_rejected(s: Seq<u8>, k: int)
    requires
        spki_windows(s) is Some,
        0 <= k < s.len(),
    ensures
        parse_spki(s.subrange(0, k)) is None,
{
    let t = s.subrange(0, k);
    assert(forall|j: int| 0 <= j < k ==> t[j] == s[j]);
    assert(element(t, 0, t.len() as int, TAG_SEQUENCE) is None);
}

/// A key whose AlgorithmIdentifier names another OID than rsaEncryption is
/// refused.
pub proof fn lemma_wrong_oid_rejected(s: Seq<u8>)
    requires
        element(s, 0, s.len() as int, TAG_SEQUENCE) matches Some((o0, o1)) && element(s, o0, o1, TAG_SEQUENCE)
            matches Some((a0, a1)) && element(s, a0, a1, TAG_OID) matches Some((d0, d1)) && s.subrange(d0, d1)
            != rsa_encryption_oid(),
    ensures
        parse_spki(s) is None,
{
}

/// An INTEGER whose first content byte has its high bit set is negative,
/// and is refused.
pub proof fn lemma_negative_integer_rejected(s: Seq<u8>, i: int, lim: int)
    requires
        element(s, i, lim, TAG_INTEGER) matches Some((st, end)) && st < end && s[st] >= 0x80,
    ensures
        positive_integer(s, i, lim) is None,
{
}

/// A window in executable form, seen as integers.
pub open spec fn as_window(w: Option<(usize, usize)>) -> Option<(int, int)> {
    match w {
        None => None,
        Some((a, b)) => Some((a as int, b as int)),
    }
}

/// Two windows in executable form, seen as integers.
pub open spec fn as_windows(w: Option<((usize, usize), (usize, usize))>) -> Option<
    ((int, int), (int, int)),
> {
    match w {
        None => None,
        Some(((a, b), (c, d))) => Some(((a as int, b as int), (c as int, d as int))),
    }
}

/// Reads the header of the element with tag `tag` at `i`, bounded by `lim`.
pub fn read_element(s: &[u8], i: usize, lim: usize, tag: u8) -> (r: Option<(usize, usize)>)
    requires
        lim <= s@.len(),
    ensures
        as_window(r) == element(s@, i as int, lim as int, tag),
        r matches Some((a, b)) ==> i < a <= b <= lim,
{
    if i >= lim || lim - i < 2 || s[i] != tag {
        return None;
    }
    let first = s[i + 1];
    if first < 0x80 {
        let avail = lim - (i + 2);
        if (first as usize) <= avail {
            Some((i + 2, i + 2 + first as usize))
        } else {
            None
        }
    } else if first == 0x81 {
        if lim - i < 3 || s[i + 2] < 0x80 {
            return None;
        }
        let len = s[i + 2] as usize;
        if len <= lim - (i + 3) {
            Some((i + 3, i + 3 + len))
        } else {
            None
        }
    } else if first == 0x82 {
        if lim - i < 4 {
            return None;
        }
        let len = (s[i + 2] as usize) * 256 + (s[i + 3] as usize);
        if len < 0x100 || len > lim - (i + 4) {
            None
        } else {
            Some((i + 4, i + 4 + len))
        }
    } else {
        None
    }
}

/// Reads the positive INTEGER at `i`, bounded by `lim`.
pub fn read_positive_integer(s: &[u8], i: usize, lim: usize) -> (r: Option<(usize, usize)>)
    requires
        lim <= s@.len(),
    ensures
        as_window(r) == positive_integer(s@, i as int, lim as int),
        r matches Some((a, b)) ==> i < a < b <= lim,
{
    match read_element(s, i, lim, TAG_INTEGER) {
        None => None,
        Some((st, end)) => {
            if st >= end {
                None
            } else if s[st] == 0 {
                if st + 1 >= end || s[st + 1] < 0x80 {
                    None
                } else {
                    Some((st + 1, end))
                }
            } else if s[st] >= 0x80 {
                None
            } else {
                Some((st, end))
            }
        },
    }
}

/// Whether `s[start..end]` holds the rsaEncryption OID.
fn is_rsa_encryption_oid(s: &[u8], start: usize, end: usize) -> (r: bool)
    requires
        start <= end <= s@.len(),
    ensures
        r == (s@.subrange(start as int, end as int) == rsa_encryption_oid()),
{
    let ghost oid = s@.subrange(start as int, end as int);
    if end - start != 9 {
        assert(oid.len() != rsa_encryption_oid().len());
        return false;
    }
    let r = s[start] == 42 && s[start + 1] == 134 && s[start + 2] == 72 && s[start + 3] == 134
        && s[start + 4] == 247 && s[start + 5] == 13 && s[start + 6] == 1 && s[start + 7] == 1
        && s[start + 8] == 1;
    if r {
        assert(oid =~= rsa_encryption_oid());
    } else {
        assert(oid != rsa_encryption_oid()) by {
            if oid == rsa_encryption_oid() {
                assert(oid[0] == 42 && oid[1] == 134 && oid[2] == 72 && oid[3] == 134);
                assert(oid[4] == 247 && oid[5] == 13 && oid[6] == 1 && oid[7] == 1);
                assert(oid[8] == 1);
            }
        }
    }
    r
}

/// Reads the BIT STRING at `i` that fills the window up to `lim`, and the
/// modulus and exponent inside it.
fn read_bit_string(s: &[u8], i: usize, lim: usize) -> (r: Option<((usize, usize), (usize, usize))>)
    requires
        lim <= s@.len(),
    ensures
        as_windows(r) == bit_string_windows(s@, i as int, lim as int),
{
    let (b0, b1) = match read_element(s, i, lim, TAG_BIT_STRING) {
        None => return None,
        Some(w) => w,
    };
    if b1 != lim || b0 >= b1 || s[b0] != 0 {
        return None;
    }
    let (q0, q1) = match read_element(s, b0 + 1, b1, TAG_SEQUENCE) {
        None => return None,
        Some(w) => w,
    };
    if q1 != b1 {
        return None;
    }
    let (n0, n1) = match read_positive_integer(s, q0, q1) {
        None => return None,
        Some(w) => w,
    };
    let (e0, e1) = match read_positive_integer(s, n1, q1) {
        None => return None,
        Some(w) => w,
    };
    if e1 != q1 {
        return None;
    }
    Some(((n0, n1), (e0, e1)))
}

/// Finds the modulus and exponent windows of an RSA SubjectPublicKeyInfo.
pub fn parse_public_key(s: &[u8]) -> (r: Option<((usize, usize), (usize, usize))>)
    ensures
        as_windows(r) == spki_windows(s@),
        r matches Some(((n0, n1), (e0, e1))) ==> n0 <= n1 <= s@.len() && e0 <= e1 <= s@.len(),
{
    let (o0, o1) = match read_element(s, 0, s.len(), TAG_SEQUENCE) {
        None => return None,
        Some(w) => w,
    };
    if o1 != s.len() {
        return None;
    }
    let (a0, a1) = match read_element(s, o0, o1, TAG_SEQUENCE) {
        None => return None,
        Some(w) => w,
    };
    let (d0, d1) = match read_element(s, a0, a1, TAG_OID) {
        None => return None,
        Some(w) => w,
    };
    if !is_rsa_encryption_oid(s, d0, d1) {
        return None;
    }
    let (z0, z1) = match read_element(s, d1, a1, TAG_NULL) {
        None => return None,
        Some(w) => w,
    };
    if z0 != z1 || z1 != a1 {
        return None;
    }
    let r = read_bit_string(s, a1, o1);
    proof {
        if let Some(((n0, n1), (e0, e1))) = bit_string_windows(s@, a1 as int, o1 as int) {
            lemma_bit_string_windows_bounded(s@, a1 as int, o1 as int);
        }
    }
    r
}

/// The windows found in a BIT STRING lie within it.
proof fn lemma_bit_string_windows_bounded(s: Seq<u8>, i: int, lim: int)
    requires
        bit_string_windows(s, i, lim) is Some,
    ensures
        ({
            let ((n0, n1), (e0, e1)) = bit_string_windows(s, i, lim).unwrap();
            0 <= n0 <= n1 <= lim <= s.len() && 0 <= e0 <= e1 <= lim
        }),
{
}

} // verus!
