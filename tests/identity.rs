use selfcert_id::{Digest, Envelope, HostId, IdError, PeerId, RSAPrivKey, RSAPubKey, Validation};

fn unhex(parts: &[&str]) -> Vec<u8> {
    let s: String = parts.concat();
    (0..s.len())
        .step_by(2)
        .map(|i| u8::from_str_radix(&s[i..i + 2], 16).unwrap())
        .collect()
}

fn priv_der() -> Vec<u8> {
    unhex(PRIV_DER)
}

fn pub_der() -> Vec<u8> {
    unhex(PUB_DER)
}

fn pub_key_from_der(der: Vec<u8>) -> RSAPubKey {
    RSAPubKey::from_protobuf(&Envelope::rsa(der).encode()).unwrap()
}

fn key_pair() -> RSAPrivKey {
    RSAPrivKey::from_der(priv_der(), pub_der()).unwrap()
}

const PRIV_DER: &[&str] = &[
    "308204a30201000282010100cb9eb0c67bcc36d2d29bccf3d49b608612d096bb25a2bc1233b704cbac1c7533055e2bf3",
    "b7404656b693cae239737a2da9fbfc158336bf88a76480f4e000cb9042bd8c6f770ab3d94a7d7705f8399a0248614741",
    "0acea8a8f7ebb929b11e4a1d25bbd9c21c7a652177727b9b77064e3d7ef8f2cd7a182298a79beaf4cf482049f5ca13dd",
    "e6d187c05d98fe80cf889532da44e88f82d079a747ab41a6879081812fcfe70f15c9f49308d3fdf1f3e47d87ce7cbccd",
    "7fec25a8b1324a35fdeca5ae70d75b1a560b9c57755f14372a17c2acc106c950cee4520925418fa6e1524dbf83ee19ce",
    "2d233e76dfd5037aea640bd915f18d6168b3a44c229049842c6b3a230203010001028201002355d59d8c2c433350c322",
    "cd098f312ff321e9966e90900ca496d5293723f51eb686c21fd8243a509ffc83cfc0628ec84fe05fbda7f89f426ab221",
    "42dd80a5d2d2122cc5c725bf522d001ae09953fdaaf9be8febf4a12a59b03462fc9e35006d9077c9f14a99dee4f0e298",
    "1ac18c0195e06bf94eb92a690e8ebf9b0582d7246b020a8198270bcd006b211694b91621222265282411e4136dbf3dfd",
    "b0f72f14f6229d2d7d98e748d42b95e46d02d42defdf43035da68868f43e10a37c818f1ca6a24ca8d2a4161c60a26d2a",
    "dd5f3926fe8c6f119fe04cddd90ba419a0b9e72e7ad9caf73b8992057231c319c4f43c5276f97e4b6a752a4f9e806636",
    "469e835a9102818100eb303944aca676cd89cf2e4bdccbc09e642ba5e99477e592bae02ddee66799769d2adcd6a909aa",
    "21bebcb841315cf83c794000f1f86ef7644c98d1e65246513297f704b464176c81fbdd97a1d3d9b57d77c94daba6d9d6",
    "90920c06ec5e8fe72b8339042935745a64ff0572d78735c1cc77478b221fb5627e62e6b591c006c70b02818100dda356",
    "ada6c13f89c5d2317f36e08682de9a7f5fa2202f60811820ed221202d299f405f2dc9a6f986c8d2d2e0ab0bda25f5e7b",
    "dee86f92f5b311f35dfc4984d13a05400fe4bf139cde266827b6c0494aaba33972325b27214b7da035b72f9ba1d70623",
    "f8bac85382602f65f58638c9103ea7bcc41f7229becd4f413a80e0684902818100afda9807947cc7ba39fff323004e4d",
    "91615f0da890bdf1a77c19e1d2983f008da34908656d716f87d9e1ac77fa9c0474db48932c5a5146a3f56e130c7f9a5a",
    "5e55287b99127a3d4517f981c69bec5e7b195528c15f79e4a8a6bb5d75e1e301bc145b4e942d86f98c28ef7f064ef050",
    "1f3d54fe609e8af6c17fdbf809aa26a72f028180021b5e6492343e15623308536c432024385781a47817143c379df21a",
    "2efbbad923ab852ef4d7e6fdacf27e9e746d8fafee7628794afe5c8847668148c070367a02b23014b698f667c458db1e",
    "9d87206b3c4c75ec56fc34d8052eb18a312e9bad232d24c4658a27f9124f010a1f7784b9c9ceb065b0e2d5f0c164e27a",
    "dae4c7390281806d5b4981cfc1268502cf9afc158da71827dc4ae52d07c7e4efe8509c47d20ceb720877acbbfb90ccd2",
    "d96efad2354b7ba03f4bda0b4fbbd095934fa46e5a8fd4944ba1fbd96bd19097d11f3b5d5724d7ea894236bd208a32f6",
    "b72569edf43c41844179b9a2b6f44891ef6ba65d126fed7f91d34359ff74777937fe018bb754ad",
];

const PUB_DER: &[&str] = &[
    "30820122300d06092a864886f70d01010105000382010f003082010a0282010100cb9eb0c67bcc36d2d29bccf3d49b60",
    "8612d096bb25a2bc1233b704cbac1c7533055e2bf3b7404656b693cae239737a2da9fbfc158336bf88a76480f4e000cb",
    "9042bd8c6f770ab3d94a7d7705f8399a02486147410acea8a8f7ebb929b11e4a1d25bbd9c21c7a652177727b9b77064e",
    "3d7ef8f2cd7a182298a79beaf4cf482049f5ca13dde6d187c05d98fe80cf889532da44e88f82d079a747ab41a6879081",
    "812fcfe70f15c9f49308d3fdf1f3e47d87ce7cbccd7fec25a8b1324a35fdeca5ae70d75b1a560b9c57755f14372a17c2",
    "acc106c950cee4520925418fa6e1524dbf83ee19ce2d233e76dfd5037aea640bd915f18d6168b3a44c229049842c6b3a",
    "230203010001",
];

const OTHER_PUB_DER: &[&str] = &[
    "30820122300d06092a864886f70d01010105000382010f003082010a0282010100e7914ce7cb0f8b625cd082c3e05d25",
    "72f531f2c5804f1cc22fa589bf851b8f984ff117e6de8467f078fc2e04548fd73756af35af414305ad16b6dad736c915",
    "750b3f386483d09c01f45225ff60d55f57783519fe6d8a4900789854c93578ec39820a1f26f9cf01eae26e5082494e45",
    "76e40aa5c1831b199d85004581ea957a43176dab004690041646749db56a3eb6db70c65a82b59eee46d8fc14d799ca62",
    "47114055255befb612a41d2fbd33014a73a73ae27f30ec7a00b7a0a78de4b45e97f6bfa8b1075745f6ae197a24113ff1",
    "b4ef48ce8cf4f0d8c0e1f20c3c4cede9ca4b606ba02cd0abfa6031b6e7da9cde74dd8d9392312e1c01c1533eff29e843",
    "4b0203010001",
];

const HELLO_SIG: &[&str] = &[
    "8671b6fad6bb4ec3954e0c79a69de0251928cd93b88f56d358ffd13b48584d51c234f5ec87567d097a1b50671ae758d0",
    "012dd25fa2c1d927d787191f27c072344fbe2d044379a75cc48b5ab88487bef99fe103fd4c3bc293ddb41e2a3a753dc3",
    "4f9c912972e6b4a50a04c16ca4ed3ecb82a7aa6c9c52722dc4df10d2fad2d2b835dd40a89a9bbaa441ab737a7de5b2bd",
    "6c00c0137157afa3d76e941645c6cc309cf6ac94ab2ae7f03837f6a912174a2358aa0e885d81a3e9abd06efdd8e8f711",
    "4f8005ef7d0ebcabf558192a6cd944a742146361c3a05f6a790a2746475f4277fc8b97cce8a72e14f8732632fb2c73fa",
    "edc71467d0825fc0cb5ad7c52cf1cddd",
];

// SubjectPublicKeyInfo around a hand-written modulus and exponent encoding.
fn small_spki(n: &[u8], e: &[u8]) -> Vec<u8> {
    let mut inner = vec![0x02, n.len() as u8];
    inner.extend_from_slice(n);
    inner.push(0x02);
    inner.push(e.len() as u8);
    inner.extend_from_slice(e);
    let mut seq = vec![0x30, inner.len() as u8];
    seq.extend(inner);
    let mut bits = vec![0x03, (seq.len() + 1) as u8, 0x00];
    bits.extend(seq);
    let mut body = vec![
        0x30, 0x0d, 0x06, 0x09, 0x2a, 0x86, 0x48, 0x86, 0xf7, 0x0d, 0x01, 0x01, 0x01, 0x05, 0x00,
    ];
    body.extend(bits);
    let mut out = vec![0x30, body.len() as u8];
    out.extend(body);
    out
}

#[test]
fn sign_then_verify_succeeds() {
    let key = key_pair();
    for msg in [&b""[..], &b"hello"[..], &[0u8; 1000][..]] {
        let sig = key.sign(msg).unwrap();
        assert_eq!(sig.len(), 256);
        assert_eq!(key.pub_key().verify(msg, &sig), Ok(()));
    }
}

#[test]
fn host_sign_then_peer_verify() {
    let host = HostId::from_der(priv_der(), pub_der()).unwrap();
    let sig = host.sign(b"payload").unwrap();
    assert_eq!(host.to_peerid().verify(b"payload", &sig), Ok(()));
    assert_eq!(host.to_peerid().verify(b"other payload", &sig), Err(IdError::VerificationFailed));
}

#[test]
fn known_signature_verifies() {
    let key = pub_key_from_der(pub_der());
    let sig = unhex(HELLO_SIG);
    assert_eq!(key.verify(b"hello world", &sig), Ok(()));
    assert_eq!(key.verify(b"hello world!", &sig), Err(IdError::VerificationFailed));
}

#[test]
fn signature_under_other_key_fails() {
    let other = pub_key_from_der(unhex(OTHER_PUB_DER));
    let sig = unhex(HELLO_SIG);
    assert_eq!(other.verify(b"hello world", &sig), Err(IdError::VerificationFailed));
}

#[test]
fn flipped_bit_fails_verification() {
    let key = pub_key_from_der(pub_der());
    let sig = unhex(HELLO_SIG);
    for i in [0usize, 1, 17, 100, 200, 255] {
        for bit in [0u8, 3, 7] {
            let mut bad = sig.clone();
            bad[i] ^= 1 << bit;
            assert_eq!(key.verify(b"hello world", &bad), Err(IdError::VerificationFailed));
        }
    }
}

#[test]
fn truncated_signature_fails_verification() {
    let key = pub_key_from_der(pub_der());
    let sig = unhex(HELLO_SIG);
    assert_eq!(key.verify(b"hello world", &sig[..255]), Err(IdError::VerificationFailed));
    assert_eq!(key.verify(b"hello world", &[]), Err(IdError::VerificationFailed));
}

#[test]
fn host_from_der_binds_digest() {
    let host = HostId::from_der(priv_der(), pub_der()).unwrap();
    let env = host.pub_key().to_protobuf().unwrap();
    assert_eq!(host.hash().validate(&env), Validation::Match);
    assert_eq!(host.hash().code(), 0x12);
    assert_eq!(host.hash().bytes().len(), 32);
    assert_eq!(host.pub_key().as_bytes(), &pub_der()[..]);
}

#[test]
fn host_from_der_rejects_garbage() {
    assert!(matches!(HostId::from_der(vec![1, 2, 3], pub_der()), Err(IdError::MalformedKey)));
    assert!(matches!(HostId::from_der(pub_der(), pub_der()), Err(IdError::MalformedKey)));
    let mut cut = priv_der();
    cut.truncate(600);
    assert!(matches!(RSAPrivKey::from_der(cut, pub_der()), Err(IdError::MalformedKey)));
}

#[test]
fn peer_new_rejects_digest_of_other_bytes() {
    let key = pub_key_from_der(pub_der());
    let mut env = key.to_protobuf().unwrap();
    let good = Digest::generate(&env);
    assert!(matches!(PeerId::new(good, key.clone()), Ok(PeerId::Proven { .. })));
    env[10] ^= 0xff;
    let other = Digest::generate(&env);
    assert!(matches!(PeerId::new(other, key.clone()), Err(IdError::BindingError)));
    let raw = Digest::generate(key.as_bytes());
    assert!(matches!(PeerId::new(raw, key), Err(IdError::BindingError)));
}

#[test]
fn peer_new_rejects_unsupported_algorithm() {
    let key = pub_key_from_der(pub_der());
    let env = key.to_protobuf().unwrap();
    let good = Digest::generate(&env);
    let relabelled = Digest::new(0x13, good.bytes().to_vec());
    assert_eq!(relabelled.validate(&env), Validation::Unsupported);
    assert!(matches!(PeerId::new(relabelled, key), Err(IdError::BindingError)));
}

#[test]
fn matches_rules() {
    let key = pub_key_from_der(pub_der());
    let d = Digest::generate(&key.to_protobuf().unwrap());
    let proven = PeerId::from_key(key.clone()).unwrap();
    let candidate = PeerId::from_hash(d.clone());
    let unknown = PeerId::Unknown;
    let other = PeerId::from_hash(Digest::generate(b"something else"));
    assert!(candidate.matches(&proven));
    assert!(proven.matches(&candidate));
    assert!(proven.matches(&proven));
    assert!(!unknown.matches(&unknown));
    assert!(!unknown.matches(&proven));
    assert!(!proven.matches(&unknown));
    assert!(!other.matches(&candidate));
    assert!(!proven.matches(&other));
}

#[test]
fn peer_accessors() {
    let key = pub_key_from_der(pub_der());
    let d = Digest::generate(&key.to_protobuf().unwrap());
    let proven = PeerId::new(d.clone(), key).unwrap();
    assert!(proven.proven());
    assert!(proven.hash().unwrap() == &d);
    let candidate = PeerId::from_hash(d.clone());
    assert!(!candidate.proven());
    assert!(candidate.hash().unwrap() == &d);
    assert!(PeerId::Unknown.hash().is_none());
    assert!(!PeerId::Unknown.proven());
}

#[test]
fn verify_without_key_fails() {
    let sig = unhex(HELLO_SIG);
    assert_eq!(PeerId::Unknown.verify(b"hello world", &sig), Err(IdError::NoPublicKey));
    let candidate = PeerId::from_hash(Digest::generate(b"x"));
    assert_eq!(candidate.verify(b"hello world", &sig), Err(IdError::NoPublicKey));
}

#[test]
fn peer_verify_with_key() {
    let peer = PeerId::from_key(pub_key_from_der(pub_der())).unwrap();
    let sig = unhex(HELLO_SIG);
    assert_eq!(peer.verify(b"hello world", &sig), Ok(()));
}

#[test]
fn envelope_round_trip() {
    for data in [vec![], vec![7u8], pub_der(), vec![0xAB; 200], vec![1; 20000]] {
        let key = pub_key_from_der(data.clone());
        let back = RSAPubKey::from_protobuf(&key.to_protobuf().unwrap()).unwrap();
        assert_eq!(back.as_bytes(), &data[..]);
    }
}

#[test]
fn envelope_exact_bytes() {
    assert_eq!(Envelope::rsa(vec![]).encode(), Vec::<u8>::new());
    assert_eq!(Envelope::rsa(vec![1, 2, 3]).encode(), vec![0x12, 3, 1, 2, 3]);
    let long = Envelope::rsa(vec![9; 200]).encode();
    assert_eq!(&long[..3], &[0x12, 0xC8, 0x01]);
    assert_eq!(long.len(), 203);
    let der = Envelope::rsa(pub_der()).encode();
    assert_eq!(&der[..3], &[0x12, 0xA6, 0x02]);
}

#[test]
fn envelope_decode_forms() {
    let env = Envelope::decode(&[]).unwrap();
    assert!(env.data.is_empty());
    let env = Envelope::decode(&[0x08, 0x00, 0x12, 0x02, 5, 6]).unwrap();
    assert_eq!(env.data, vec![5, 6]);
    // an unknown varint field and an unknown length-delimited field are skipped
    let env = Envelope::decode(&[0x18, 0x05, 0x22, 0x01, 0xFF, 0x12, 0x01, 0xAA]).unwrap();
    assert_eq!(env.data, vec![0xAA]);
    // the last data field wins
    let env = Envelope::decode(&[0x12, 0x01, 0x01, 0x12, 0x01, 0x02]).unwrap();
    assert_eq!(env.data, vec![0x02]);
    // fixed-width unknown fields
    let env = Envelope::decode(&[0x2D, 1, 2, 3, 4, 0x31, 1, 2, 3, 4, 5, 6, 7, 8, 0x12, 0x00]).unwrap();
    assert!(env.data.is_empty());
}

#[test]
fn envelope_decode_errors() {
    let unsupported = [&[0x08, 0x01][..], &[0x08, 0x01, 0x12, 0x01, 0x00][..], &[0x08, 0x80, 0x80, 0x80, 0x80, 0x10][..]];
    for bytes in unsupported {
        assert!(matches!(Envelope::decode(bytes), Err(IdError::UnsupportedKeyType)));
        assert!(matches!(RSAPubKey::from_protobuf(bytes), Err(IdError::UnsupportedKeyType)));
    }
    let malformed: [&[u8]; 9] = [
        &[0x12],
        &[0x12, 0x05, 1, 2],
        &[0x0A, 0x00],
        &[0x10, 0x00],
        &[0x00, 0x00],
        &[0x08],
        &[0x1B],
        &[0x80, 0x80, 0x80, 0x80, 0x80, 0x80, 0x80, 0x80, 0x80, 0x80, 0x01],
        &[0x08, 0xFF, 0xFF, 0xFF, 0xFF, 0xFF, 0xFF, 0xFF, 0xFF, 0xFF, 0x02],
    ];
    for bytes in malformed {
        assert!(matches!(Envelope::decode(bytes), Err(IdError::MalformedEnvelope)), "{:?}", bytes);
        assert!(matches!(PeerId::from_protobuf(bytes), Err(IdError::MalformedEnvelope)));
    }
}

#[test]
fn non_minimal_zero_key_type_is_rsa() {
    // a zero written in a non-minimal form is still RSA
    let env = Envelope::decode(&[0x08, 0x80, 0x00, 0x12, 0x01, 0x07]).unwrap();
    assert_eq!(env.data, vec![7]);
}

#[test]
fn malformed_der_gives_malformed_key() {
    let der = pub_der();
    let sig = unhex(HELLO_SIG);
    // truncated: the BIT STRING runs past the end
    let mut cut = der.clone();
    cut.truncate(200);
    assert_eq!(pub_key_from_der(cut).verify(b"hello world", &sig), Err(IdError::MalformedKey));
    // wrong OID: rsaEncryption's last arc changed
    let mut oid = der.clone();
    assert_eq!(oid[14], 0x01);
    oid[14] = 0x05;
    assert_eq!(pub_key_from_der(oid).verify(b"hello world", &sig), Err(IdError::MalformedKey));
    // non-zero unused-bits count
    let mut unused = der.clone();
    assert_eq!(unused[23], 0x00);
    unused[23] = 0x01;
    assert_eq!(pub_key_from_der(unused).verify(b"hello world", &sig), Err(IdError::MalformedKey));
    // trailing byte after the structure
    let mut trailing = der.clone();
    trailing.push(0);
    assert_eq!(pub_key_from_der(trailing).verify(b"hello world", &sig), Err(IdError::MalformedKey));
    // empty
    assert_eq!(pub_key_from_der(vec![]).verify(b"hello world", &sig), Err(IdError::MalformedKey));
}

#[test]
fn negative_looking_integer_is_malformed() {
    let sig = [0u8; 4];
    let neg = small_spki(&[0x80], &[0x03]);
    assert_eq!(pub_key_from_der(neg).verify(b"m", &sig), Err(IdError::MalformedKey));
    let neg_e = small_spki(&[0x7f], &[0xff]);
    assert_eq!(pub_key_from_der(neg_e).verify(b"m", &sig), Err(IdError::MalformedKey));
    let extra_zero = small_spki(&[0x00, 0x7f], &[0x03]);
    assert_eq!(pub_key_from_der(extra_zero).verify(b"m", &sig), Err(IdError::MalformedKey));
    let zero = small_spki(&[0x00], &[0x03]);
    assert_eq!(pub_key_from_der(zero).verify(b"m", &sig), Err(IdError::MalformedKey));
    let empty = small_spki(&[], &[0x03]);
    assert_eq!(pub_key_from_der(empty).verify(b"m", &sig), Err(IdError::MalformedKey));
}

#[test]
fn well_formed_small_key_fails_verification_not_parse() {
    let sig = [0u8; 1];
    let small = small_spki(&[0x00, 0x80], &[0x03]);
    assert_eq!(pub_key_from_der(small).verify(b"m", &sig), Err(IdError::VerificationFailed));
    let plain = small_spki(&[0x7f], &[0x03]);
    assert_eq!(pub_key_from_der(plain).verify(b"m", &sig), Err(IdError::VerificationFailed));
}

#[test]
fn host_new_binding_scenario() {
    let key = key_pair();
    let mut env = Envelope::rsa(key.pub_key().as_bytes().to_vec()).encode();
    let d = Digest::generate(&env);
    let host = HostId::new(d, key.clone()).unwrap();
    assert!(host.to_peerid().proven());
    env[20] ^= 0x01;
    let d2 = Digest::generate(&env);
    assert!(matches!(HostId::new(d2, key), Err(IdError::BindingError)));
}

#[test]
fn host_to_peerid_matches_peer_from_key() {
    let host = HostId::from_der(priv_der(), pub_der()).unwrap();
    let peer = PeerId::from_key(host.pub_key().clone()).unwrap();
    assert!(host.to_peerid().matches(&peer));
    let copy = host.clone();
    assert!(copy.hash() == host.hash());
    let sig = copy.sign(b"abc").unwrap();
    assert_eq!(peer.verify(b"abc", &sig), Ok(()));
}

#[test]
fn peer_from_protobuf_computes_digest() {
    let env = Envelope::rsa(pub_der()).encode();
    let peer = PeerId::from_protobuf(&env).unwrap();
    assert!(peer.proven());
    assert!(peer.hash().unwrap() == &Digest::generate(&env));
}

#[test]
fn sha256_known_value() {
    let d = Digest::generate(b"abc");
    assert_eq!(d.code(), 0x12);
    let expected = unhex(&["ba7816bf8f01cfea414140de5dae2223b00361a396177a9cb410ff61f20015ad"]);
    assert_eq!(d.bytes(), &expected[..]);
    assert_eq!(d.validate(b"abc"), Validation::Match);
    assert_eq!(d.validate(b"abd"), Validation::Mismatch);
    let empty = Digest::generate(b"");
    let expected = unhex(&["e3b0c44298fc1c149afbf4c8996fb92427ae41e4649b934ca495991b7852b855"]);
    assert_eq!(empty.bytes(), &expected[..]);
}

#[test]
fn digest_equality() {
    let a = Digest::new(0x12, vec![1, 2, 3]);
    assert!(a == Digest::new(0x12, vec![1, 2, 3]));
    assert!(a != Digest::new(0x13, vec![1, 2, 3]));
    assert!(a != Digest::new(0x12, vec![1, 2]));
    assert!(a.clone() == a);
}

#[test]
fn private_key_clone_signs_alike() {
    let key = key_pair();
    let copy = key.clone();
    assert_eq!(copy.pub_key().as_bytes(), key.pub_key().as_bytes());
    let a = key.sign(b"same").unwrap();
    let b = copy.sign(b"same").unwrap();
    assert_eq!(a, b);
}

#[test]
fn groups_are_skipped() {
    // a group with tag 3 holding a field numbered 1, then the data field
    let env = Envelope::decode(&[0x1B, 0x08, 0x05, 0x1C, 0x12, 0x01, 0xAA]).unwrap();
    assert_eq!(env.data, vec![0xAA]);
    // nested groups with a length-delimited field inside
    let env = Envelope::decode(&[0x1B, 0x23, 0x12, 0x01, 0x09, 0x24, 0x1C]).unwrap();
    assert!(env.data.is_empty());
}

#[test]
fn group_errors() {
    // end-group key at top level
    assert!(matches!(Envelope::decode(&[0x1C]), Err(IdError::MalformedEnvelope)));
    // end-group key with another tag
    assert!(matches!(Envelope::decode(&[0x1B, 0x24]), Err(IdError::MalformedEnvelope)));
    // group never closed
    assert!(matches!(Envelope::decode(&[0x1B, 0x08, 0x01]), Err(IdError::MalformedEnvelope)));
    // field 1 written as a group
    assert!(matches!(Envelope::decode(&[0x0B, 0x0C]), Err(IdError::MalformedEnvelope)));
}

#[test]
fn group_nesting_limit() {
    let mut ok = vec![0x1B; 100];
    ok.extend(vec![0x1C; 100]);
    assert!(Envelope::decode(&ok).is_ok());
    let mut deep = vec![0x1B; 101];
    deep.extend(vec![0x1C; 101]);
    assert!(matches!(Envelope::decode(&deep), Err(IdError::MalformedEnvelope)));
}

#[test]
fn null_with_content_is_malformed() {
    let key = vec![
        0x30, 0x1b, 0x30, 0x0e, 0x06, 0x09, 0x2a, 0x86, 0x48, 0x86, 0xf7, 0x0d, 0x01, 0x01, 0x01,
        0x05, 0x01, 0x00, 0x03, 0x09, 0x00, 0x30, 0x06, 0x02, 0x01, 0x01, 0x02, 0x01, 0x03,
    ];
    assert_eq!(pub_key_from_der(key).verify(b"m", &[0u8; 4]), Err(IdError::MalformedKey));
}

#[test]
fn signature_has_modulus_length_and_is_deterministic() {
    let host = HostId::from_der(priv_der(), pub_der()).unwrap();
    let key = key_pair();
    let a = host.sign(b"twice").unwrap();
    let b = key.sign(b"twice").unwrap();
    assert_eq!(a.len(), 256);
    assert_eq!(a, b);
    assert_ne!(a, key.sign(b"other").unwrap());
}

#[test]
fn private_key_accessors() {
    let host = HostId::from_der(priv_der(), pub_der()).unwrap();
    assert_eq!(host.priv_key().der_len(), priv_der().len());
    assert_eq!(host.priv_key().pub_key().as_bytes(), &pub_der()[..]);
}
