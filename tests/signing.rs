use ecdsa_keys::{try_verify_signature, verify_signature, KeyPair, VerifyError};
use std::collections::HashSet;

const ORDER: [u8; 32] = [
    0xff, 0xff, 0xff, 0xff, 0x00, 0x00, 0x00, 0x00, 0xff, 0xff, 0xff, 0xff, 0xff, 0xff, 0xff, 0xff,
    0xbc, 0xe6, 0xfa, 0xad, 0xa7, 0x17, 0x9e, 0x84, 0xf3, 0xb9, 0xca, 0xc2, 0xfc, 0x63, 0x25, 0x51,
];

fn hex(bytes: &[u8]) -> String {
    bytes.iter().map(|b| format!("{:02x}", b)).collect()
}

#[test]
fn sign_then_verify_signature_round_trip() {
    let pair = KeyPair::new();
    let public_key = pair.get_public_key();
    let long = vec![0xa5u8; 10_000];
    for message in [&b""[..], &b"hello"[..], &b"\x00\x01\x02"[..], &long[..]] {
        let c = pair.sign(message);
        assert!(verify_signature(message, &c.r, &c.s, &public_key));
        assert!(pair.verify(message, &c.r, &c.s));
        assert_eq!(try_verify_signature(message, &c.r, &c.s, &public_key), Ok(()));
    }
}

#[test]
fn flipped_bit_in_r_or_s_fails() {
    let pair = KeyPair::new();
    let public_key = pair.get_public_key();
    let c = pair.sign(b"bit flips");
    for byte in [0usize, 7, 16, 31] {
        for bit in [0u8, 3, 7] {
            let mut r = c.r.clone();
            r[byte] ^= 1 << bit;
            assert!(!verify_signature(b"bit flips", &r, &c.s, &public_key));
            let mut s = c.s.clone();
            s[byte] ^= 1 << bit;
            assert!(!verify_signature(b"bit flips", &c.r, &s, &public_key));
            assert!(!pair.verify(b"bit flips", &c.r, &s));
        }
    }
}

#[test]
fn signature_of_one_message_fails_on_another() {
    let pair = KeyPair::new();
    let public_key = pair.get_public_key();
    let c = pair.sign(b"first message");
    assert!(!verify_signature(b"second message", &c.r, &c.s, &public_key));
    assert!(!verify_signature(b"first messag", &c.r, &c.s, &public_key));
    assert_eq!(
        try_verify_signature(b"second message", &c.r, &c.s, &public_key),
        Err(VerifyError::SignatureMismatch)
    );
}

#[test]
fn public_key_is_stable_and_uncompressed() {
    let pair = KeyPair::new();
    let first = pair.get_public_key();
    let second = pair.get_public_key();
    assert_eq!(first, second);
    assert_eq!(first.len(), 65);
    assert_eq!(first[0], 0x04);
}

#[test]
fn message_hash_is_sha256_of_message() {
    let pair = KeyPair::new();
    let other = KeyPair::new();
    assert_eq!(
        hex(&pair.sign(b"hello").message_hash),
        "2cf24dba5fb0a30e26e83b2ac5b9e29e1b161e5c1fa7425e73043362938b9824"
    );
    assert_eq!(
        hex(&pair.sign(b"").message_hash),
        "e3b0c44298fc1c149afbf4c8996fb92427ae41e4649b934ca495991b7852b855"
    );
    assert_eq!(pair.sign(b"abc").message_hash, other.sign(b"abc").message_hash);
}

#[test]
fn scalar_of_wrong_length_is_rejected_as_malformed() {
    let pair = KeyPair::new();
    let public_key = pair.get_public_key();
    let c = pair.sign(b"lengths");
    let short = c.r[..31].to_vec();
    let mut long = c.s.clone();
    long.push(0);
    let cases: Vec<(Vec<u8>, Vec<u8>)> = vec![
        (short.clone(), c.s.clone()),
        (c.r.clone(), long.clone()),
        (Vec::new(), c.s.clone()),
        (c.r.clone(), Vec::new()),
        (vec![0u8; 31], vec![0u8; 32]),
    ];
    for (r, s) in cases {
        assert_eq!(
            try_verify_signature(b"lengths", &r, &s, &public_key),
            Err(VerifyError::MalformedScalar)
        );
        assert!(!verify_signature(b"lengths", &r, &s, &public_key));
        assert!(!pair.verify(b"lengths", &r, &s));
    }
}

#[test]
fn scalar_out_of_range_is_rejected() {
    let pair = KeyPair::new();
    let public_key = pair.get_public_key();
    let c = pair.sign(b"range");
    let zero = vec![0u8; 32];
    let order = ORDER.to_vec();
    let all_ones = vec![0xffu8; 32];
    for bad in [&zero, &order, &all_ones] {
        assert_eq!(
            try_verify_signature(b"range", bad, &c.s, &public_key),
            Err(VerifyError::ScalarOutOfRange)
        );
        assert_eq!(
            try_verify_signature(b"range", &c.r, bad, &public_key),
            Err(VerifyError::ScalarOutOfRange)
        );
        assert!(!pair.verify(b"range", &c.r, bad));
    }
    let mut below_order = ORDER.to_vec();
    below_order[31] -= 1;
    assert_eq!(
        try_verify_signature(b"range", &below_order, &c.s, &public_key),
        Err(VerifyError::SignatureMismatch)
    );
}

#[test]
fn malformed_public_key_gives_false() {
    let pair = KeyPair::new();
    let public_key = pair.get_public_key();
    let c = pair.sign(b"keys");
    let mut off_curve = public_key.clone();
    off_curve[64] ^= 1;
    let mut bad_tag = public_key.clone();
    bad_tag[0] = 0x07;
    let cases: Vec<Vec<u8>> = vec![
        Vec::new(),
        vec![0x00],
        public_key[..64].to_vec(),
        [public_key.clone(), vec![0]].concat(),
        off_curve,
        bad_tag,
        vec![0x04; 65],
    ];
    for key in cases {
        assert!(!verify_signature(b"keys", &c.r, &c.s, &key));
        assert_eq!(
            try_verify_signature(b"keys", &c.r, &c.s, &key),
            Err(VerifyError::MalformedPublicKey)
        );
    }
}

#[test]
fn compressed_public_key_is_accepted() {
    let pair = KeyPair::new();
    let public_key = pair.get_public_key();
    let c = pair.sign(b"compressed");
    let tag = if public_key[64] & 1 == 1 { 0x03 } else { 0x02 };
    let mut compressed = vec![tag];
    compressed.extend_from_slice(&public_key[1..33]);
    assert!(verify_signature(b"compressed", &c.r, &c.s, &compressed));
    compressed[0] ^= 1;
    assert_eq!(
        try_verify_signature(b"compressed", &c.r, &c.s, &compressed),
        Err(VerifyError::SignatureMismatch)
    );
}

#[test]
fn hello_scenario() {
    let pair = KeyPair::new();
    let c = pair.sign(b"hello");
    assert_eq!(c.r.len(), 32);
    assert_eq!(c.s.len(), 32);
    assert!(c.r.iter().any(|b| *b != 0));
    assert!(c.s.iter().any(|b| *b != 0));
    assert!(c.r < ORDER.to_vec());
    assert!(c.s < ORDER.to_vec());
    assert!(pair.verify(b"hello", &c.r, &c.s));
    assert!(!pair.verify(b"world", &c.r, &c.s));
}

#[test]
fn independent_key_pairs_have_distinct_public_keys() {
    let mut seen = HashSet::new();
    for _ in 0..200 {
        assert!(seen.insert(KeyPair::new().get_public_key()));
    }
}

#[test]
fn signing_is_deterministic() {
    let pair = KeyPair::new();
    let first = pair.sign(b"same message");
    let second = pair.sign(b"same message");
    assert_eq!(first.r, second.r);
    assert_eq!(first.s, second.s);
    assert_eq!(first.message_hash, second.message_hash);
    let other = pair.sign(b"other message");
    assert_ne!((first.r, first.s), (other.r, other.s));
}

#[test]
fn signature_fails_under_another_key() {
    let pair = KeyPair::new();
    let other = KeyPair::new();
    let c = pair.sign(b"owner");
    assert!(!verify_signature(b"owner", &c.r, &c.s, &other.get_public_key()));
    assert!(!other.verify(b"owner", &c.r, &c.s));
}
