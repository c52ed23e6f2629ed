use curve25519_dalek::scalar::Scalar;
use solana_program::hash::hash;

use stealth::transcript::Transcript;
use stealth::transcript::LABEL_CHALLENGE;
use stealth::transcript::LABEL_COMMITMENT_Y0;
use stealth::transcript::LABEL_DOMAIN;
use stealth::transcript::LABEL_SRC_CIPHERTEXT;
use stealth::transcript::LABEL_SRC_PUBKEY;

/// One absorb step computed directly against the platform hash.
fn absorb(state: &[u8], label: u8, data: &[u8]) -> [u8; 32] {
    let mut buf = Vec::new();
    buf.extend_from_slice(state);
    buf.push(label);
    buf.push(data.len() as u8);
    buf.extend_from_slice(data);
    hash(&buf).to_bytes()
}

#[test]
fn transcript_matches_direct_hash_chain() {
    let value = [0x42u8; 32];
    let chunk = [0x17u8; 64];

    let mut t = Transcript::new();
    t.append64(LABEL_SRC_CIPHERTEXT, &chunk);
    t.append32(LABEL_SRC_PUBKEY, &value);
    t.append32(LABEL_COMMITMENT_Y0, &value);
    let challenge = t.challenge_scalar();

    let s0 = absorb(&[], LABEL_DOMAIN, &[]);
    let s1 = absorb(&s0, LABEL_SRC_CIPHERTEXT, &chunk);
    let s2 = absorb(&s1, LABEL_SRC_PUBKEY, &value);
    let s3 = absorb(&s2, LABEL_COMMITMENT_Y0, &value);
    let digest = absorb(&s3, LABEL_CHALLENGE, &[]);
    let expected = Scalar::from_bytes_mod_order(digest).to_bytes();

    assert_eq!(challenge, expected);
}

#[test]
fn absorb_order_changes_the_challenge() {
    let a = [1u8; 32];
    let b = [2u8; 32];

    let mut t1 = Transcript::new();
    t1.append32(LABEL_SRC_PUBKEY, &a);
    t1.append32(LABEL_COMMITMENT_Y0, &b);

    let mut t2 = Transcript::new();
    t2.append32(LABEL_COMMITMENT_Y0, &b);
    t2.append32(LABEL_SRC_PUBKEY, &a);

    assert_ne!(t1.challenge_scalar(), t2.challenge_scalar());
}

#[test]
fn absorbed_value_changes_the_challenge() {
    let mut t1 = Transcript::new();
    t1.append32(LABEL_SRC_PUBKEY, &[1u8; 32]);
    let mut t2 = Transcript::new();
    t2.append32(LABEL_SRC_PUBKEY, &[3u8; 32]);
    assert_ne!(t1.challenge_scalar(), t2.challenge_scalar());
}

#[test]
fn challenge_is_canonical() {
    let mut t = Transcript::new();
    t.append32(LABEL_SRC_PUBKEY, &[5u8; 32]);
    let c = t.challenge_scalar();
    let parsed: Option<Scalar> = Scalar::from_canonical_bytes(c).into();
    assert!(parsed.is_some());
}
