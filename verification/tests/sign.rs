use halkeys::Error;
use halkeys::Network;
use halkeys::keys::derive_public;
use halkeys::keys::key_from_entropy;
use halkeys::sign::sign;
use halkeys::sign::sign_verify_round_trip;
use halkeys::sign::verify;
use halkeys::sign::verify_with_byte_order_hint;
use halkeys::sign::VerifyOutcome;

fn test_key() -> halkeys::keys::PrivateKey {
    let mut entropy = [0u8; 32];
    for (i, b) in entropy.iter_mut().enumerate() {
        *b = (i as u8) + 1;
    }
    key_from_entropy(&entropy, Network::Mainnet).expect("in range")
}

#[test]
fn sign_then_verify_succeeds() {
    let k = test_key();
    let digest = [0xabu8; 32];
    assert!(sign_verify_round_trip(&k, &digest));
    let pk = derive_public(&k);
    let sig = sign(&k, &digest).expect("32-byte digest");
    assert_eq!(sig.len(), 64);
    assert_eq!(verify(&pk, &digest, &sig), Ok(true));
}

#[test]
fn sign_is_deterministic() {
    let k = test_key();
    let digest = [0x11u8; 32];
    let a = sign(&k, &digest).expect("32-byte digest");
    let b = sign(&k, &digest).expect("32-byte digest");
    assert_eq!(a, b);
}

#[test]
fn sign_rejects_wrong_digest_length() {
    let k = test_key();
    assert_eq!(sign(&k, &[0u8; 31]), Err(Error::InvalidDigestLength));
    assert_eq!(sign(&k, &[0u8; 33]), Err(Error::InvalidDigestLength));
}

#[test]
fn verify_rejects_wrong_digest_length() {
    let k = test_key();
    let pk = derive_public(&k);
    let sig = sign(&k, &[0u8; 32]).expect("digest");
    assert_eq!(verify(&pk, &[0u8; 31], &sig), Err(Error::InvalidDigestLength));
}

#[test]
fn verify_fails_for_another_digest() {
    let k = test_key();
    let pk = derive_public(&k);
    let sig = sign(&k, &[0xabu8; 32]).expect("digest");
    assert_eq!(verify(&pk, &[0xcdu8; 32], &sig), Ok(false));
}

#[test]
fn verify_accepts_der_signatures() {
    let k = test_key();
    let pk = derive_public(&k);
    let digest = [0x42u8; 32];
    let compact = sign(&k, &digest).expect("digest");
    let der = bitcoin::secp256k1::ecdsa::Signature::from_compact(&compact)
        .expect("compact form")
        .serialize_der()
        .to_vec();
    assert_ne!(der.len(), 64);
    assert_eq!(verify(&pk, &digest, &der), Ok(true));
}

#[test]
fn verify_rejects_undecodable_signatures() {
    let k = test_key();
    let pk = derive_public(&k);
    assert_eq!(
        verify(&pk, &[0u8; 32], &[1u8, 2, 3]),
        Err(Error::InvalidSignatureEncoding)
    );
    // 64 bytes whose halves overflow the group order parse as no compact
    // signature.
    assert_eq!(
        verify(&pk, &[0u8; 32], &[0xffu8; 64]),
        Err(Error::InvalidSignatureEncoding)
    );
}

#[test]
fn byte_order_hint_detects_reversed_digests() {
    let k = test_key();
    let pk = derive_public(&k);
    let mut digest = [0u8; 32];
    for (i, b) in digest.iter_mut().enumerate() {
        *b = i as u8;
    }
    let mut reversed = digest;
    reversed.reverse();
    // The signature is valid only for the reverse of the digest handed in.
    let sig = sign(&k, &reversed).expect("digest");
    assert_eq!(
        verify_with_byte_order_hint(&pk, &digest, &sig, false, false),
        Ok(VerifyOutcome::ValidReversed)
    );
    assert_eq!(
        verify_with_byte_order_hint(&pk, &digest, &sig, false, true),
        Ok(VerifyOutcome::Invalid)
    );
    assert_eq!(
        verify_with_byte_order_hint(&pk, &reversed, &sig, true, false),
        Ok(VerifyOutcome::ValidAsGiven)
    );
}

#[test]
fn byte_order_hint_reports_invalid_signatures() {
    let k = test_key();
    let pk = derive_public(&k);
    let sig = sign(&k, &[0x55u8; 32]).expect("digest");
    assert_eq!(
        verify_with_byte_order_hint(&pk, &[0x66u8; 32], &sig, false, false),
        Ok(VerifyOutcome::Invalid)
    );
}
