//! ECDSA signing and verification over caller-prepared 32-byte digests, with
//! the explicit byte-order retry heuristic: some hash encodings are
//! conventionally byte-reversed, so a failed check may be retried against the
//! reversed digest and reported as such.

use vstd::prelude::*;

use crate::Error;
use crate::keys::PrivateKey;
use crate::keys::PublicKey;
use crate::points::pubkey_of;
use crate::points::valid_point;
use crate::scalar::secret_in_range;

verus! {

/// The 64-byte compact ECDSA signature of a digest under a secret key, with
/// the deterministic RFC6979 nonce: a function of the two inputs alone.
pub uninterp spec fn ecdsa_sign_of(sk: Seq<u8>, msg: Seq<u8>) -> Seq<u8>;

/// Whether bytes parse as a compact ECDSA signature.
pub uninterp spec fn compact_sig_ok(s: Seq<u8>) -> bool;

/// Whether a compact signature is valid for a digest under a public key; a
/// function of the three inputs alone.
pub uninterp spec fn ecdsa_verify_of(pk: Seq<u8>, msg: Seq<u8>, sig: Seq<u8>) -> bool;

/// What re-encoding a DER signature in compact form returns: the 64 compact
/// bytes of the same algebraic value, or nothing where the bytes are not DER.
pub uninterp spec fn der_sig_of(s: Seq<u8>) -> Option<Seq<u8>>;

/// Relies on secp256k1 `Secp256k1::sign_ecdsa` (RFC6979 nonce) and
/// `serialize_compact`: the signature is determined by the secret key and
/// digest alone, parses as a compact signature, and is valid for the digest
/// under the derived public key.
#[verifier::external_body]
fn ecdsa_sign_compact(sk: &[u8], msg: &[u8]) -> (r: Vec<u8>)
    requires
        secret_in_range(sk@),
        msg@.len() == 32,
    ensures
        r@ == ecdsa_sign_of(sk@, msg@),
        r@.len() == 64,
        compact_sig_ok(r@),
        ecdsa_verify_of(pubkey_of(sk@), msg@, r@),
{
    let secp = bitcoin::secp256k1::Secp256k1::new();
    let k = bitcoin::secp256k1::SecretKey::from_slice(sk).expect("scalar in range");
    let m = bitcoin::secp256k1::Message::from_slice(msg).expect("32 bytes");
    secp.sign_ecdsa(&m, &k).serialize_compact().to_vec()
}

/// Relies on secp256k1 `ecdsa::Signature::from_compact`: whether the bytes
/// parse as a compact signature, which asks 64 bytes.
#[verifier::external_body]
fn check_compact_sig(b: &[u8]) -> (r: bool)
    ensures
        r == compact_sig_ok(b@),
        r ==> b@.len() == 64,
{
    bitcoin::secp256k1::ecdsa::Signature::from_compact(b).is_ok()
}

/// Relies on secp256k1 `Secp256k1::verify_ecdsa`: whether the compact
/// signature is valid for the digest under the public key; a function of the
/// three inputs alone.
#[verifier::external_body]
fn ecdsa_verify_compact(pk: &[u8], msg: &[u8], sig: &[u8]) -> (r: bool)
    requires
        valid_point(pk@),
        msg@.len() == 32,
        compact_sig_ok(sig@),
    ensures
        r == ecdsa_verify_of(pk@, msg@, sig@),
{
    let secp = bitcoin::secp256k1::Secp256k1::new();
    let p = bitcoin::secp256k1::PublicKey::from_slice(pk).expect("canonical point bytes");
    let m = bitcoin::secp256k1::Message::from_slice(msg).expect("32 bytes");
    let s = bitcoin::secp256k1::ecdsa::Signature::from_compact(sig).expect("compact signature");
    secp.verify_ecdsa(&m, &s, &p).is_ok()
}

/// Relies on secp256k1 `ecdsa::Signature::from_der` and `serialize_compact`:
/// re-expresses a DER signature as the 64-byte compact form of the same
/// algebraic value, failing exactly where the bytes are not DER.
#[verifier::external_body]
fn sig_der_to_compact(b: &[u8]) -> (r: Option<Vec<u8>>)
    ensures
        r is Some <==> der_sig_of(b@) is Some,
        r matches Some(c) ==> der_sig_of(b@) == Some(c@) && c@.len() == 64 && compact_sig_ok(c@),
{
    match bitcoin::secp256k1::ecdsa::Signature::from_der(b) {
        Ok(s) => Some(s.serialize_compact().to_vec()),
        Err(_) => None,
    }
}

/// The algebraic value of signature text, as compact bytes: 64-byte input is
/// read as the compact form itself, anything else as DER. An explicit
/// two-branch decode by length, not an exception-driven fallback.
pub open spec fn sig_decoded(s: Seq<u8>) -> Option<Seq<u8>> {
    if s.len() == 64 {
        if compact_sig_ok(s) {
            Some(s)
        } else {
            Option::<Seq<u8>>::None
        }
    } else {
        der_sig_of(s)
    }
}

/// Sign a caller-prepared 32-byte digest with ECDSA. Fails with
/// `InvalidDigestLength` exactly where the digest is not 32 bytes. The
/// signature is deterministic in the key and digest, and verifies under the
/// derived public key: the sign/verify round trip holds by contract.
pub fn sign(k: &PrivateKey, digest: &[u8]) -> (r: Result<Vec<u8>, Error>)
    requires
        k.wf(),
    ensures
        r is Ok <==> digest@.len() == 32,
        r matches Ok(sig) ==> sig@ == ecdsa_sign_of(k.key@, digest@) && sig@.len() == 64
            && compact_sig_ok(sig@) && ecdsa_verify_of(pubkey_of(k.key@), digest@, sig@),
        r matches Err(e) ==> e == Error::InvalidDigestLength,
{
    if digest.len() != 32 {
        return Err(Error::InvalidDigestLength);
    }
    Ok(ecdsa_sign_compact(k.key.as_slice(), digest))
}

/// Whether a signature, in compact or DER text, is valid for a 32-byte
/// digest under a public key. Fails with `InvalidDigestLength` or
/// `InvalidSignatureEncoding` exactly where an input has no reading;
/// verification failure itself is the `Ok(false)` result, never an error.
pub fn verify(pk: &PublicKey, digest: &[u8], sig: &[u8]) -> (r: Result<bool, Error>)
    requires
        pk.wf(),
    ensures
        digest@.len() != 32 ==> r == Err::<bool, Error>(Error::InvalidDigestLength),
        digest@.len() == 32 && sig_decoded(sig@) is None ==> r == Err::<bool, Error>(
            Error::InvalidSignatureEncoding,
        ),
        digest@.len() == 32 && sig_decoded(sig@) is Some ==> r == Ok::<bool, Error>(
            ecdsa_verify_of(pk.point@, digest@, sig_decoded(sig@)->Some_0),
        ),
{
    if digest.len() != 32 {
        return Err(Error::InvalidDigestLength);
    }
    if sig.len() == 64 {
        if check_compact_sig(sig) {
            Ok(ecdsa_verify_compact(pk.point.bytes.as_slice(), digest, sig))
        } else {
            Err(Error::InvalidSignatureEncoding)
        }
    } else {
        match sig_der_to_compact(sig) {
            Some(c) => Ok(ecdsa_verify_compact(pk.point.bytes.as_slice(), digest, c.as_slice())),
            None => Err(Error::InvalidSignatureEncoding),
        }
    }
}

/// Law: a signature fresh from `sign` verifies under the derived public key,
/// for any private key and 32-byte digest.
pub fn sign_verify_round_trip(k: &PrivateKey, digest: &[u8]) -> (ok: bool)
    requires
        k.wf(),
        digest@.len() == 32,
    ensures
        ok,
{
    let pk = crate::keys::derive_public(k);
    let sig = match sign(k, digest) {
        Ok(s) => s,
        Err(_) => vstd::pervasive::unreached(),
    };
    match verify(&pk, digest, sig.as_slice()) {
        Ok(b) => b,
        Err(_) => vstd::pervasive::unreached(),
    }
}

/// A byte string in reverse order.
pub open spec fn reversed(s: Seq<u8>) -> Seq<u8> {
    Seq::new(s.len(), |i: int| s[s.len() - 1 - i])
}

/// Reverse a byte string.
pub fn reverse_bytes(b: &[u8]) -> (r: Vec<u8>)
    ensures
        r@ == reversed(b@),
{
    let mut out: Vec<u8> = Vec::new();
    let mut i: usize = b.len();
    while i > 0
        invariant
            0 <= i <= b@.len(),
            out@.len() == b@.len() - i,
            forall|j: int| 0 <= j < out@.len() ==> out@[j] == b@[b@.len() - 1 - j],
        decreases i,
    {
        i -= 1;
        out.push(b[i]);
    }
    proof {
        assert(out@ =~= reversed(b@));
    }
    out
}

/// The outcome of verification with the byte-order heuristic.
#[derive(Clone, Copy, PartialEq, Eq, Structural, Debug)]
pub enum VerifyOutcome {
    /// The signature is valid for the digest as given.
    ValidAsGiven,
    /// The signature is invalid as given but valid for the byte-reversed
    /// digest: the caller probably supplied the digest in the wrong byte
    /// order.
    ValidReversed,
    /// The signature is valid under neither reading (or the retry was
    /// suppressed).
    Invalid,
}

/// Verify with the byte-order heuristic: check the digest as given (the
/// caller has already reversed it where `reversed_already` says so — the
/// flag never changes the outcome, only the hint a caller may print), and on
/// failure, unless suppressed, retry against the byte-reversed digest.
///
/// The heuristic deliberately tries full byte reversal of the 32-byte digest
/// and nothing else.
pub fn verify_with_byte_order_hint(
    pk: &PublicKey,
    digest: &[u8],
    sig: &[u8],
    reversed_already: bool,
    suppress_retry: bool,
) -> (r: Result<VerifyOutcome, Error>)
    requires
        pk.wf(),
    ensures
        digest@.len() != 32 ==> r == Err::<VerifyOutcome, Error>(Error::InvalidDigestLength),
        digest@.len() == 32 && sig_decoded(sig@) is None ==> r == Err::<VerifyOutcome, Error>(
            Error::InvalidSignatureEncoding,
        ),
        digest@.len() == 32 && sig_decoded(sig@) is Some ==> ({
            let c = sig_decoded(sig@)->Some_0;
            if ecdsa_verify_of(pk.point@, digest@, c) {
                r == Ok::<VerifyOutcome, Error>(VerifyOutcome::ValidAsGiven)
            } else if !suppress_retry && ecdsa_verify_of(pk.point@, reversed(digest@), c) {
                r == Ok::<VerifyOutcome, Error>(VerifyOutcome::ValidReversed)
            } else {
                r == Ok::<VerifyOutcome, Error>(VerifyOutcome::Invalid)
            }
        }),
{
    let primary = match verify(pk, digest, sig) {
        Ok(b) => b,
        Err(e) => {
            return Err(e);
        },
    };
    if primary {
        return Ok(VerifyOutcome::ValidAsGiven);
    }
    if suppress_retry {
        return Ok(VerifyOutcome::Invalid);
    }
    let rev = reverse_bytes(digest);
    let retry = match verify(pk, rev.as_slice(), sig) {
        Ok(b) => b,
        Err(e) => {
            return Err(e);
        },
    };
    if retry {
        Ok(VerifyOutcome::ValidReversed)
    } else {
        Ok(VerifyOutcome::Invalid)
    }
}

} // verus!
