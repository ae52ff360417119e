//! Private and public keys: parsing from text, derivation, and inspection.
//!
//! A private key arrives either in its network-encoded text form (WIF:
//! base58check around a version byte, the scalar, and an optional compression
//! marker) or as a raw hex scalar with a network hint. A public key arrives
//! as compressed or uncompressed point hex.

use vstd::prelude::*;

use crate::Error;
use crate::Network;
use crate::codec::b58c_decode_of;
use crate::codec::b58c_text_of;
use crate::codec::base58check_decode;
use crate::codec::base58check_encode;
use crate::hexs::hex_decode;
use crate::hexs::hex_decode_ok;
use crate::hexs::hex_decoded;
use crate::hexs::hex_encode;
use crate::hexs::hex_encoded;
use crate::points::Point;
use crate::points::derive_point;
use crate::points::parse_point;
use crate::points::point_decode_of;
use crate::points::point_uncompressed;
use crate::points::pubkey_of;
use crate::points::uncompressed_of;
use crate::push_bytes;
use crate::scalar::check_secret_range;
use crate::scalar::secret_in_range;
use crate::sub_bytes;

verus! {

/// A private key: a secret scalar, the network its text form is encoded for,
/// and whether the derived public key serializes compressed.
#[derive(PartialEq, Eq, Debug)]
pub struct PrivateKey {
    pub key: Vec<u8>,
    pub compressed: bool,
    pub network: Network,
}

impl PrivateKey {
    /// Well-formed: the scalar lies in `[1, n-1]`.
    pub open spec fn wf(&self) -> bool {
        secret_in_range(self.key@)
    }
}

/// A public key: a curve point and whether it serializes compressed. The
/// flag affects only the serialized form, never the algebraic identity.
#[derive(PartialEq, Eq, Debug)]
pub struct PublicKey {
    pub point: Point,
    pub compressed: bool,
}

impl PublicKey {
    pub open spec fn wf(&self) -> bool {
        self.point.wf()
    }
}

/// The version byte that prefixes a WIF private key on this network.
pub open spec fn wif_version_byte(n: Network) -> u8 {
    match n {
        Network::Mainnet => 0x80,
        Network::Testnet => 0xef,
        Network::Regtest => 0xef,
    }
}

/// The base58check payload of a WIF private key: version byte, scalar, and a
/// trailing `0x01` marker exactly where the key is compressed.
pub open spec fn wif_payload(key: Seq<u8>, network: Network, compressed: bool) -> Seq<u8> {
    seq![wif_version_byte(network)] + key + if compressed {
        seq![0x01u8]
    } else {
        Seq::<u8>::empty()
    }
}

/// Whether a decoded base58check payload has the shape of a WIF private key:
/// a known version byte, 32 scalar bytes, and either no marker or the
/// compression marker `0x01`.
pub open spec fn wif_structure_ok(d: Seq<u8>) -> bool {
    &&& (d.len() == 33 || d.len() == 34)
    &&& (d[0] == 0x80 || d[0] == 0xef)
    &&& (d.len() == 34 ==> d[33] == 0x01)
}

pub open spec fn wif_key_bytes(d: Seq<u8>) -> Seq<u8> {
    d.subrange(1, 33)
}

pub open spec fn wif_compressed(d: Seq<u8>) -> bool {
    d.len() == 34
}

pub open spec fn wif_network(d: Seq<u8>) -> Network {
    if d[0] == 0x80 {
        Network::Mainnet
    } else {
        Network::Testnet
    }
}

/// Whether text decodes as base58check into a WIF-shaped payload.
pub open spec fn wif_candidate(s: Seq<u8>) -> bool {
    b58c_decode_of(s) is Some && wif_structure_ok(b58c_decode_of(s)->Some_0)
}

/// Whether text is the hex of exactly 32 bytes.
pub open spec fn hex_candidate(s: Seq<u8>) -> bool {
    hex_decode_ok(s) && hex_decoded(s).len() == 32
}

/// The WIF text of a private key.
pub fn wif_encode(k: &PrivateKey) -> (r: Vec<u8>)
    requires
        k.wf(),
    ensures
        r@ == b58c_text_of(wif_payload(k.key@, k.network, k.compressed)),
        b58c_decode_of(r@) == Some(wif_payload(k.key@, k.network, k.compressed)),
{
    let mut payload: Vec<u8> = Vec::new();
    payload.push(match k.network {
        Network::Mainnet => 0x80,
        Network::Testnet => 0xef,
        Network::Regtest => 0xef,
    });
    push_bytes(&mut payload, k.key.as_slice());
    if k.compressed {
        payload.push(0x01);
    }
    proof {
        assert(payload@ =~= wif_payload(k.key@, k.network, k.compressed));
    }
    base58check_encode(payload.as_slice())
}

/// Parse a private key from WIF text or from a raw 32-byte hex scalar.
///
/// WIF text carries its own network and compression; a raw hex scalar takes
/// the caller's network hint and defaults to compressed. Fails with
/// `ScalarOutOfRange` where the recognized form carries a scalar outside
/// `[1, n-1]`, and with `InvalidKeyEncoding` where neither form parses.
pub fn parse_private_key(text: &[u8], network_hint: Network) -> (r: Result<PrivateKey, Error>)
    ensures
        wif_candidate(text@) ==> ({
            let d = b58c_decode_of(text@)->Some_0;
            if secret_in_range(wif_key_bytes(d)) {
                r is Ok && r->Ok_0.key@ == wif_key_bytes(d) && r->Ok_0.compressed
                    == wif_compressed(d) && r->Ok_0.network == wif_network(d)
            } else {
                r == Err::<PrivateKey, Error>(Error::ScalarOutOfRange)
            }
        }),
        !wif_candidate(text@) && hex_candidate(text@) ==> ({
            if secret_in_range(hex_decoded(text@)) {
                r is Ok && r->Ok_0.key@ == hex_decoded(text@) && r->Ok_0.compressed == true
                    && r->Ok_0.network == network_hint
            } else {
                r == Err::<PrivateKey, Error>(Error::ScalarOutOfRange)
            }
        }),
        !wif_candidate(text@) && !hex_candidate(text@) ==> r == Err::<PrivateKey, Error>(
            Error::InvalidKeyEncoding,
        ),
        r matches Ok(k) ==> k.wf(),
{
    match base58check_decode(text) {
        Some(d) => {
            let shape_ok = if d.len() == 33 || d.len() == 34 {
                (d[0] == 0x80 || d[0] == 0xef) && (if d.len() == 34 {
                    d[33] == 0x01
                } else {
                    true
                })
            } else {
                false
            };
            if shape_ok {
                let keyb = sub_bytes(d.as_slice(), 1, 33);
                if check_secret_range(keyb.as_slice()) {
                    let network = if d[0] == 0x80 {
                        Network::Mainnet
                    } else {
                        Network::Testnet
                    };
                    let compressed = d.len() == 34;
                    return Ok(PrivateKey { key: keyb, compressed, network });
                } else {
                    return Err(Error::ScalarOutOfRange);
                }
            }
        },
        None => {},
    }
    match hex_decode(text) {
        Ok(b) => {
            if b.len() == 32 {
                if check_secret_range(b.as_slice()) {
                    Ok(PrivateKey { key: b, compressed: true, network: network_hint })
                } else {
                    Err(Error::ScalarOutOfRange)
                }
            } else {
                Err(Error::InvalidKeyEncoding)
            }
        },
        Err(_) => Err(Error::InvalidKeyEncoding),
    }
}

/// Parse a public key from compressed or uncompressed point hex. Fails with
/// `InvalidHex` where the text is not hex, and with `InvalidPointEncoding`
/// where the bytes encode no curve point.
pub fn parse_public_key(text: &[u8]) -> (r: Result<PublicKey, Error>)
    ensures
        !hex_decode_ok(text@) ==> r == Err::<PublicKey, Error>(Error::InvalidHex),
        hex_decode_ok(text@) && point_decode_of(hex_decoded(text@)) is None ==> r == Err::<
            PublicKey,
            Error,
        >(Error::InvalidPointEncoding),
        hex_decode_ok(text@) && point_decode_of(hex_decoded(text@)) is Some ==> r is Ok
            && r->Ok_0.wf() && point_decode_of(hex_decoded(text@)) == Some(r->Ok_0.point@)
            && r->Ok_0.compressed == (hex_decoded(text@).len() == 33),
{
    let bytes = match hex_decode(text) {
        Ok(b) => b,
        Err(_) => {
            return Err(Error::InvalidHex);
        },
    };
    let compressed = bytes.len() == 33;
    match parse_point(bytes.as_slice()) {
        Ok(p) => Ok(PublicKey { point: p, compressed }),
        Err(e) => Err(e),
    }
}

/// The public key `k*G` of a private key, inheriting the compression flag.
/// The point is a function of the scalar alone: repeated derivation returns
/// byte-identical points.
pub fn derive_public(k: &PrivateKey) -> (r: PublicKey)
    requires
        k.wf(),
    ensures
        r.wf(),
        r.point@ == pubkey_of(k.key@),
        r.compressed == k.compressed,
{
    PublicKey { point: derive_point(k.key.as_slice()), compressed: k.compressed }
}

/// A private key from 32 caller-supplied entropy bytes. The entropy is
/// consumed, never generated here. Fails with `ScalarOutOfRange` where the
/// bytes fall outside `[1, n-1]`.
pub fn key_from_entropy(entropy: &[u8], network: Network) -> (r: Result<PrivateKey, Error>)
    ensures
        r is Ok <==> secret_in_range(entropy@),
        r matches Ok(k) ==> k.wf() && k.key@ == entropy@ && k.compressed == true && k.network
            == network,
        r matches Err(e) ==> e == Error::ScalarOutOfRange,
{
    if check_secret_range(entropy) {
        let key = sub_bytes(entropy, 0, entropy.len());
        proof {
            assert(entropy@.subrange(0, entropy@.len() as int) =~= entropy@);
        }
        Ok(PrivateKey { key, compressed: true, network })
    } else {
        Err(Error::ScalarOutOfRange)
    }
}

/// Law: public-key derivation is deterministic — two derivations of one
/// private key return byte-identical points.
pub fn derive_public_deterministic(k: &PrivateKey) -> (r: bool)
    requires
        k.wf(),
    ensures
        r,
{
    let first = derive_public(k);
    let second = derive_public(k);
    crate::bytes_eq(first.point.bytes.as_slice(), second.point.bytes.as_slice())
}

/// The structural report of a private key: its network and compression, the
/// raw scalar hex, the WIF text, and the derived public key in compressed
/// and uncompressed hex.
pub struct KeyInfo {
    pub network: Network,
    pub compressed: bool,
    pub secret_hex: Vec<u8>,
    pub wif: Vec<u8>,
    pub public_key_hex: Vec<u8>,
    pub uncompressed_public_key_hex: Vec<u8>,
}

/// Inspect a private key. Pure: every field is a function of the key.
pub fn inspect(k: &PrivateKey) -> (r: KeyInfo)
    requires
        k.wf(),
    ensures
        r.network == k.network,
        r.compressed == k.compressed,
        r.secret_hex@ == hex_encoded(k.key@),
        r.wif@ == b58c_text_of(wif_payload(k.key@, k.network, k.compressed)),
        r.public_key_hex@ == hex_encoded(pubkey_of(k.key@)),
        r.uncompressed_public_key_hex@ == hex_encoded(uncompressed_of(pubkey_of(k.key@))),
{
    let public = derive_public(k);
    let uncompressed = point_uncompressed(&public.point);
    KeyInfo {
        network: k.network,
        compressed: k.compressed,
        secret_hex: hex_encode(k.key.as_slice()),
        wif: wif_encode(k),
        public_key_hex: hex_encode(public.point.bytes.as_slice()),
        uncompressed_public_key_hex: hex_encode(uncompressed.as_slice()),
    }
}

} // verus!
