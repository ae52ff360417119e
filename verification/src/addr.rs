//! Address derivation and classification.
//!
//! Derivation builds every standard address text reachable from a public key
//! or a script; classification takes an address text back apart into network,
//! payload and type tag. The text codecs (base58check, bech32) and digests
//! are external primitives; every byte of structure around them is verified.

use vstd::prelude::*;

use crate::Error;
use crate::Network;
use crate::codec::b58c_decode_of;
use crate::codec::b58c_text_of;
use crate::codec::base32_bytes_of;
use crate::codec::base58check_decode;
use crate::codec::base58check_encode;
use crate::codec::bech32_decode;
use crate::codec::bech32_decode_of;
use crate::codec::segwit_decodes_to;
use crate::codec::segwit_encode;
use crate::codec::segwit_text_of;
use crate::codec::valid_hrp;
use crate::hashes::hash160;
use crate::hashes::hash160_of;
use crate::hashes::sha256;
use crate::hashes::sha256_of;
use crate::keys::PublicKey;
use crate::points::uncompressed_of;
use crate::push_bytes;
use crate::sub_bytes;

verus! {

/// The bech32 human-readable part of a network.
pub open spec fn hrp_of(n: Network) -> Seq<u8> {
    match n {
        Network::Mainnet => seq![0x62u8, 0x63],
        Network::Testnet => seq![0x74u8, 0x62],
        Network::Regtest => seq![0x62u8, 0x63, 0x72, 0x74],
    }
}

/// The network a bech32 human-readable part denotes, if any.
pub open spec fn spec_hrp_network(h: Seq<u8>) -> Option<Network> {
    if h == hrp_of(Network::Mainnet) {
        Some(Network::Mainnet)
    } else if h == hrp_of(Network::Testnet) {
        Some(Network::Testnet)
    } else if h == hrp_of(Network::Regtest) {
        Some(Network::Regtest)
    } else {
        None
    }
}

/// The base58check version byte of a pay-to-pubkey-hash address.
pub open spec fn p2pkh_version_byte(n: Network) -> u8 {
    match n {
        Network::Mainnet => 0x00,
        Network::Testnet => 0x6f,
        Network::Regtest => 0x6f,
    }
}

/// The base58check version byte of a pay-to-script-hash address.
pub open spec fn p2sh_version_byte(n: Network) -> u8 {
    match n {
        Network::Mainnet => 0x05,
        Network::Testnet => 0xc4,
        Network::Regtest => 0xc4,
    }
}

/// The text of a base58check address: one version byte, then a 20-byte hash.
pub open spec fn base58_addr_text(version: u8, hash: Seq<u8>) -> Seq<u8> {
    b58c_text_of(seq![version] + hash)
}

/// The text of a segwit address: the network's human-readable part, the
/// witness version, and the program; version 0 uses the bech32 checksum,
/// higher versions bech32m.
pub open spec fn segwit_addr_text(n: Network, version: u8, program: Seq<u8>) -> Seq<u8> {
    segwit_text_of(hrp_of(n), version, program, version != 0)
}

/// The script a pay-to-pubkey-hash address commits to.
pub open spec fn p2pkh_script_pubkey(h: Seq<u8>) -> Seq<u8> {
    seq![0x76u8, 0xa9, 0x14] + h + seq![0x88u8, 0xac]
}

/// The script a pay-to-script-hash address commits to.
pub open spec fn p2sh_script_pubkey(h: Seq<u8>) -> Seq<u8> {
    seq![0xa9u8, 0x14] + h + seq![0x87u8]
}

/// The script a witness address commits to: the version opcode, then the
/// program as one direct push.
pub open spec fn witness_script_pubkey(version: u8, program: Seq<u8>) -> Seq<u8>
    recommends
        version <= 16,
        2 <= program.len() <= 40,
{
    seq![
        if version == 0 {
            0u8
        } else {
            (0x50 + version) as u8
        },
        program.len() as u8,
    ] + program
}

/// The witness script whose hash a wrapped pay-to-witness-pubkey-hash
/// address commits to: a version-0 program of the key hash.
pub open spec fn p2wpkh_witness_script(keyhash: Seq<u8>) -> Seq<u8> {
    seq![0x00u8, 0x14] + keyhash
}

/// The serialized form of a public key: compressed or uncompressed per its
/// flag.
pub open spec fn pubkey_ser(point: Seq<u8>, compressed: bool) -> Seq<u8> {
    if compressed {
        point
    } else {
        uncompressed_of(point)
    }
}

/// The bech32 human-readable part of a network, as a value.
pub fn hrp_bytes(n: Network) -> (r: Vec<u8>)
    ensures
        r@ == hrp_of(n),
        valid_hrp(r@),
{
    let r: Vec<u8> = match n {
        Network::Mainnet => vec![0x62u8, 0x63],
        Network::Testnet => vec![0x74u8, 0x62],
        Network::Regtest => vec![0x62u8, 0x63, 0x72, 0x74],
    };
    proof {
        assert(r@ =~= hrp_of(n));
    }
    r
}

/// The network a bech32 human-readable part denotes, if any.
fn hrp_network(h: &[u8]) -> (r: Option<Network>)
    ensures
        r == spec_hrp_network(h@),
{
    if h.len() == 2 && h[0] == 0x62 && h[1] == 0x63 {
        proof {
            assert(h@ =~= hrp_of(Network::Mainnet));
        }
        Some(Network::Mainnet)
    } else if h.len() == 2 && h[0] == 0x74 && h[1] == 0x62 {
        proof {
            assert(h@ =~= hrp_of(Network::Testnet));
        }
        Some(Network::Testnet)
    } else if h.len() == 4 && h[0] == 0x62 && h[1] == 0x63 && h[2] == 0x72 && h[3] == 0x74 {
        proof {
            assert(h@ =~= hrp_of(Network::Regtest));
        }
        Some(Network::Regtest)
    } else {
        None
    }
}

/// A base58check address text from a version byte and a hash.
fn base58_address(version: u8, hash: &[u8]) -> (r: Vec<u8>)
    ensures
        r@ == base58_addr_text(version, hash@),
        b58c_decode_of(r@) == Some(seq![version] + hash@),
{
    let mut payload: Vec<u8> = Vec::new();
    payload.push(version);
    push_bytes(&mut payload, hash);
    proof {
        assert(payload@ =~= seq![version] + hash@);
    }
    base58check_encode(payload.as_slice())
}

/// A segwit address text from a network, version and program.
pub fn segwit_address(n: Network, version: u8, program: &[u8]) -> (r: Vec<u8>)
    requires
        version <= 16,
    ensures
        r@ == segwit_addr_text(n, version, program@),
        segwit_decodes_to(r@, hrp_of(n), version, program@, version != 0),
{
    let hrp = hrp_bytes(n);
    segwit_encode(hrp.as_slice(), version, program, version != 0)
}

/// Every standard address encoding for which a bare public key is a valid
/// witness.
pub struct PubkeyAddresses {
    /// Pay-to-pubkey-hash, over the key's serialized form.
    pub p2pkh: Vec<u8>,
    /// Pay-to-script-hash wrapping pay-to-witness-pubkey-hash, over the
    /// compressed form.
    pub p2sh_p2wpkh: Vec<u8>,
    /// Native pay-to-witness-pubkey-hash, over the compressed form.
    pub p2wpkh: Vec<u8>,
}

/// Derive the three standard addresses of a public key. Never fails for a
/// valid key.
pub fn from_public_key(pk: &PublicKey, network: Network) -> (r: PubkeyAddresses)
    requires
        pk.wf(),
    ensures
        r.p2pkh@ == base58_addr_text(
            p2pkh_version_byte(network),
            hash160_of(pubkey_ser(pk.point@, pk.compressed)),
        ),
        r.p2sh_p2wpkh@ == base58_addr_text(
            p2sh_version_byte(network),
            hash160_of(p2wpkh_witness_script(hash160_of(pk.point@))),
        ),
        r.p2wpkh@ == segwit_addr_text(network, 0, hash160_of(pk.point@)),
        segwit_decodes_to(r.p2wpkh@, hrp_of(network), 0, hash160_of(pk.point@), false),
        hash160_of(pk.point@).len() == 20,
{
    let ser: Vec<u8> = if pk.compressed {
        sub_bytes(pk.point.bytes.as_slice(), 0, pk.point.bytes.len())
    } else {
        crate::points::point_uncompressed(&pk.point)
    };
    proof {
        if pk.compressed {
            assert(pk.point.bytes@.subrange(0, pk.point.bytes@.len() as int) =~= pk.point@);
        }
    }
    let keyhash = hash160(pk.point.bytes.as_slice());
    let serhash = hash160(ser.as_slice());

    let mut witness_script: Vec<u8> = vec![0x00u8, 0x14];
    push_bytes(&mut witness_script, keyhash.as_slice());
    proof {
        assert(witness_script@ =~= p2wpkh_witness_script(hash160_of(pk.point@)));
    }
    let nested_hash = hash160(witness_script.as_slice());

    PubkeyAddresses {
        p2pkh: base58_address(
            match network {
                Network::Mainnet => 0x00,
                Network::Testnet => 0x6f,
                Network::Regtest => 0x6f,
            },
            serhash.as_slice(),
        ),
        p2sh_p2wpkh: base58_address(
            match network {
                Network::Mainnet => 0x05,
                Network::Testnet => 0xc4,
                Network::Regtest => 0xc4,
            },
            nested_hash.as_slice(),
        ),
        p2wpkh: segwit_address(network, 0, keyhash.as_slice()),
    }
}

/// The two standard addresses of a raw script.
pub struct ScriptAddresses {
    /// Pay-to-script-hash.
    pub p2sh: Vec<u8>,
    /// Native pay-to-witness-script-hash.
    pub p2wsh: Vec<u8>,
}

/// Derive the two standard addresses of a script. A taproot address is
/// produced separately, only where an internal key source is supplied.
pub fn from_script(script: &[u8], network: Network) -> (r: ScriptAddresses)
    ensures
        r.p2sh@ == base58_addr_text(p2sh_version_byte(network), hash160_of(script@)),
        r.p2wsh@ == segwit_addr_text(network, 0, sha256_of(script@)),
        segwit_decodes_to(r.p2wsh@, hrp_of(network), 0, sha256_of(script@), false),
{
    let scripthash = hash160(script);
    let wits_hash = sha256(script);
    ScriptAddresses {
        p2sh: base58_address(
            match network {
                Network::Mainnet => 0x05,
                Network::Testnet => 0xc4,
                Network::Regtest => 0xc4,
            },
            scripthash.as_slice(),
        ),
        p2wsh: segwit_address(network, 0, wits_hash.as_slice()),
    }
}

/// The structural type of a classified address.
#[derive(Clone, Copy, PartialEq, Eq, Structural, Debug)]
pub enum AddrTag {
    P2pkh,
    P2sh,
    P2wpkh,
    P2wsh,
    /// A version-0 witness program whose length is neither 20 nor 32: a
    /// classification outcome, not a parse failure.
    InvalidWitnessProgram,
    /// A witness program of version 1 through 16: reported without further
    /// decomposition.
    UnknownWitnessVersion,
}

/// The structural report of a classified address.
#[derive(PartialEq, Eq, Debug)]
pub struct AddressInfo {
    pub network: Network,
    pub tag: AddrTag,
    /// The script the address commits to.
    pub script_pubkey: Vec<u8>,
    /// The decoded pubkey hash, for `P2pkh` only.
    pub pubkey_hash: Option<Vec<u8>>,
    /// The decoded script hash, for `P2sh` only.
    pub script_hash: Option<Vec<u8>>,
    /// The decoded witness pubkey hash, for `P2wpkh` only.
    pub witness_pubkey_hash: Option<Vec<u8>>,
    /// The decoded witness script hash, for `P2wsh` only.
    pub witness_script_hash: Option<Vec<u8>>,
    /// The witness version, for any witness program.
    pub witness_program_version: Option<u8>,
    /// The raw witness program, for any witness program.
    pub witness_program: Option<Vec<u8>>,
}

/// What a well-formed witness-program report holds, given its network,
/// version and program.
pub open spec fn witness_info_ok(net: Network, version: u8, program: Seq<u8>, info: AddressInfo) -> bool {
    &&& info.network == net
    &&& info.witness_program_version == Some(version)
    &&& (info.witness_program matches Some(p) && p@ == program)
    &&& info.script_pubkey@ == witness_script_pubkey(version, program)
    &&& info.pubkey_hash is None
    &&& info.script_hash is None
    &&& if version != 0 {
        &&& info.tag == AddrTag::UnknownWitnessVersion
        &&& info.witness_pubkey_hash is None
        &&& info.witness_script_hash is None
    } else if program.len() == 20 {
        &&& info.tag == AddrTag::P2wpkh
        &&& (info.witness_pubkey_hash matches Some(h) && h@ == program)
        &&& info.witness_script_hash is None
    } else if program.len() == 32 {
        &&& info.tag == AddrTag::P2wsh
        &&& info.witness_pubkey_hash is None
        &&& (info.witness_script_hash matches Some(h) && h@ == program)
    } else {
        &&& info.tag == AddrTag::InvalidWitnessProgram
        &&& info.witness_pubkey_hash is None
        &&& info.witness_script_hash is None
    }
}

/// What a well-formed base58check report holds.
pub open spec fn base58_info_ok(net: Network, is_p2sh: bool, hash: Seq<u8>, info: AddressInfo) -> bool {
    &&& info.network == net
    &&& info.witness_program_version is None
    &&& info.witness_program is None
    &&& info.witness_pubkey_hash is None
    &&& info.witness_script_hash is None
    &&& if is_p2sh {
        &&& info.tag == AddrTag::P2sh
        &&& (info.script_hash matches Some(h) && h@ == hash)
        &&& info.pubkey_hash is None
        &&& info.script_pubkey@ == p2sh_script_pubkey(hash)
    } else {
        &&& info.tag == AddrTag::P2pkh
        &&& (info.pubkey_hash matches Some(h) && h@ == hash)
        &&& info.script_hash is None
        &&& info.script_pubkey@ == p2pkh_script_pubkey(hash)
    }
}

/// The network and kind a base58check address payload denotes, if any:
/// 21 bytes led by a known version byte.
pub open spec fn spec_b58_class(d: Seq<u8>) -> Option<(Network, bool)> {
    if d.len() != 21 {
        None
    } else if d[0] == 0x00 {
        Some((Network::Mainnet, false))
    } else if d[0] == 0x05 {
        Some((Network::Mainnet, true))
    } else if d[0] == 0x6f {
        Some((Network::Testnet, false))
    } else if d[0] == 0xc4 {
        Some((Network::Testnet, true))
    } else {
        None
    }
}

/// What classification returns for bech32 text that decodes to
/// human-readable part `h`, 5-bit data `d` and variant flag `m`.
pub open spec fn segwit_class_post(h: Seq<u8>, d: Seq<u8>, m: bool, r: Result<AddressInfo, Error>) -> bool {
    if spec_hrp_network(h) is None {
        r == Err::<AddressInfo, Error>(Error::InvalidAddress)
    } else if d.len() == 0 {
        r == Err::<AddressInfo, Error>(Error::InvalidAddress)
    } else {
        let version = d[0];
        if version > 16 || ((version == 0) == m) {
            r == Err::<AddressInfo, Error>(Error::InvalidAddress)
        } else if base32_bytes_of(d.skip(1)) is None {
            r == Err::<AddressInfo, Error>(Error::InvalidAddress)
        } else {
            let program = base32_bytes_of(d.skip(1))->Some_0;
            if program.len() < 2 || program.len() > 40 {
                r == Err::<AddressInfo, Error>(Error::InvalidAddress)
            } else {
                r is Ok && witness_info_ok(spec_hrp_network(h)->Some_0, version, program, r->Ok_0)
            }
        }
    }
}

/// What classification returns for base58check text whose payload is `d`.
pub open spec fn base58_class_post(d: Seq<u8>, r: Result<AddressInfo, Error>) -> bool {
    if spec_b58_class(d) is None {
        r == Err::<AddressInfo, Error>(Error::InvalidAddress)
    } else {
        let c = spec_b58_class(d)->Some_0;
        r is Ok && base58_info_ok(c.0, c.1, d.subrange(1, 21), r->Ok_0)
    }
}

/// What classification returns for any address text: bech32 is tried first,
/// then base58check; text decodable under neither fails with
/// `InvalidAddress`.
pub open spec fn classify_post(s: Seq<u8>, r: Result<AddressInfo, Error>) -> bool {
    if bech32_decode_of(s) is Some {
        let t = bech32_decode_of(s)->Some_0;
        segwit_class_post(t.0, t.1, t.2, r)
    } else if b58c_decode_of(s) is Some {
        base58_class_post(b58c_decode_of(s)->Some_0, r)
    } else {
        r == Err::<AddressInfo, Error>(Error::InvalidAddress)
    }
}

/// Classify an address text into network, payload and type tag.
///
/// Fails with `InvalidAddress` exactly where the text is not decodable at
/// all; a version-0 witness program of non-standard length is a successful
/// classification (`InvalidWitnessProgram`), never a parse failure.
pub fn classify(text: &[u8]) -> (r: Result<AddressInfo, Error>)
    ensures
        classify_post(text@, r),
{
    match bech32_decode(text) {
        Some((hrp, data5, m)) => {
            let network = match hrp_network(hrp.as_slice()) {
                Some(n) => n,
                None => {
                    return Err(Error::InvalidAddress);
                },
            };
            if data5.len() == 0 {
                return Err(Error::InvalidAddress);
            }
            let version = data5[0];
            if version > 16 || ((version == 0) == m) {
                return Err(Error::InvalidAddress);
            }
            let rest = sub_bytes(data5.as_slice(), 1, data5.len());
            proof {
                assert(rest@ =~= data5@.skip(1));
            }
            let program = match crate::codec::base32_to_bytes(rest.as_slice()) {
                Some(p) => p,
                None => {
                    return Err(Error::InvalidAddress);
                },
            };
            if program.len() < 2 || program.len() > 40 {
                return Err(Error::InvalidAddress);
            }
            let mut spk: Vec<u8> = Vec::new();
            spk.push(
                if version == 0 {
                    0x00u8
                } else {
                    0x50u8 + version
                },
            );
            spk.push(program.len() as u8);
            push_bytes(&mut spk, program.as_slice());
            proof {
                assert(spk@ =~= witness_script_pubkey(version, program@));
            }
            proof {
                assert(program@.subrange(0, program@.len() as int) =~= program@);
            }
            let is20 = program.len() == 20;
            let is32 = program.len() == 32;
            Ok(AddressInfo {
                network,
                tag: if version != 0 {
                    AddrTag::UnknownWitnessVersion
                } else if is20 {
                    AddrTag::P2wpkh
                } else if is32 {
                    AddrTag::P2wsh
                } else {
                    AddrTag::InvalidWitnessProgram
                },
                script_pubkey: spk,
                pubkey_hash: None,
                script_hash: None,
                witness_pubkey_hash: if version == 0 && is20 {
                    Some(sub_bytes(program.as_slice(), 0, program.len()))
                } else {
                    None
                },
                witness_script_hash: if version == 0 && is32 {
                    Some(sub_bytes(program.as_slice(), 0, program.len()))
                } else {
                    None
                },
                witness_program_version: Some(version),
                witness_program: Some(program),
            })
        },
        None => {
            match base58check_decode(text) {
                Some(d) => {
                    if d.len() != 21 {
                        return Err(Error::InvalidAddress);
                    }
                    let v = d[0];
                    let hash = sub_bytes(d.as_slice(), 1, 21);
                    let (network, is_p2sh): (Network, bool) = if v == 0x00 {
                        (Network::Mainnet, false)
                    } else if v == 0x05 {
                        (Network::Mainnet, true)
                    } else if v == 0x6f {
                        (Network::Testnet, false)
                    } else if v == 0xc4 {
                        (Network::Testnet, true)
                    } else {
                        return Err(Error::InvalidAddress);
                    };
                    proof {
                        assert(hash@.subrange(0, hash@.len() as int) =~= hash@);
                    }
                    let mut spk: Vec<u8> = Vec::new();
                    if is_p2sh {
                        spk.push(0xa9);
                        spk.push(0x14);
                        push_bytes(&mut spk, hash.as_slice());
                        spk.push(0x87);
                        proof {
                            assert(spk@ =~= p2sh_script_pubkey(d@.subrange(1, 21)));
                        }
                    } else {
                        spk.push(0x76);
                        spk.push(0xa9);
                        spk.push(0x14);
                        push_bytes(&mut spk, hash.as_slice());
                        spk.push(0x88);
                        spk.push(0xac);
                        proof {
                            assert(spk@ =~= p2pkh_script_pubkey(d@.subrange(1, 21)));
                        }
                    }
                    Ok(AddressInfo {
                        network,
                        tag: if is_p2sh {
                            AddrTag::P2sh
                        } else {
                            AddrTag::P2pkh
                        },
                        script_pubkey: spk,
                        pubkey_hash: if is_p2sh {
                            None
                        } else {
                            Some(sub_bytes(hash.as_slice(), 0, hash.len()))
                        },
                        script_hash: if is_p2sh {
                            Some(sub_bytes(hash.as_slice(), 0, hash.len()))
                        } else {
                            None
                        },
                        witness_pubkey_hash: None,
                        witness_script_hash: None,
                        witness_program_version: None,
                        witness_program: None,
                    })
                },
                None => Err(Error::InvalidAddress),
            }
        },
    }
}

/// Law: the native segwit key address derived from a public key classifies
/// back as pay-to-witness-pubkey-hash on the same network, carrying exactly
/// the key hash the derivation computed.
pub fn classify_p2wpkh_round_trip(pk: &PublicKey, network: Network) -> (info: AddressInfo)
    requires
        pk.wf(),
    ensures
        info.tag == AddrTag::P2wpkh,
        info.network == network,
        (info.witness_pubkey_hash matches Some(h) && h@ == hash160_of(pk.point@)),
{
    let set = from_public_key(pk, network);
    proof {
        lemma_hrp_network_of(network);
    }
    match classify(set.p2wpkh.as_slice()) {
        Ok(info) => info,
        Err(_) => vstd::pervasive::unreached(),
    }
}

/// Each network's human-readable part maps back to that network.
proof fn lemma_hrp_network_of(n: Network)
    ensures
        spec_hrp_network(hrp_of(n)) == Some(n),
{
    match n {
        Network::Mainnet => {
        },
        Network::Testnet => {
            assert(hrp_of(Network::Testnet) != hrp_of(Network::Mainnet)) by {
                assert(hrp_of(Network::Testnet)[0] == 0x74);
                assert(hrp_of(Network::Mainnet)[0] == 0x62);
            }
        },
        Network::Regtest => {
            assert(hrp_of(Network::Regtest) != hrp_of(Network::Mainnet)) by {
                assert(hrp_of(Network::Regtest).len() == 4);
                assert(hrp_of(Network::Mainnet).len() == 2);
            }
            assert(hrp_of(Network::Regtest) != hrp_of(Network::Testnet)) by {
                assert(hrp_of(Network::Regtest).len() == 4);
                assert(hrp_of(Network::Testnet).len() == 2);
            }
        },
    }
}

} // verus!
