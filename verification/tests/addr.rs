use halkeys::Error;
use halkeys::Network;
use halkeys::addr::classify;
use halkeys::addr::classify_p2wpkh_round_trip;
use halkeys::addr::from_public_key;
use halkeys::addr::from_script;
use halkeys::addr::segwit_address;
use halkeys::addr::AddrTag;
use halkeys::hexs::hex_decode;
use halkeys::hexs::hex_encode;
use halkeys::keys::parse_public_key;
use halkeys::taproot::build_taproot_address;
use halkeys::taproot::resolve_internal_key_source;
use halkeys::taproot::InternalKeySource;
use halkeys::points::nums_constant;

const G_HEX: &str = "0279be667ef9dcbbac55a06295ce870b07029bfcdb2dce28d959f2815b16f81798";
const G_HASH160_HEX: &str = "751e76e8199196d454941c45d1b3a323f1433bd6";

fn to_hex(b: &[u8]) -> String {
    String::from_utf8(hex_encode(b)).expect("hex is ascii")
}

fn text(b: &[u8]) -> String {
    String::from_utf8(b.to_vec()).expect("address text is ascii")
}

#[test]
fn addresses_of_the_base_point_match_known_values() {
    let pk = parse_public_key(G_HEX.as_bytes()).expect("test point");
    let set = from_public_key(&pk, Network::Mainnet);
    assert_eq!(text(&set.p2pkh), "1BgGZ9tcN4rm9KBzDn7KprQz87SZ26SAMH");
    assert_eq!(text(&set.p2wpkh), "bc1qw508d6qejxtdg4y5r3zarvary0c5xw7kv8f3t4");
}

#[test]
fn p2wpkh_classify_round_trip_recovers_the_key_hash() {
    let pk = parse_public_key(G_HEX.as_bytes()).expect("test point");
    let info = classify_p2wpkh_round_trip(&pk, Network::Mainnet);
    assert_eq!(info.tag, AddrTag::P2wpkh);
    assert_eq!(info.network, Network::Mainnet);
    assert_eq!(to_hex(&info.witness_pubkey_hash.expect("p2wpkh hash")), G_HASH160_HEX);
}

#[test]
fn classify_reads_a_p2pkh_address() {
    let info = classify(b"1BgGZ9tcN4rm9KBzDn7KprQz87SZ26SAMH").expect("valid address");
    assert_eq!(info.tag, AddrTag::P2pkh);
    assert_eq!(info.network, Network::Mainnet);
    assert_eq!(to_hex(&info.pubkey_hash.expect("p2pkh hash")), G_HASH160_HEX);
    assert_eq!(
        to_hex(&info.script_pubkey),
        "76a914751e76e8199196d454941c45d1b3a323f1433bd688ac"
    );
    assert!(info.script_hash.is_none());
    assert!(info.witness_program_version.is_none());
}

#[test]
fn classify_reads_a_p2wpkh_address() {
    let info = classify(b"bc1qw508d6qejxtdg4y5r3zarvary0c5xw7kv8f3t4").expect("valid address");
    assert_eq!(info.tag, AddrTag::P2wpkh);
    assert_eq!(info.network, Network::Mainnet);
    assert_eq!(info.witness_program_version, Some(0));
    assert_eq!(to_hex(&info.witness_pubkey_hash.expect("hash")), G_HASH160_HEX);
    assert_eq!(
        to_hex(&info.script_pubkey),
        "0014751e76e8199196d454941c45d1b3a323f1433bd6"
    );
}

#[test]
fn p2wsh_of_the_base_point_checksig_script_matches_known_value() {
    let script = hex_decode(
        "210279be667ef9dcbbac55a06295ce870b07029bfcdb2dce28d959f2815b16f81798ac".as_bytes(),
    )
    .expect("test hex");
    let set = from_script(&script, Network::Mainnet);
    assert_eq!(
        text(&set.p2wsh),
        "bc1qrp33g0q5c5txsp9arysrx4k6zdkfs4nce4xj0gdcccefvpysxf3qccfmv3"
    );
}

#[test]
fn script_addresses_classify_back() {
    let script = hex_decode(
        "210279be667ef9dcbbac55a06295ce870b07029bfcdb2dce28d959f2815b16f81798ac".as_bytes(),
    )
    .expect("test hex");
    let set = from_script(&script, Network::Testnet);
    let p2sh = classify(&set.p2sh).expect("valid p2sh");
    assert_eq!(p2sh.tag, AddrTag::P2sh);
    assert_eq!(p2sh.network, Network::Testnet);
    let p2wsh = classify(&set.p2wsh).expect("valid p2wsh");
    assert_eq!(p2wsh.tag, AddrTag::P2wsh);
    assert_eq!(p2wsh.network, Network::Testnet);
    assert_eq!(p2wsh.witness_program_version, Some(0));
    assert_eq!(
        p2wsh.witness_script_hash.expect("hash").len(),
        32
    );
}

#[test]
fn classify_reports_invalid_witness_program_for_length_21() {
    let program = [7u8; 21];
    let addr = segwit_address(Network::Mainnet, 0, &program);
    let info = classify(&addr).expect("decodable address");
    assert_eq!(info.tag, AddrTag::InvalidWitnessProgram);
    assert_eq!(info.witness_program_version, Some(0));
    assert_eq!(info.witness_program.expect("program").len(), 21);
    assert!(info.witness_pubkey_hash.is_none());
    assert!(info.witness_script_hash.is_none());
}

#[test]
fn classify_reports_unknown_witness_version() {
    let program = [7u8; 20];
    let addr = segwit_address(Network::Testnet, 2, &program);
    let info = classify(&addr).expect("decodable address");
    assert_eq!(info.tag, AddrTag::UnknownWitnessVersion);
    assert_eq!(info.witness_program_version, Some(2));
    assert_eq!(info.network, Network::Testnet);
}

#[test]
fn classify_rejects_undecodable_text() {
    assert_eq!(classify(b"not an address"), Err(Error::InvalidAddress));
    assert_eq!(classify(b""), Err(Error::InvalidAddress));
    // A valid checksum over a payload that is not 21 bytes long.
    let odd = bitcoin::util::base58::check_encode_slice(&[1u8, 2, 3]).into_bytes();
    assert_eq!(classify(&odd), Err(Error::InvalidAddress));
}

#[test]
fn classify_rejects_wrong_checksum_variant() {
    // Witness version 1 must use bech32m; encoding it with bech32 decodes
    // but does not classify.
    let program = [7u8; 32];
    let mut data = vec![bech32::u5::try_from_u8(1).expect("below 32")];
    data.extend(bech32::ToBase32::to_base32(&program.as_slice()));
    let addr = bech32::encode("bc", data, bech32::Variant::Bech32).expect("valid hrp");
    assert_eq!(classify(addr.as_bytes()), Err(Error::InvalidAddress));
}

#[test]
fn ambiguous_internal_key_source_is_rejected() {
    let h = nums_constant();
    let entropy = vec![9u8; 32];
    let r = resolve_internal_key_source(Some(h), false, Some(entropy));
    assert_eq!(r, Err(Error::AmbiguousInternalKeySource));
}

#[test]
fn internal_key_source_resolves_each_single_option() {
    let h = nums_constant();
    match resolve_internal_key_source(Some(h), false, None) {
        Ok(Some(InternalKeySource::Explicit(_))) => {},
        other => panic!("expected an explicit source, got {:?}", other.is_ok()),
    }
    match resolve_internal_key_source(None, true, None) {
        Ok(Some(InternalKeySource::FixedConstant)) => {},
        _ => panic!("expected the fixed constant"),
    }
    match resolve_internal_key_source(None, false, Some(vec![9u8; 32])) {
        Ok(Some(InternalKeySource::EntropyDerived(e))) => assert_eq!(e, vec![9u8; 32]),
        _ => panic!("expected an entropy-derived source"),
    }
    match resolve_internal_key_source(None, false, None) {
        Ok(None) => {},
        _ => panic!("expected no source"),
    }
}

#[test]
fn taproot_address_builds_from_the_fixed_constant() {
    let script = hex_decode("51".as_bytes()).expect("test hex");
    let addr = build_taproot_address(&script, &InternalKeySource::FixedConstant, Network::Mainnet)
        .expect("fixed constant never fails");
    let t = text(&addr);
    assert!(t.starts_with("bc1p"), "taproot addresses are bech32m version 1: {}", t);
    let info = classify(addr.as_slice()).expect("decodable");
    assert_eq!(info.tag, AddrTag::UnknownWitnessVersion);
    assert_eq!(info.witness_program_version, Some(1));
    assert_eq!(info.witness_program.expect("program").len(), 32);
}

#[test]
fn taproot_address_from_entropy_rejects_bad_entropy() {
    let script = [0x51u8];
    let too_big = vec![0xffu8; 32];
    assert_eq!(
        build_taproot_address(&script, &InternalKeySource::EntropyDerived(too_big), Network::Mainnet),
        Err(Error::InvalidTweak)
    );
}

#[test]
fn taproot_zero_entropy_matches_fixed_constant() {
    let script = [0x51u8];
    let a = build_taproot_address(&script, &InternalKeySource::FixedConstant, Network::Mainnet)
        .expect("never fails");
    let b = build_taproot_address(
        &script,
        &InternalKeySource::EntropyDerived(vec![0u8; 32]),
        Network::Mainnet,
    )
    .expect("zero entropy is valid");
    assert_eq!(a, b);
}
