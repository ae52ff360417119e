use halkeys::Error;
use halkeys::Network;
use halkeys::hexs::hex_decode;
use halkeys::hexs::hex_encode;
use halkeys::keys::derive_public;
use halkeys::keys::derive_public_deterministic;
use halkeys::keys::inspect;
use halkeys::keys::key_from_entropy;
use halkeys::keys::parse_private_key;
use halkeys::keys::parse_public_key;
use halkeys::keys::wif_encode;
use halkeys::keys::PrivateKey;

const G_HEX: &str = "0279be667ef9dcbbac55a06295ce870b07029bfcdb2dce28d959f2815b16f81798";
const ONE_HEX: &str = "0000000000000000000000000000000000000000000000000000000000000001";
const ORDER_HEX: &str = "fffffffffffffffffffffffffffffffebaaedce6af48a03bbfd25e8cd0364141";

fn to_hex(b: &[u8]) -> String {
    String::from_utf8(hex_encode(b)).expect("hex is ascii")
}

fn key_one(network: Network) -> PrivateKey {
    let mut key = vec![0u8; 32];
    key[31] = 1;
    key_from_entropy(&key, network).expect("one is in range")
}

#[test]
fn derive_public_of_one_is_the_base_point() {
    let k = key_one(Network::Mainnet);
    let p = derive_public(&k);
    assert_eq!(to_hex(&p.point.bytes), G_HEX);
    assert!(p.compressed);
}

#[test]
fn derive_public_is_deterministic() {
    let k = key_one(Network::Mainnet);
    assert!(derive_public_deterministic(&k));
    let a = derive_public(&k);
    let b = derive_public(&k);
    assert_eq!(a.point.bytes, b.point.bytes);
}

#[test]
fn parse_private_key_accepts_raw_hex() {
    let k = parse_private_key(ONE_HEX.as_bytes(), Network::Testnet).expect("hex scalar");
    assert_eq!(to_hex(&k.key), ONE_HEX);
    assert!(k.compressed);
    assert_eq!(k.network, Network::Testnet);
}

#[test]
fn parse_private_key_rejects_zero_scalar() {
    let zero = "0000000000000000000000000000000000000000000000000000000000000000";
    assert_eq!(
        parse_private_key(zero.as_bytes(), Network::Mainnet),
        Err(Error::ScalarOutOfRange)
    );
}

#[test]
fn parse_private_key_rejects_order_scalar() {
    assert_eq!(
        parse_private_key(ORDER_HEX.as_bytes(), Network::Mainnet),
        Err(Error::ScalarOutOfRange)
    );
}

#[test]
fn parse_private_key_rejects_garbage() {
    assert_eq!(
        parse_private_key(b"not a key at all", Network::Mainnet),
        Err(Error::InvalidKeyEncoding)
    );
    assert_eq!(
        parse_private_key(b"abcd", Network::Mainnet),
        Err(Error::InvalidKeyEncoding)
    );
}

#[test]
fn wif_round_trips_compressed_mainnet() {
    let k = key_one(Network::Mainnet);
    let wif = wif_encode(&k);
    assert_eq!(
        String::from_utf8(wif.clone()).expect("ascii"),
        "KwDiBf89QgGbjEhKnhXJuH7LrciVrZi3qYjgd9M7rFU73sVHnoWn"
    );
    let back = parse_private_key(&wif, Network::Regtest).expect("valid wif");
    assert_eq!(back.key, k.key);
    assert!(back.compressed);
    assert_eq!(back.network, Network::Mainnet);
}

#[test]
fn wif_round_trips_uncompressed_testnet() {
    let mut k = key_one(Network::Testnet);
    k.compressed = false;
    let wif = wif_encode(&k);
    let back = parse_private_key(&wif, Network::Mainnet).expect("valid wif");
    assert_eq!(back.key, k.key);
    assert!(!back.compressed);
    assert_eq!(back.network, Network::Testnet);
}

#[test]
fn key_from_entropy_rejects_zero_and_order() {
    let zero = [0u8; 32];
    assert_eq!(
        key_from_entropy(&zero, Network::Mainnet),
        Err(Error::ScalarOutOfRange)
    );
    let order = hex_decode(ORDER_HEX.as_bytes()).expect("test hex");
    assert_eq!(
        key_from_entropy(&order, Network::Mainnet),
        Err(Error::ScalarOutOfRange)
    );
}

#[test]
fn key_from_entropy_accepts_order_minus_one() {
    let mut bytes = hex_decode(ORDER_HEX.as_bytes()).expect("test hex");
    let last = bytes.len() - 1;
    bytes[last] -= 1;
    let k = key_from_entropy(&bytes, Network::Mainnet).expect("n-1 is in range");
    assert_eq!(k.key, bytes);
}

#[test]
fn parse_public_key_reads_both_forms() {
    let c = parse_public_key(G_HEX.as_bytes()).expect("compressed");
    assert!(c.compressed);
    assert_eq!(to_hex(&c.point.bytes), G_HEX);
    let unc_hex = "0479be667ef9dcbbac55a06295ce870b07029bfcdb2dce28d959f2815b16f81798483ada7726a3c4655da4fbfc0e1108a8fd17b448a68554199c47d08ffb10d4b8";
    let u = parse_public_key(unc_hex.as_bytes()).expect("uncompressed");
    assert!(!u.compressed);
    assert_eq!(to_hex(&u.point.bytes), G_HEX);
}

#[test]
fn parse_public_key_distinguishes_errors() {
    assert_eq!(parse_public_key(b"zz"), Err(Error::InvalidHex));
    assert_eq!(
        parse_public_key(
            "020000000000000000000000000000000000000000000000000000000000000000".as_bytes()
        ),
        Err(Error::InvalidPointEncoding)
    );
}

#[test]
fn inspect_reports_every_field() {
    let k = key_one(Network::Mainnet);
    let info = inspect(&k);
    assert_eq!(info.network, Network::Mainnet);
    assert!(info.compressed);
    assert_eq!(String::from_utf8(info.secret_hex).expect("ascii"), ONE_HEX);
    assert_eq!(
        String::from_utf8(info.wif).expect("ascii"),
        "KwDiBf89QgGbjEhKnhXJuH7LrciVrZi3qYjgd9M7rFU73sVHnoWn"
    );
    assert_eq!(String::from_utf8(info.public_key_hex).expect("ascii"), G_HEX);
    assert_eq!(info.uncompressed_public_key_hex.len(), 130);
}
