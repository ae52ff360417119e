use halkeys::Error;
use halkeys::hexs::hex_decode;
use halkeys::hexs::hex_encode;
use halkeys::points::combine;
use halkeys::points::combine_with_negation;
use halkeys::points::negate;
use halkeys::points::negate_negate_round_trip;
use halkeys::points::nums_constant;
use halkeys::points::nums_from_entropy;
use halkeys::points::nums_from_zero_entropy;
use halkeys::points::parse_point;
use halkeys::points::point_uncompressed;
use halkeys::points::tweak_add;
use halkeys::points::tweak_add_zero_identity;
use halkeys::points::Point;

const G_HEX: &str = "0279be667ef9dcbbac55a06295ce870b07029bfcdb2dce28d959f2815b16f81798";
const TWO_G_HEX: &str = "02c6047f9441ed7d6d3045406e95c07cd85c778e4b8cef3ca7abac09b95c709ee5";
const G_UNCOMPRESSED_HEX: &str = "0479be667ef9dcbbac55a06295ce870b07029bfcdb2dce28d959f2815b16f81798483ada7726a3c4655da4fbfc0e1108a8fd17b448a68554199c47d08ffb10d4b8";
const NUMS_H_HEX: &str = "0250929b74c1a04954b78b4b6035e97a5e078a5a0f28ec96d547bfee9ace803ac0";

fn point_from_hex(s: &str) -> Point {
    let bytes = hex_decode(s.as_bytes()).expect("test hex");
    parse_point(&bytes).expect("test point")
}

fn to_hex(b: &[u8]) -> String {
    String::from_utf8(hex_encode(b)).expect("hex is ascii")
}

#[test]
fn negate_changes_the_point() {
    let g = point_from_hex(G_HEX);
    let n = negate(&g);
    assert_ne!(n.bytes, g.bytes);
    assert_eq!(n.bytes.len(), 33);
}

#[test]
fn negate_twice_returns_the_point() {
    let g = point_from_hex(G_HEX);
    let back = negate_negate_round_trip(&g);
    assert_eq!(back.bytes, g.bytes);
    let n = negate(&g);
    let nn = negate(&n);
    assert_eq!(nn.bytes, g.bytes);
}

#[test]
fn tweak_add_zero_returns_the_point() {
    let g = point_from_hex(G_HEX);
    let same = tweak_add_zero_identity(&g);
    assert_eq!(same.bytes, g.bytes);
    let zero = [0u8; 32];
    let same2 = tweak_add(&g, &zero).expect("zero tweak");
    assert_eq!(same2.bytes, g.bytes);
}

#[test]
fn tweak_add_one_to_g_gives_two_g() {
    let g = point_from_hex(G_HEX);
    let mut one = [0u8; 32];
    one[31] = 1;
    let two_g = tweak_add(&g, &one).expect("valid tweak");
    assert_eq!(to_hex(&two_g.bytes), TWO_G_HEX);
}

#[test]
fn tweak_add_rejects_out_of_range_scalar() {
    let g = point_from_hex(G_HEX);
    let too_big = [0xffu8; 32];
    assert_eq!(tweak_add(&g, &too_big), Err(Error::InvalidTweak));
    let short = [1u8; 31];
    assert_eq!(tweak_add(&g, &short), Err(Error::InvalidTweak));
}

#[test]
fn combine_with_negation_fails() {
    let g = point_from_hex(G_HEX);
    assert_eq!(combine_with_negation(&g), Err(Error::InvalidCombination));
    let n = negate(&g);
    assert_eq!(combine(&g, &n), Err(Error::InvalidCombination));
}

#[test]
fn combine_g_with_g_gives_two_g() {
    let g = point_from_hex(G_HEX);
    let sum = combine(&g, &g).expect("distinct points");
    assert_eq!(to_hex(&sum.bytes), TWO_G_HEX);
}

#[test]
fn nums_constant_is_the_fixed_h_point() {
    let h = nums_constant();
    assert_eq!(to_hex(&h.bytes), NUMS_H_HEX);
}

#[test]
fn nums_from_zero_entropy_equals_constant() {
    let zero = [0u8; 32];
    let from_zero = nums_from_entropy(&zero).expect("zero entropy");
    assert_eq!(from_zero.bytes, nums_constant().bytes);
    assert_eq!(nums_from_zero_entropy().bytes, nums_constant().bytes);
}

#[test]
fn nums_from_entropy_differs_from_constant() {
    let mut one = [0u8; 32];
    one[31] = 1;
    let p = nums_from_entropy(&one).expect("valid entropy");
    assert_ne!(p.bytes, nums_constant().bytes);
}

#[test]
fn nums_from_entropy_rejects_out_of_range() {
    let too_big = [0xffu8; 32];
    assert_eq!(nums_from_entropy(&too_big), Err(Error::InvalidTweak));
}

#[test]
fn parse_point_accepts_uncompressed_and_canonicalizes() {
    let bytes = hex_decode(G_UNCOMPRESSED_HEX.as_bytes()).expect("test hex");
    let p = parse_point(&bytes).expect("valid uncompressed point");
    assert_eq!(to_hex(&p.bytes), G_HEX);
}

#[test]
fn uncompressed_serialization_round_trips() {
    let g = point_from_hex(G_HEX);
    let unc = point_uncompressed(&g);
    assert_eq!(to_hex(&unc), G_UNCOMPRESSED_HEX);
    let back = parse_point(&unc).expect("valid point");
    assert_eq!(back.bytes, g.bytes);
}

#[test]
fn parse_point_rejects_non_points() {
    let bytes = hex_decode(
        "020000000000000000000000000000000000000000000000000000000000000000".as_bytes(),
    )
    .expect("test hex");
    assert!(parse_point(&bytes).is_err());
    assert_eq!(parse_point(&[1, 2, 3]), Err(Error::InvalidPointEncoding));
}
