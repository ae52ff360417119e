//! The two address text codecs, base58check and bech32, as named external
//! primitives. Address text is handled as ASCII bytes.

use vstd::prelude::*;

verus! {

/// The base58check text of a byte payload.
pub uninterp spec fn b58c_text_of(d: Seq<u8>) -> Seq<u8>;

/// What decoding base58check text returns: the carried payload, or nothing
/// where the text is not base58check (bad character, bad checksum, too
/// short).
pub uninterp spec fn b58c_decode_of(s: Seq<u8>) -> Option<Seq<u8>>;

/// The checksummed bech32 (bech32m where the flag is set) text of a
/// human-readable part, a witness-version digit and an 8-to-5-bit regrouped
/// program.
pub uninterp spec fn segwit_text_of(hrp: Seq<u8>, version: u8, program: Seq<u8>, bech32m: bool) -> Seq<u8>;

/// What decoding bech32 text returns: the lower-cased human-readable part,
/// the 5-bit data values, and whether the bech32m checksum was used; nothing
/// where the text is well-formed under neither variant.
pub uninterp spec fn bech32_decode_of(s: Seq<u8>) -> Option<(Seq<u8>, Seq<u8>, bool)>;

/// What regrouping 5-bit values into bytes returns: the packed bytes, or
/// nothing where the values leave non-zero padding bits.
pub uninterp spec fn base32_bytes_of(d: Seq<u8>) -> Option<Seq<u8>>;

/// A human-readable part this library emits: non-empty, at most 83 bytes,
/// lower-case ASCII letters.
pub open spec fn valid_hrp(h: Seq<u8>) -> bool {
    1 <= h.len() <= 83 && (forall|i: int| 0 <= i < h.len() ==> 0x61 <= #[trigger] h[i] <= 0x7a)
}

/// Whether bech32 text decodes to the given human-readable part and checksum
/// variant, with 5-bit data made of the version digit followed by 5-bit
/// values that regroup into the given program bytes.
pub open spec fn segwit_decodes_to(
    s: Seq<u8>,
    hrp: Seq<u8>,
    version: u8,
    program: Seq<u8>,
    bech32m: bool,
) -> bool {
    &&& bech32_decode_of(s) is Some
    &&& (bech32_decode_of(s)->Some_0).0 == hrp
    &&& (bech32_decode_of(s)->Some_0).2 == bech32m
    &&& (bech32_decode_of(s)->Some_0).1.len() >= 1
    &&& (bech32_decode_of(s)->Some_0).1[0] == version
    &&& base32_bytes_of((bech32_decode_of(s)->Some_0).1.skip(1)) == Some(program)
}

/// Relies on bitcoin base58 `check_encode_slice`: the base58check text of the
/// payload, which `from_check` decodes back to the same payload.
#[verifier::external_body]
pub(crate) fn base58check_encode(d: &[u8]) -> (r: Vec<u8>)
    ensures
        r@ == b58c_text_of(d@),
        b58c_decode_of(r@) == Some(d@),
{
    bitcoin::util::base58::check_encode_slice(d).into_bytes()
}

/// Relies on bitcoin base58 `from_check`: returns the payload carried by
/// base58check text, failing exactly where the text is not base58check.
#[verifier::external_body]
pub(crate) fn base58check_decode(s: &[u8]) -> (r: Option<Vec<u8>>)
    ensures
        r is Some <==> b58c_decode_of(s@) is Some,
        r matches Some(d) ==> b58c_decode_of(s@) == Some(d@),
{
    let text = match core::str::from_utf8(s) {
        Ok(t) => t,
        Err(_) => return None,
    };
    match bitcoin::util::base58::from_check(text) {
        Ok(d) => Some(d),
        Err(_) => None,
    }
}

/// Relies on bech32 `encode`, `u5::try_from_u8` and `ToBase32`: the
/// checksummed text of the human-readable part and the 5-bit data made of
/// the version digit followed by the regrouped program bytes; `decode` and
/// byte regrouping return exactly those parts again.
#[verifier::external_body]
pub(crate) fn segwit_encode(hrp: &[u8], version: u8, program: &[u8], bech32m: bool) -> (r: Vec<u8>)
    requires
        valid_hrp(hrp@),
        version < 32,
    ensures
        r@ == segwit_text_of(hrp@, version, program@, bech32m),
        segwit_decodes_to(r@, hrp@, version, program@, bech32m),
{
    let text = core::str::from_utf8(hrp).expect("lower-case ascii letters");
    let mut data: Vec<bech32::u5> =
        vec![bech32::u5::try_from_u8(version).expect("below 32")];
    data.extend_from_slice(&bech32::ToBase32::to_base32(&program));
    let variant = if bech32m {
        bech32::Variant::Bech32m
    } else {
        bech32::Variant::Bech32
    };
    bech32::encode(text, data, variant).expect("valid hrp").into_bytes()
}

/// Relies on bech32 `decode`: splits checksummed bech32 or bech32m text into
/// the lower-cased human-readable part, the 5-bit data values (each below
/// 32), and which checksum variant closed it; fails exactly where the text is
/// well-formed under neither variant.
#[verifier::external_body]
pub(crate) fn bech32_decode(s: &[u8]) -> (r: Option<(Vec<u8>, Vec<u8>, bool)>)
    ensures
        r is Some <==> bech32_decode_of(s@) is Some,
        r matches Some(t) ==> bech32_decode_of(s@) == Some((t.0@, t.1@, t.2)),
        r matches Some(t) ==> forall|i: int| 0 <= i < t.1@.len() ==> t.1@[i] < 32,
{
    let text = match core::str::from_utf8(s) {
        Ok(t) => t,
        Err(_) => return None,
    };
    match bech32::decode(text) {
        Ok((hrp, data, variant)) => Some((
            hrp.into_bytes(),
            data.iter().map(|d| d.to_u8()).collect(),
            matches!(variant, bech32::Variant::Bech32m),
        )),
        Err(_) => None,
    }
}

/// Relies on bech32 `FromBase32` for `Vec<u8>`: regroups 5-bit values into
/// bytes, failing exactly where the values leave non-zero padding bits.
#[verifier::external_body]
pub(crate) fn base32_to_bytes(d5: &[u8]) -> (r: Option<Vec<u8>>)
    requires
        forall|i: int| 0 <= i < d5@.len() ==> d5@[i] < 32,
    ensures
        r is Some <==> base32_bytes_of(d5@) is Some,
        r matches Some(b) ==> base32_bytes_of(d5@) == Some(b@),
{
    let mut vals: Vec<bech32::u5> = Vec::with_capacity(d5.len());
    for v in d5 {
        vals.push(bech32::u5::try_from_u8(*v).expect("below 32"));
    }
    match <Vec<u8> as bech32::FromBase32>::from_base32(&vals) {
        Ok(b) => Some(b),
        Err(_) => None,
    }
}

} // verus!
