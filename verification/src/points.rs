//! Curve-point algebra: negation, scalar-tweak addition, point combination,
//! and the fixed "no known secret" internal-key constant.
//!
//! A point is held in its canonical 33-byte compressed encoding. The curve
//! group arithmetic itself is an external primitive (secp256k1); what each
//! primitive returns is named and related here, and everything around the
//! calls is verified.

use vstd::prelude::*;

use crate::Error;
use crate::scalar::be_bytes_val;
use crate::scalar::check_tweak_range;
use crate::scalar::group_order;
use crate::scalar::group_order_bytes;
use crate::scalar::lemma_be_bytes_val_zero;
use crate::scalar::secret_in_range;
use crate::scalar::tweak_in_range;
use crate::scalar::zero32;

verus! {

/// What parsing a point encoding returns: the canonical compressed bytes of
/// the encoded point, or nothing where the bytes encode no curve point.
pub uninterp spec fn point_decode_of(s: Seq<u8>) -> Option<Seq<u8>>;

/// The canonical compressed bytes of the additive inverse of a point.
pub uninterp spec fn negate_of(s: Seq<u8>) -> Seq<u8>;

/// The canonical compressed bytes of `P + t*G`, or nothing where that sum is
/// the point at infinity.
pub uninterp spec fn tweak_add_of(p: Seq<u8>, t: Seq<u8>) -> Option<Seq<u8>>;

/// The canonical compressed bytes of `P1 + P2`, or nothing where that sum is
/// the point at infinity.
pub uninterp spec fn combine_of(a: Seq<u8>, b: Seq<u8>) -> Option<Seq<u8>>;

/// The canonical compressed bytes of `k*G` for a secret scalar `k`.
pub uninterp spec fn pubkey_of(sk: Seq<u8>) -> Seq<u8>;

/// The 65-byte uncompressed encoding of the point with the given canonical
/// compressed encoding.
pub uninterp spec fn uncompressed_of(p: Seq<u8>) -> Seq<u8>;

/// A canonical public-key encoding: 33 bytes that parse as a curve point and
/// re-serialize, compressed, to themselves.
pub open spec fn valid_point(s: Seq<u8>) -> bool {
    s.len() == 33 && point_decode_of(s) == Some(s)
}

/// The compressed encoding of the BIP-341 "nothing up my sleeve" point `H`:
/// the hash of the uncompressed encoding of the secp256k1 base point,
/// read as an X coordinate.
pub open spec fn nums_h_bytes() -> Seq<u8> {
    seq![
        0x02u8, 0x50, 0x92, 0x9b, 0x74, 0xc1, 0xa0, 0x49, 0x54, 0xb7, 0x8b, 0x4b, 0x60, 0x35,
        0xe9, 0x7a, 0x5e, 0x07, 0x8a, 0x5a, 0x0f, 0x28, 0xec, 0x96, 0xd5, 0x47, 0xbf, 0xee,
        0x9a, 0xce, 0x80, 0x3a, 0xc0,
    ]
}

/// Relies on secp256k1 `PublicKey::from_slice` and `serialize`: accepts
/// exactly the valid 33- or 65-byte point encodings and re-serializes the
/// point compressed; a compressed serialization parses back to itself.
#[verifier::external_body]
fn ec_point_decode(b: &[u8]) -> (r: Result<Vec<u8>, Error>)
    ensures
        r is Ok <==> point_decode_of(b@) is Some,
        r matches Ok(v) ==> point_decode_of(b@) == Some(v@) && valid_point(v@),
        r matches Err(e) ==> e == Error::InvalidPointEncoding,
{
    match bitcoin::secp256k1::PublicKey::from_slice(b) {
        Ok(pk) => Ok(pk.serialize().to_vec()),
        Err(_) => Err(Error::InvalidPointEncoding),
    }
}

/// Relies on secp256k1 `PublicKey::negate`: returns the additive inverse of
/// the point; negating the inverse returns the original point.
#[verifier::external_body]
fn ec_negate(p: &[u8]) -> (r: Vec<u8>)
    requires
        valid_point(p@),
    ensures
        r@ == negate_of(p@),
        valid_point(r@),
        negate_of(r@) == p@,
{
    let secp = bitcoin::secp256k1::Secp256k1::new();
    let pk = bitcoin::secp256k1::PublicKey::from_slice(p).expect("canonical point bytes");
    pk.negate(&secp).serialize().to_vec()
}

/// Relies on secp256k1 `PublicKey::add_exp_tweak`: returns `P + t*G`, with an
/// error exactly where that sum is the point at infinity; a zero tweak
/// returns the point unchanged.
#[verifier::external_body]
fn ec_tweak_add(p: &[u8], t: &[u8]) -> (r: Result<Vec<u8>, Error>)
    requires
        valid_point(p@),
        tweak_in_range(t@),
    ensures
        r is Ok <==> tweak_add_of(p@, t@) is Some,
        r matches Ok(v) ==> tweak_add_of(p@, t@) == Some(v@) && valid_point(v@),
        r matches Err(e) ==> e == Error::InvalidTweak,
        be_bytes_val(t@) == 0 ==> r is Ok && r->Ok_0@ == p@,
{
    let secp = bitcoin::secp256k1::Secp256k1::new();
    let pk = bitcoin::secp256k1::PublicKey::from_slice(p).expect("canonical point bytes");
    let mut arr = [0u8; 32];
    arr.copy_from_slice(t);
    let tweak = bitcoin::secp256k1::Scalar::from_be_bytes(arr).expect("tweak below group order");
    match pk.add_exp_tweak(&secp, &tweak) {
        Ok(q) => Ok(q.serialize().to_vec()),
        Err(_) => Err(Error::InvalidTweak),
    }
}

/// Relies on secp256k1 `PublicKey::combine`: returns `P1 + P2`, with an error
/// exactly where the sum is the point at infinity, that is, exactly where the
/// second point is the negation of the first.
#[verifier::external_body]
fn ec_combine(a: &[u8], b: &[u8]) -> (r: Result<Vec<u8>, Error>)
    requires
        valid_point(a@),
        valid_point(b@),
    ensures
        r is Ok <==> combine_of(a@, b@) is Some,
        r matches Ok(v) ==> combine_of(a@, b@) == Some(v@) && valid_point(v@),
        r is Err <==> b@ == negate_of(a@),
        r matches Err(e) ==> e == Error::InvalidCombination,
{
    let pa = bitcoin::secp256k1::PublicKey::from_slice(a).expect("canonical point bytes");
    let pb = bitcoin::secp256k1::PublicKey::from_slice(b).expect("canonical point bytes");
    match pa.combine(&pb) {
        Ok(sum) => Ok(sum.serialize().to_vec()),
        Err(_) => Err(Error::InvalidCombination),
    }
}

/// Relies on secp256k1 `SecretKey::from_slice` and
/// `PublicKey::from_secret_key`: the public key `k*G` of a secret scalar,
/// which `from_slice` accepts exactly for 32 bytes in `[1, n-1]`.
#[verifier::external_body]
fn ec_derive_pubkey(sk: &[u8]) -> (r: Vec<u8>)
    requires
        secret_in_range(sk@),
    ensures
        r@ == pubkey_of(sk@),
        valid_point(r@),
{
    let secp = bitcoin::secp256k1::Secp256k1::new();
    let k = bitcoin::secp256k1::SecretKey::from_slice(sk).expect("scalar in range");
    bitcoin::secp256k1::PublicKey::from_secret_key(&secp, &k).serialize().to_vec()
}

/// Relies on secp256k1 `PublicKey::serialize_uncompressed`: the 65-byte
/// uncompressed form of the same point, which parses back to the compressed
/// form.
#[verifier::external_body]
fn ec_serialize_uncompressed(p: &[u8]) -> (r: Vec<u8>)
    requires
        valid_point(p@),
    ensures
        r@ == uncompressed_of(p@),
        r@.len() == 65,
        point_decode_of(r@) == Some(p@),
{
    let pk = bitcoin::secp256k1::PublicKey::from_slice(p).expect("canonical point bytes");
    pk.serialize_uncompressed().to_vec()
}

/// Relies on secp256k1 `PublicKey::from_slice`: the BIP-341 constant `H` is a
/// valid curve point, returned in its canonical compressed encoding.
#[verifier::external_body]
fn ec_nums_h() -> (r: Vec<u8>)
    ensures
        r@ == nums_h_bytes(),
        valid_point(r@),
{
    let bytes: [u8; 33] = [
        0x02, 0x50, 0x92, 0x9b, 0x74, 0xc1, 0xa0, 0x49, 0x54, 0xb7, 0x8b, 0x4b, 0x60, 0x35,
        0xe9, 0x7a, 0x5e, 0x07, 0x8a, 0x5a, 0x0f, 0x28, 0xec, 0x96, 0xd5, 0x47, 0xbf, 0xee,
        0x9a, 0xce, 0x80, 0x3a, 0xc0,
    ];
    let pk = bitcoin::secp256k1::PublicKey::from_slice(&bytes).expect("the constant is a point");
    pk.serialize().to_vec()
}

/// A public curve point, held as its canonical 33-byte compressed encoding.
/// The compression flag of a key affects only its serialized text form and
/// lives with the key, not here: two equal points have equal bytes.
#[derive(PartialEq, Eq, Debug)]
pub struct Point {
    pub bytes: Vec<u8>,
}

impl Point {
    /// Well-formed: the bytes are a canonical compressed point encoding.
    pub open spec fn wf(&self) -> bool {
        valid_point(self.bytes@)
    }

    /// The canonical compressed encoding, as a sequence.
    pub open spec fn view(&self) -> Seq<u8> {
        self.bytes@
    }
}

/// Parse a 33- or 65-byte point encoding into a canonical point.
/// Fails with `InvalidPointEncoding` exactly where the bytes encode no curve
/// point.
pub fn parse_point(b: &[u8]) -> (r: Result<Point, Error>)
    ensures
        r is Ok <==> point_decode_of(b@) is Some,
        r matches Ok(p) ==> point_decode_of(b@) == Some(p@) && p.wf(),
        r matches Err(e) ==> e == Error::InvalidPointEncoding,
{
    match ec_point_decode(b) {
        Ok(v) => Ok(Point { bytes: v }),
        Err(e) => Err(e),
    }
}

/// The point `P'` with `P + P' = O`. Always succeeds for a valid point, and
/// negating the result returns the original point: negation is an involution.
pub fn negate(p: &Point) -> (r: Point)
    requires
        p.wf(),
    ensures
        r.wf(),
        r@ == negate_of(p@),
        negate_of(r@) == p@,
{
    Point { bytes: ec_negate(p.bytes.as_slice()) }
}

/// `P + t*G` for a 32-byte big-endian tweak `t`. Fails with `InvalidTweak`
/// exactly where `t` is out of scalar range or the sum is the point at
/// infinity. A zero tweak returns the point unchanged.
pub fn tweak_add(p: &Point, t: &[u8]) -> (r: Result<Point, Error>)
    requires
        p.wf(),
    ensures
        r is Ok <==> tweak_in_range(t@) && tweak_add_of(p@, t@) is Some,
        r matches Ok(q) ==> q.wf() && tweak_add_of(p@, t@) == Some(q@),
        r matches Err(e) ==> e == Error::InvalidTweak,
        t@ == zero32() ==> r is Ok && r->Ok_0@ == p@,
{
    proof {
        lemma_zero32_in_range();
    }
    if !check_tweak_range(t) {
        return Err(Error::InvalidTweak);
    }
    match ec_tweak_add(p.bytes.as_slice(), t) {
        Ok(v) => Ok(Point { bytes: v }),
        Err(e) => Err(e),
    }
}

/// `P1 + P2`. Fails with `InvalidCombination` exactly where the sum is the
/// point at infinity, that is, where `P2` is the negation of `P1`.
pub fn combine(a: &Point, b: &Point) -> (r: Result<Point, Error>)
    requires
        a.wf(),
        b.wf(),
    ensures
        r is Ok <==> combine_of(a@, b@) is Some,
        r matches Ok(q) ==> q.wf() && combine_of(a@, b@) == Some(q@),
        r is Err <==> b@ == negate_of(a@),
        r matches Err(e) ==> e == Error::InvalidCombination,
{
    match ec_combine(a.bytes.as_slice(), b.bytes.as_slice()) {
        Ok(v) => Ok(Point { bytes: v }),
        Err(e) => Err(e),
    }
}

/// The public key `k*G` of a secret scalar, as a canonical point. The result
/// is a function of the scalar alone: repeated calls return identical bytes.
pub fn derive_point(sk: &[u8]) -> (r: Point)
    requires
        secret_in_range(sk@),
    ensures
        r.wf(),
        r@ == pubkey_of(sk@),
{
    Point { bytes: ec_derive_pubkey(sk) }
}

/// The 65-byte uncompressed encoding of a point.
pub fn point_uncompressed(p: &Point) -> (r: Vec<u8>)
    requires
        p.wf(),
    ensures
        r@ == uncompressed_of(p@),
        r@.len() == 65,
        point_decode_of(r@) == Some(p@),
{
    ec_serialize_uncompressed(p.bytes.as_slice())
}

/// The fixed internal-key constant `H` of BIP-341, a point with no known
/// discrete logarithm.
pub fn nums_constant() -> (r: Point)
    ensures
        r.wf(),
        r@ == nums_h_bytes(),
{
    Point { bytes: ec_nums_h() }
}

/// A "no known secret" point from caller-supplied entropy: `H + e*G`. Fails
/// exactly as `tweak_add` does; zero entropy returns `H` itself.
pub fn nums_from_entropy(e: &[u8]) -> (r: Result<Point, Error>)
    ensures
        r is Ok <==> tweak_in_range(e@) && tweak_add_of(nums_h_bytes(), e@) is Some,
        r matches Ok(q) ==> q.wf() && tweak_add_of(nums_h_bytes(), e@) == Some(q@),
        r matches Err(err) ==> err == Error::InvalidTweak,
        e@ == zero32() ==> r is Ok && r->Ok_0@ == nums_h_bytes(),
{
    let h = nums_constant();
    tweak_add(&h, e)
}

/// Law: negation is an involution — negating a point twice returns it.
pub fn negate_negate_round_trip(p: &Point) -> (r: Point)
    requires
        p.wf(),
    ensures
        r.wf(),
        r@ == p@,
{
    let n = negate(p);
    negate(&n)
}

/// Law: adding the zero tweak to a point returns the point unchanged.
pub fn tweak_add_zero_identity(p: &Point) -> (r: Point)
    requires
        p.wf(),
    ensures
        r.wf(),
        r@ == p@,
{
    let zero = crate::scalar::zero32_vec();
    match tweak_add(p, zero.as_slice()) {
        Ok(q) => q,
        Err(_) => vstd::pervasive::unreached(),
    }
}

/// Law: combining a point with its own negation fails with
/// `InvalidCombination`.
pub fn combine_with_negation(p: &Point) -> (r: Result<Point, Error>)
    requires
        p.wf(),
    ensures
        r == Err::<Point, Error>(Error::InvalidCombination),
{
    let n = negate(p);
    combine(p, &n)
}

/// Law: zero entropy yields the fixed constant `H` itself.
pub fn nums_from_zero_entropy() -> (r: Point)
    ensures
        r.wf(),
        r@ == nums_h_bytes(),
{
    let zero = crate::scalar::zero32_vec();
    match nums_from_entropy(zero.as_slice()) {
        Ok(q) => q,
        Err(_) => vstd::pervasive::unreached(),
    }
}

/// The zero scalar is in tweak range: the group order exceeds its last byte.
proof fn lemma_zero32_in_range()
    ensures
        tweak_in_range(zero32()),
        be_bytes_val(zero32()) == 0,
{
    lemma_be_bytes_val_zero(zero32());
    let gob = group_order_bytes();
    assert(gob.last() == 0x41);
    assert(group_order() == be_bytes_val(gob.drop_last()) * 256 + 0x41);
}

} // verus!
