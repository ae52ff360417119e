//! Scalars: 256-bit big-endian integers against the curve group order.
//!
//! A secret key is a scalar in `[1, n-1]`; a tweak is a scalar in `[0, n-1]`,
//! where `n` is the order of the secp256k1 group. Values outside the range
//! are rejected, never reduced.

use vstd::prelude::*;
use vstd::arithmetic::power::pow;
use vstd::arithmetic::power::lemma_pow_adds;
use vstd::arithmetic::power::lemma_pow_positive;
use vstd::arithmetic::power::lemma_pow0;
use vstd::arithmetic::power::lemma_pow1;

verus! {

/// The integer a byte string denotes in big-endian base 256.
pub open spec fn be_bytes_val(s: Seq<u8>) -> nat
    decreases s.len(),
{
    if s.len() == 0 {
        0
    } else {
        be_bytes_val(s.drop_last()) * 256 + s.last() as nat
    }
}

/// The big-endian bytes of the secp256k1 group order `n`.
pub open spec fn group_order_bytes() -> Seq<u8> {
    seq![
        0xffu8, 0xff, 0xff, 0xff, 0xff, 0xff, 0xff, 0xff, 0xff, 0xff, 0xff, 0xff, 0xff, 0xff,
        0xff, 0xfe, 0xba, 0xae, 0xdc, 0xe6, 0xaf, 0x48, 0xa0, 0x3b, 0xbf, 0xd2, 0x5e, 0x8c,
        0xd0, 0x36, 0x41, 0x41,
    ]
}

/// The order `n` of the secp256k1 group.
pub open spec fn group_order() -> nat {
    be_bytes_val(group_order_bytes())
}

/// A tweak scalar: 32 bytes whose value lies in `[0, n-1]`.
pub open spec fn tweak_in_range(s: Seq<u8>) -> bool {
    s.len() == 32 && be_bytes_val(s) < group_order()
}

/// A secret-key scalar: 32 bytes whose value lies in `[1, n-1]`.
pub open spec fn secret_in_range(s: Seq<u8>) -> bool {
    s.len() == 32 && 0 < be_bytes_val(s) < group_order()
}

/// The zero scalar, 32 zero bytes.
pub open spec fn zero32() -> Seq<u8> {
    Seq::new(32, |i: int| 0u8)
}

pub proof fn lemma_be_bytes_val_bound(s: Seq<u8>)
    ensures
        be_bytes_val(s) < pow(256, s.len() as nat),
    decreases s.len(),
{
    if s.len() == 0 {
        lemma_pow0(256);
    } else {
        lemma_be_bytes_val_bound(s.drop_last());
        lemma_pow_adds(256, (s.len() - 1) as nat, 1);
        lemma_pow1(256);
        assert(be_bytes_val(s.drop_last()) * 256 + s.last() < pow(256, (s.len() - 1) as nat) * 256)
            by (nonlinear_arith)
            requires
                be_bytes_val(s.drop_last()) < pow(256, (s.len() - 1) as nat),
                s.last() < 256,
        ;
    }
}

/// Splitting a byte string at `i` splits its value by place value.
pub proof fn lemma_be_bytes_val_split(s: Seq<u8>, i: int)
    requires
        0 <= i <= s.len(),
    ensures
        be_bytes_val(s) == be_bytes_val(s.take(i)) * pow(256, (s.len() - i) as nat) + be_bytes_val(
            s.skip(i),
        ),
    decreases s.len() - i,
{
    if i == s.len() {
        assert(s.take(i) =~= s);
        assert(s.skip(i) =~= Seq::<u8>::empty());
        lemma_pow0(256);
    } else {
        let dl = s.drop_last();
        lemma_be_bytes_val_split(dl, i);
        assert(dl.take(i) =~= s.take(i));
        assert(s.skip(i).drop_last() =~= dl.skip(i));
        assert(s.skip(i).last() == s.last());
        assert(s.skip(i).len() > 0);
        let k = (s.len() - 1 - i) as nat;
        lemma_pow_adds(256, k, 1);
        lemma_pow1(256);
        lemma_pow_positive(256, k);
        assert(be_bytes_val(s) == be_bytes_val(dl) * 256 + s.last());
        assert(be_bytes_val(s.skip(i)) == be_bytes_val(dl.skip(i)) * 256 + s.last());
        assert((be_bytes_val(s.take(i)) * pow(256, k) + be_bytes_val(dl.skip(i))) * 256
            == be_bytes_val(s.take(i)) * (pow(256, k) * 256) + be_bytes_val(dl.skip(i)) * 256)
            by (nonlinear_arith);
    }
}

/// Among byte strings of one length, lexicographic order is numeric order:
/// whichever differs first with the smaller byte denotes the smaller value.
pub proof fn lemma_be_bytes_val_lex(a: Seq<u8>, b: Seq<u8>, i: int)
    requires
        a.len() == b.len(),
        0 <= i < a.len(),
        a.take(i) =~= b.take(i),
        a[i] < b[i],
    ensures
        be_bytes_val(a) < be_bytes_val(b),
{
    let n = a.len() as int;
    let p = pow(256, (n - i - 1) as nat);
    lemma_be_bytes_val_split(a, i + 1);
    lemma_be_bytes_val_split(b, i + 1);
    assert(a.take(i + 1).drop_last() =~= a.take(i));
    assert(b.take(i + 1).drop_last() =~= b.take(i));
    assert(a.take(i + 1).last() == a[i]);
    assert(b.take(i + 1).last() == b[i]);
    let va = be_bytes_val(a.take(i));
    assert(be_bytes_val(a.take(i + 1)) == va * 256 + a[i]);
    assert(be_bytes_val(b.take(i + 1)) == va * 256 + b[i]);
    lemma_be_bytes_val_bound(a.skip(i + 1));
    assert(a.skip(i + 1).len() == n - i - 1);
    lemma_pow_positive(256, (n - i - 1) as nat);
    assert((va * 256 + a[i]) * p + be_bytes_val(a.skip(i + 1)) < (va * 256 + b[i]) * p)
        by (nonlinear_arith)
        requires
            a[i] < b[i],
            p > 0,
            va >= 0,
            be_bytes_val(a.skip(i + 1)) < p,
    ;
    assert(be_bytes_val(b.take(i + 1)) * p <= be_bytes_val(b)) by (nonlinear_arith)
        requires
            be_bytes_val(b) == be_bytes_val(b.take(i + 1)) * p + be_bytes_val(b.skip(i + 1)),
            be_bytes_val(b.skip(i + 1)) >= 0,
    ;
}

/// A byte string denotes zero iff every byte is zero.
pub proof fn lemma_be_bytes_val_zero(s: Seq<u8>)
    ensures
        (be_bytes_val(s) == 0) <==> (forall|j: int| 0 <= j < s.len() ==> s[j] == 0u8),
    decreases s.len(),
{
    if s.len() > 0 {
        lemma_be_bytes_val_zero(s.drop_last());
        if be_bytes_val(s) == 0 {
            assert(be_bytes_val(s.drop_last()) == 0 && s.last() == 0);
            assert(forall|j: int| 0 <= j < s.len() - 1 ==> s[j] == s.drop_last()[j]);
        } else {
            if forall|j: int| 0 <= j < s.len() ==> s[j] == 0u8 {
                assert(forall|j: int|
                    0 <= j < s.len() - 1 ==> #[trigger] s.drop_last()[j] == s[j]);
                assert(be_bytes_val(s) == 0);
            }
        }
    }
}

/// The 32 big-endian bytes of the group order, as a value.
pub fn group_order_byte_vec() -> (r: Vec<u8>)
    ensures
        r@ == group_order_bytes(),
{
    let r: Vec<u8> = vec![
        0xffu8, 0xff, 0xff, 0xff, 0xff, 0xff, 0xff, 0xff, 0xff, 0xff, 0xff, 0xff, 0xff, 0xff,
        0xff, 0xfe, 0xba, 0xae, 0xdc, 0xe6, 0xaf, 0x48, 0xa0, 0x3b, 0xbf, 0xd2, 0x5e, 0x8c,
        0xd0, 0x36, 0x41, 0x41,
    ];
    proof {
        assert(r@ =~= group_order_bytes());
    }
    r
}

/// The zero scalar, as 32 zero bytes.
pub fn zero32_vec() -> (r: Vec<u8>)
    ensures
        r@ == zero32(),
{
    let mut out: Vec<u8> = Vec::new();
    let mut i: usize = 0;
    while i < 32
        invariant
            0 <= i <= 32,
            out@.len() == i,
            forall|j: int| 0 <= j < i ==> out@[j] == 0u8,
        decreases 32 - i,
    {
        out.push(0u8);
        i += 1;
    }
    proof {
        assert(out@ =~= zero32());
    }
    out
}

/// Numeric comparison of two equal-length big-endian byte strings.
pub fn be_bytes_lt(a: &[u8], b: &[u8]) -> (r: bool)
    requires
        a@.len() == b@.len(),
    ensures
        r == (be_bytes_val(a@) < be_bytes_val(b@)),
{
    let mut i: usize = 0;
    while i < a.len()
        invariant
            0 <= i <= a@.len(),
            a@.len() == b@.len(),
            forall|j: int| 0 <= j < i ==> a@[j] == b@[j],
        decreases a@.len() - i,
    {
        if a[i] < b[i] {
            proof {
                assert(a@.take(i as int) =~= b@.take(i as int));
                lemma_be_bytes_val_lex(a@, b@, i as int);
            }
            return true;
        }
        if a[i] > b[i] {
            proof {
                assert(b@.take(i as int) =~= a@.take(i as int));
                lemma_be_bytes_val_lex(b@, a@, i as int);
            }
            return false;
        }
        i += 1;
    }
    proof {
        assert(a@ =~= b@);
    }
    false
}

/// Whether all bytes are zero, i.e. the denoted value is zero.
pub fn be_bytes_is_zero(a: &[u8]) -> (r: bool)
    ensures
        r == (be_bytes_val(a@) == 0),
{
    let mut i: usize = 0;
    while i < a.len()
        invariant
            0 <= i <= a@.len(),
            forall|j: int| 0 <= j < i ==> a@[j] == 0u8,
        decreases a@.len() - i,
    {
        if a[i] != 0 {
            proof {
                lemma_be_bytes_val_zero(a@);
            }
            return false;
        }
        i += 1;
    }
    proof {
        lemma_be_bytes_val_zero(a@);
    }
    true
}

/// Whether 32 bytes denote a valid tweak scalar, a value in `[0, n-1]`.
pub fn check_tweak_range(s: &[u8]) -> (r: bool)
    ensures
        r == tweak_in_range(s@),
{
    if s.len() != 32 {
        return false;
    }
    let order = group_order_byte_vec();
    be_bytes_lt(s, order.as_slice())
}

/// Whether 32 bytes denote a valid secret-key scalar, a value in `[1, n-1]`.
pub fn check_secret_range(s: &[u8]) -> (r: bool)
    ensures
        r == secret_in_range(s@),
{
    if s.len() != 32 {
        return false;
    }
    if be_bytes_is_zero(s) {
        return false;
    }
    let order = group_order_byte_vec();
    be_bytes_lt(s, order.as_slice())
}

} // verus!
