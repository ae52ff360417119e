use vstd::prelude::*;

pub mod addr;
pub mod codec;
pub mod hashes;
pub mod hexs;
pub mod keys;
pub mod points;
pub mod scalar;
pub mod sign;
pub mod taproot;

verus! {

/// Everything that can go wrong while parsing, transforming or encoding
/// key material and addresses.
///
/// Encoding errors (`InvalidHex` .. `InvalidDigestLength`) mean the input
/// text or bytes fit no recognized format. Algebraic errors
/// (`ScalarOutOfRange`, `InvalidTweak`, `InvalidCombination`) mean the input
/// was well-formed but breaks a curve-group invariant. The configuration
/// error (`AmbiguousInternalKeySource`) means mutually exclusive options were
/// supplied together.
#[derive(Clone, Copy, PartialEq, Eq, Structural, Debug)]
pub enum Error {
    InvalidHex,
    InvalidKeyEncoding,
    InvalidPointEncoding,
    InvalidAddress,
    InvalidSignatureEncoding,
    InvalidDigestLength,
    ScalarOutOfRange,
    InvalidTweak,
    InvalidCombination,
    AmbiguousInternalKeySource,
}

/// The chain a key or address is encoded for. The tag governs only
/// text-encoding prefixes, never any algebraic result.
#[derive(Clone, Copy, PartialEq, Eq, Structural, Debug)]
pub enum Network {
    Mainnet,
    Testnet,
    Regtest,
}

/// Compare two byte slices for equality.
pub fn bytes_eq(a: &[u8], b: &[u8]) -> (r: bool)
    ensures
        r == (a@ == b@),
{
    if a.len() != b.len() {
        assert(a@ != b@) by {
            assert(a@.len() != b@.len());
        }
        return false;
    }
    let mut i: usize = 0;
    while i < a.len()
        invariant
            0 <= i <= a@.len(),
            a@.len() == b@.len(),
            forall|j: int| 0 <= j < i ==> a@[j] == b@[j],
        decreases a@.len() - i,
    {
        if a[i] != b[i] {
            return false;
        }
        i += 1;
    }
    proof {
        assert(a@ =~= b@);
    }
    true
}

/// Append every byte of `src` to `out`.
pub fn push_bytes(out: &mut Vec<u8>, src: &[u8])
    ensures
        final(out)@ == old(out)@ + src@,
{
    let ghost start = out@;
    let mut i: usize = 0;
    while i < src.len()
        invariant
            0 <= i <= src@.len(),
            out@ == start + src@.take(i as int),
        decreases src@.len() - i,
    {
        out.push(src[i]);
        proof {
            assert(start + src@.take(i + 1) =~= (start + src@.take(i as int)).push(src@[i as int]));
        }
        i += 1;
    }
    proof {
        assert(start + src@.take(src@.len() as int) =~= start + src@);
    }
}

/// The bytes of `v` from `start` (inclusive) to `end` (exclusive), as a new
/// value.
pub fn sub_bytes(v: &[u8], start: usize, end: usize) -> (r: Vec<u8>)
    requires
        start <= end <= v@.len(),
    ensures
        r@ == v@.subrange(start as int, end as int),
{
    let mut out: Vec<u8> = Vec::new();
    let mut i: usize = start;
    while i < end
        invariant
            start <= i <= end <= v@.len(),
            out@ == v@.subrange(start as int, i as int),
        decreases end - i,
    {
        out.push(v[i]);
        proof {
            assert(v@.subrange(start as int, i + 1) =~= v@.subrange(start as int, i as int).push(
                v@[i as int],
            ));
        }
        i += 1;
    }
    out
}

} // verus!
