//! Hexadecimal text, modelled and implemented in full.
//!
//! All user-facing byte fields (keys, digests, scripts, signatures) travel as
//! case-insensitive, unpadded hex. Text is handled as ASCII bytes.

use vstd::prelude::*;

use crate::Error;

verus! {

/// The value of one hex digit, or -1 where the byte is no hex digit.
/// Decoding is case-insensitive.
pub open spec fn hex_digit_value(c: u8) -> int {
    if 0x30 <= c <= 0x39 {
        c - 0x30
    } else if 0x61 <= c <= 0x66 {
        c - 0x61 + 10
    } else if 0x41 <= c <= 0x46 {
        c - 0x41 + 10
    } else {
        -1
    }
}

pub open spec fn is_hex_digit(c: u8) -> bool {
    hex_digit_value(c) >= 0
}

/// A byte string decodes as hex iff its length is even and every byte is a
/// hex digit.
pub open spec fn hex_decode_ok(s: Seq<u8>) -> bool {
    s.len() % 2 == 0 && (forall|i: int| 0 <= i < s.len() ==> is_hex_digit(#[trigger] s[i]))
}

/// The bytes encoded by a hex string: each adjacent digit pair is one byte,
/// high nibble first.
pub open spec fn hex_decoded(s: Seq<u8>) -> Seq<u8>
    decreases s.len(),
{
    if s.len() < 2 {
        Seq::empty()
    } else {
        hex_decoded(s.take(s.len() - 2)).push(
            (hex_digit_value(s[s.len() - 2]) * 16 + hex_digit_value(s[s.len() - 1])) as u8,
        )
    }
}

/// The lower-case hex digit for a value below 16.
pub open spec fn hex_digit_char(v: u8) -> u8 {
    if v < 10 {
        (0x30 + v) as u8
    } else {
        (0x61 + (v - 10)) as u8
    }
}

/// The lower-case hex encoding of a byte string, two digits per byte.
pub open spec fn hex_encoded(b: Seq<u8>) -> Seq<u8>
    decreases b.len(),
{
    if b.len() == 0 {
        Seq::empty()
    } else {
        hex_encoded(b.drop_last()).push(hex_digit_char(b.last() / 16)).push(
            hex_digit_char(b.last() % 16),
        )
    }
}

/// The value of one hex digit byte, if any.
fn hex_digit(c: u8) -> (r: Option<u8>)
    ensures
        r is Some <==> is_hex_digit(c),
        r matches Some(v) ==> v == hex_digit_value(c),
{
    if 0x30 <= c && c <= 0x39 {
        Some(c - 0x30)
    } else if 0x61 <= c && c <= 0x66 {
        Some(c - 0x61 + 10)
    } else if 0x41 <= c && c <= 0x46 {
        Some(c - 0x41 + 10)
    } else {
        None
    }
}

/// Decode case-insensitive hex text into bytes. Fails with `InvalidHex` iff
/// the length is odd or a byte is no hex digit.
pub fn hex_decode(s: &[u8]) -> (r: Result<Vec<u8>, Error>)
    ensures
        r is Ok <==> hex_decode_ok(s@),
        r matches Ok(v) ==> v@ == hex_decoded(s@) && v@.len() == s@.len() / 2,
        r matches Err(e) ==> e == Error::InvalidHex,
{
    if s.len() % 2 != 0 {
        return Err(Error::InvalidHex);
    }
    let mut out: Vec<u8> = Vec::new();
    let mut i: usize = 0;
    while i < s.len()
        invariant
            0 <= i <= s@.len(),
            i % 2 == 0,
            s@.len() % 2 == 0,
            forall|j: int| 0 <= j < i ==> is_hex_digit(#[trigger] s@[j]),
            out@ == hex_decoded(s@.take(i as int)),
            out@.len() == i / 2,
        decreases s@.len() - i,
    {
        let hi = match hex_digit(s[i]) {
            Some(v) => v,
            None => {
                return Err(Error::InvalidHex);
            },
        };
        let lo = match hex_digit(s[i + 1]) {
            Some(v) => v,
            None => {
                return Err(Error::InvalidHex);
            },
        };
        let b: u8 = hi * 16 + lo;
        out.push(b);
        proof {
            let t = s@.take(i + 2);
            assert(t.take(t.len() - 2) =~= s@.take(i as int));
            assert(t[t.len() - 2] == s@[i as int]);
            assert(t[t.len() - 1] == s@[i + 1]);
        }
        i += 2;
    }
    proof {
        assert(s@.take(s@.len() as int) =~= s@);
    }
    Ok(out)
}

/// Encode bytes as lower-case hex text, two digits per byte.
pub fn hex_encode(b: &[u8]) -> (r: Vec<u8>)
    ensures
        r@ == hex_encoded(b@),
        r@.len() == 2 * b@.len(),
{
    let mut out: Vec<u8> = Vec::new();
    let mut i: usize = 0;
    while i < b.len()
        invariant
            0 <= i <= b@.len(),
            out@ == hex_encoded(b@.take(i as int)),
            out@.len() == 2 * i,
        decreases b@.len() - i,
    {
        let v = b[i];
        let hi: u8 = v / 16;
        let lo: u8 = v % 16;
        out.push(if hi < 10 {
            0x30 + hi
        } else {
            0x61 + (hi - 10)
        });
        out.push(if lo < 10 {
            0x30 + lo
        } else {
            0x61 + (lo - 10)
        });
        proof {
            let t = b@.take(i + 1);
            assert(t.drop_last() =~= b@.take(i as int));
            assert(t.last() == b@[i as int]);
        }
        i += 1;
    }
    proof {
        assert(b@.take(b@.len() as int) =~= b@);
    }
    out
}

/// Law: hex encoding always decodes, and decodes back to the bytes encoded.
pub proof fn lemma_hex_round_trip(b: Seq<u8>)
    ensures
        hex_decode_ok(hex_encoded(b)),
        hex_decoded(hex_encoded(b)) == b,
    decreases b.len(),
{
    if b.len() == 0 {
        assert(hex_decoded(hex_encoded(b)) =~= b);
    } else {
        lemma_hex_round_trip(b.drop_last());
        let e = hex_encoded(b);
        let hi = hex_digit_char(b.last() / 16);
        let lo = hex_digit_char(b.last() % 16);
        assert(e.take(e.len() - 2) =~= hex_encoded(b.drop_last()));
        assert(e[e.len() - 2] == hi && e[e.len() - 1] == lo);
        assert(hex_digit_value(hi) == b.last() / 16 && hex_digit_value(lo) == b.last() % 16);
        assert(hex_decode_ok(e)) by {
            let inner = hex_encoded(b.drop_last());
            assert(forall|i: int|
                0 <= i < e.len() - 2 ==> #[trigger] e[i] == inner[i] && is_hex_digit(inner[i]));
        }
        assert(hex_digit_value(hi) * 16 + hex_digit_value(lo) == b.last());
        assert(hex_decoded(e) =~= b);
    }
}

} // verus!
