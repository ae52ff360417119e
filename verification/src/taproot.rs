//! Building a script-path-only taproot address: a script committed under an
//! internal key that is supplied explicitly, taken from the fixed constant
//! `H`, or derived from caller entropy.

use vstd::prelude::*;

use crate::Error;
use crate::Network;
use crate::addr::hrp_of;
use crate::addr::segwit_addr_text;
use crate::codec::segwit_decodes_to;
use crate::points::Point;
use crate::points::nums_constant;
use crate::points::nums_from_entropy;
use crate::points::nums_h_bytes;
use crate::points::tweak_add_of;
use crate::points::valid_point;
use crate::scalar::tweak_in_range;

verus! {

/// The 32-byte x-only taproot output key that commits to an internal key and
/// a script as the only leaf; a function of the two inputs alone.
pub uninterp spec fn tr_output_key_of(internal: Seq<u8>, script: Seq<u8>) -> Seq<u8>;

/// Relies on bitcoin `Script::to_v1_p2tr`: the version-1 witness program of
/// the taproot output key for the internal key and the single-leaf script
/// commitment.
#[verifier::external_body]
fn tr_output_key(internal: &[u8], script: &[u8]) -> (r: Vec<u8>)
    requires
        valid_point(internal@),
    ensures
        r@ == tr_output_key_of(internal@, script@),
        r@.len() == 32,
{
    let secp = bitcoin::secp256k1::Secp256k1::new();
    let pk = bitcoin::secp256k1::PublicKey::from_slice(internal).expect("canonical point bytes");
    let spk = bitcoin::Script::from(script.to_vec())
        .to_v1_p2tr(&secp, bitcoin::XOnlyPublicKey::from(pk));
    spk.as_bytes()[2..].to_vec()
}

/// Where the internal key of a taproot output comes from. Exactly one source
/// is selected at the boundary; see `resolve_internal_key_source`.
#[derive(PartialEq, Eq, Debug)]
pub enum InternalKeySource {
    /// A caller-supplied point.
    Explicit(Point),
    /// The fixed BIP-341 constant `H`.
    FixedConstant,
    /// `H + e*G` for 32 caller-supplied entropy bytes `e`.
    EntropyDerived(Vec<u8>),
}

impl InternalKeySource {
    pub open spec fn wf(&self) -> bool {
        match self {
            InternalKeySource::Explicit(p) => p.wf(),
            InternalKeySource::FixedConstant => true,
            InternalKeySource::EntropyDerived(_) => true,
        }
    }
}

/// How many of the three mutually exclusive internal-key options were
/// supplied.
pub open spec fn source_count(
    explicit: Option<Point>,
    use_fixed_constant: bool,
    entropy: Option<Vec<u8>>,
) -> int {
    (if explicit is Some {
        1int
    } else {
        0int
    }) + (if use_fixed_constant {
        1int
    } else {
        0int
    }) + (if entropy is Some {
        1int
    } else {
        0int
    })
}

/// Select the internal-key source from the three mutually exclusive options,
/// before any curve work. Supplying more than one is a configuration error,
/// `AmbiguousInternalKeySource`; supplying none means no taproot address is
/// wanted.
pub fn resolve_internal_key_source(
    explicit: Option<Point>,
    use_fixed_constant: bool,
    entropy: Option<Vec<u8>>,
) -> (r: Result<Option<InternalKeySource>, Error>)
    ensures
        source_count(explicit, use_fixed_constant, entropy) > 1 <==> r == Err::<
            Option<InternalKeySource>,
            Error,
        >(Error::AmbiguousInternalKeySource),
        source_count(explicit, use_fixed_constant, entropy) == 0 ==> r == Ok::<
            Option<InternalKeySource>,
            Error,
        >(None),
        source_count(explicit, use_fixed_constant, entropy) == 1 ==> r is Ok && (match (
            explicit,
            use_fixed_constant,
            entropy,
        ) {
            (Some(p), _, _) => r->Ok_0 == Some(InternalKeySource::Explicit(p)),
            (None, true, _) => r->Ok_0 == Some(InternalKeySource::FixedConstant),
            (None, false, Some(e)) => r->Ok_0 == Some(InternalKeySource::EntropyDerived(e)),
            (None, false, None) => false,
        }),
{
    let supplied: u8 = (if explicit.is_some() {
        1u8
    } else {
        0u8
    }) + (if use_fixed_constant {
        1u8
    } else {
        0u8
    }) + (if entropy.is_some() {
        1u8
    } else {
        0u8
    });
    if supplied > 1 {
        return Err(Error::AmbiguousInternalKeySource);
    }
    match explicit {
        Some(p) => Ok(Some(InternalKeySource::Explicit(p))),
        None => {
            if use_fixed_constant {
                Ok(Some(InternalKeySource::FixedConstant))
            } else {
                match entropy {
                    Some(e) => Ok(Some(InternalKeySource::EntropyDerived(e))),
                    None => Ok(None),
                }
            }
        },
    }
}

/// Build the taproot (segwit version 1) address whose script path is the
/// given script and whose key path uses the resolved internal key.
///
/// Entropy derivation fails as tweak addition does, with `InvalidTweak`; the
/// other sources always succeed.
pub fn build_taproot_address(script: &[u8], source: &InternalKeySource, network: Network) -> (r:
    Result<Vec<u8>, Error>)
    requires
        source.wf(),
    ensures
        source matches InternalKeySource::Explicit(p) ==> r is Ok && r->Ok_0@ == segwit_addr_text(
            network,
            1,
            tr_output_key_of(p@, script@),
        ),
        source is FixedConstant ==> r is Ok && r->Ok_0@ == segwit_addr_text(
            network,
            1,
            tr_output_key_of(nums_h_bytes(), script@),
        ),
        source matches InternalKeySource::EntropyDerived(e) ==> (if tweak_in_range(e@)
            && tweak_add_of(nums_h_bytes(), e@) is Some {
            r is Ok && r->Ok_0@ == segwit_addr_text(
                network,
                1,
                tr_output_key_of(tweak_add_of(nums_h_bytes(), e@)->Some_0, script@),
            )
        } else {
            r == Err::<Vec<u8>, Error>(Error::InvalidTweak)
        }),
        r is Ok ==> segwit_decodes_to(
            r->Ok_0@,
            hrp_of(network),
            1,
            (match source {
                InternalKeySource::Explicit(p) => tr_output_key_of(p@, script@),
                InternalKeySource::FixedConstant => tr_output_key_of(nums_h_bytes(), script@),
                InternalKeySource::EntropyDerived(e) => tr_output_key_of(
                    tweak_add_of(nums_h_bytes(), e@)->Some_0,
                    script@,
                ),
            }),
            true,
        ),
{
    let internal: Point = match source {
        InternalKeySource::Explicit(p) => Point { bytes: crate::sub_bytes(p.bytes.as_slice(), 0, p.bytes.len()) },
        InternalKeySource::FixedConstant => nums_constant(),
        InternalKeySource::EntropyDerived(e) => {
            match nums_from_entropy(e.as_slice()) {
                Ok(q) => q,
                Err(err) => {
                    return Err(err);
                },
            }
        },
    };
    proof {
        match source {
            InternalKeySource::Explicit(p) => {
                assert(p.bytes@.subrange(0, p.bytes@.len() as int) =~= p.bytes@);
            },
            _ => {},
        }
    }
    let output_key = tr_output_key(internal.bytes.as_slice(), script);
    Ok(crate::addr::segwit_address(network, 1, output_key.as_slice()))
}

} // verus!
