//! The oblivious pseudo-random function (base mode, suite
//! `ristretto255-SHA512`, mode `0x00`, suite id `0x0001`).  The client blinds
//! its input with a random scalar, the server multiplies the blinded element
//! by its per-credential key, and the client unblinds and hashes the result.

use vstd::prelude::*;

use crate::OpaqueError;
use crate::common::{
    bytes_concat, i2osp, i2osp_serialize, lemma_pow256_small, spec_i2osp, spec_i2osp_serialize,
    spec_zeros,
};
use crate::group::{
    map_to_curve, nonzero_random_scalar, scalar_invert, scalar_mul_point, spec_map_to_curve,
    spec_mul_commutes_at, spec_point_valid, spec_scalar_canonical, spec_scalar_invert,
    spec_scalar_mul, spec_unblinds, spec_unblinds_evaluated,
};
use crate::hash::{sha512, sha512_of};

verus! {

/// `I2OSP(mode, 1) || I2OSP(suite_id, 2)` for mode `0x00`, suite `0x0001`.
pub open spec fn spec_context_string(mode: nat) -> Seq<u8> {
    spec_i2osp(mode, 1) + spec_i2osp(1, 2)
}

pub(crate) fn get_context_string(mode: u8) -> (r: Vec<u8>)
    ensures
        r@ == spec_context_string(mode as nat),
{
    proof {
        lemma_pow256_small();
    }
    let tag = i2osp(mode as usize, 1);
    let suite = i2osp(1, 2);
    bytes_concat(tag.as_slice(), suite.as_slice())
}

/// `"VOPRF06-HashToGroup-" || contextString`.
pub open spec fn spec_dst_hash_to_group() -> Seq<u8> {
    seq![
        0x56u8, 0x4fu8, 0x50u8, 0x52u8, 0x46u8, 0x30u8, 0x36u8, 0x2du8, 0x48u8, 0x61u8, 0x73u8,
        0x68u8, 0x54u8, 0x6fu8, 0x47u8, 0x72u8, 0x6fu8, 0x75u8, 0x70u8, 0x2du8,
    ] + spec_context_string(0)
}

pub(crate) fn dst_hash_to_group() -> (r: Vec<u8>)
    ensures
        r@ == spec_dst_hash_to_group(),
        r@.len() == 23,
{
    let label: Vec<u8> = vec![
        0x56u8, 0x4fu8, 0x50u8, 0x52u8, 0x46u8, 0x30u8, 0x36u8, 0x2du8, 0x48u8, 0x61u8, 0x73u8,
        0x68u8, 0x54u8, 0x6fu8, 0x47u8, 0x72u8, 0x6fu8, 0x75u8, 0x70u8, 0x2du8,
    ];
    let ctx = get_context_string(0);
    let r = bytes_concat(label.as_slice(), ctx.as_slice());
    proof {
        crate::common::lemma_i2osp_len(0, 1);
        crate::common::lemma_i2osp_len(1, 2);
        assert(r@ =~= spec_dst_hash_to_group());
    }
    r
}

/// `"VOPRF06-Finalize-" || contextString`.
pub open spec fn spec_dst_finalize() -> Seq<u8> {
    seq![
        0x56u8, 0x4fu8, 0x50u8, 0x52u8, 0x46u8, 0x30u8, 0x36u8, 0x2du8, 0x46u8, 0x69u8, 0x6eu8,
        0x61u8, 0x6cu8, 0x69u8, 0x7au8, 0x65u8, 0x2du8,
    ] + spec_context_string(0)
}

pub(crate) fn dst_finalize() -> (r: Vec<u8>)
    ensures
        r@ == spec_dst_finalize(),
        r@.len() == 20,
{
    let label: Vec<u8> = vec![
        0x56u8, 0x4fu8, 0x50u8, 0x52u8, 0x46u8, 0x30u8, 0x36u8, 0x2du8, 0x46u8, 0x69u8, 0x6eu8,
        0x61u8, 0x6cu8, 0x69u8, 0x7au8, 0x65u8, 0x2du8,
    ];
    let ctx = get_context_string(0);
    let r = bytes_concat(label.as_slice(), ctx.as_slice());
    proof {
        crate::common::lemma_i2osp_len(0, 1);
        crate::common::lemma_i2osp_len(1, 2);
        assert(r@ =~= spec_dst_finalize());
    }
    r
}

/// The group element the OPRF input is hashed to.
pub open spec fn spec_oprf_input_element(input: Seq<u8>) -> Seq<u8> {
    spec_map_to_curve(input, spec_dst_hash_to_group())
}

/// The blinded element sent to the server: `blind * HashToGroup(input)`.
pub open spec fn spec_blinded_element(input: Seq<u8>, blind: Seq<u8>) -> Seq<u8> {
    spec_scalar_mul(blind, spec_oprf_input_element(input))
}

/// Convert the input into a group element and randomize it by a freshly
/// drawn nonzero scalar.  Returns the blinding scalar and the blinded
/// element; fails only when the random source does.
pub(crate) fn blind(input: &[u8]) -> (r: Result<(Vec<u8>, Vec<u8>), OpaqueError>)
    ensures
        r is Ok ==> ({
            let (b, m) = r->Ok_0;
            &&& b@.len() == 32
            &&& spec_scalar_canonical(b@)
            &&& b@ != spec_zeros(32)
            &&& m@ == spec_blinded_element(input@, b@)
            &&& m@.len() == 32
            &&& spec_point_valid(m@)
            &&& spec_point_valid(spec_oprf_input_element(input@))
            &&& spec_mul_commutes_at(b@, spec_oprf_input_element(input@))
        }),
        r is Err ==> r->Err_0 == OpaqueError::RngFailure,
{
    let b = match nonzero_random_scalar() {
        Ok(v) => v,
        Err(e) => {
            return Err(e);
        },
    };
    let dst = dst_hash_to_group();
    let p = map_to_curve(input, dst.as_slice());
    let m = match scalar_mul_point(b.as_slice(), p.as_slice()) {
        Some(v) => v,
        None => {
            proof {
                assert(false);
            }
            return Err(OpaqueError::DeserializationError);
        },
    };
    Ok((b, m))
}

/// The server side of the OPRF: `oprf_key * blinded_element`.  No proof is
/// produced (base mode).  A blinded element that is not a canonical point
/// encoding is rejected.
pub(crate) fn evaluate(oprf_key: &[u8], blinded_element: &[u8]) -> (r: Result<
    Vec<u8>,
    OpaqueError,
>)
    requires
        oprf_key@.len() == 32,
        blinded_element@.len() == 32,
    ensures
        r is Ok <==> spec_point_valid(blinded_element@),
        r is Ok ==> r->Ok_0@ == spec_scalar_mul(oprf_key@, blinded_element@),
        r is Ok ==> r->Ok_0@.len() == 32 && spec_point_valid(r->Ok_0@),
        r is Ok ==> spec_mul_commutes_at(oprf_key@, blinded_element@),
        r is Err ==> r->Err_0 == OpaqueError::DeserializationError,
{
    match scalar_mul_point(oprf_key, blinded_element) {
        Some(v) => Ok(v),
        None => Err(OpaqueError::DeserializationError),
    }
}

/// The hash the OPRF output is drawn from, over the unblinded element:
/// `SHA-512(I2OSP(|input|,2) || input || I2OSP(32,2) || N || I2OSP(|DST|,2) || DST)`.
pub open spec fn spec_oprf_hash_output(input: Seq<u8>, unblinded: Seq<u8>) -> Seq<u8> {
    sha512_of(
        spec_i2osp_serialize(input, 2) + spec_i2osp_serialize(unblinded, 2)
            + spec_i2osp_serialize(spec_dst_finalize(), 2),
    )
}

/// The OPRF output: the hash above applied to `blind^-1 * evaluated_element`.
pub open spec fn spec_oprf_finalize(input: Seq<u8>, blind: Seq<u8>, element: Seq<u8>) -> Seq<u8> {
    spec_oprf_hash_output(input, spec_scalar_mul(spec_scalar_invert(blind), element))
}

/// Unblind the server's evaluation and hash it into the OPRF output.
/// Rejects inputs longer than a two-octet length prefix allows and
/// evaluated elements that are not canonical point encodings.
pub(crate) fn finalize(input: &[u8], blind: &[u8], element: &[u8]) -> (r: Result<
    Vec<u8>,
    OpaqueError,
>)
    requires
        blind@.len() == 32,
        spec_scalar_canonical(blind@),
        blind@ != spec_zeros(32),
        element@.len() == 32,
    ensures
        r is Ok <==> (input@.len() < 65536 && spec_point_valid(element@)),
        r is Ok ==> r->Ok_0@ == spec_oprf_finalize(input@, blind@, element@),
        r is Ok ==> r->Ok_0@.len() == 64,
        input@.len() < 65536 ==> spec_unblinds(spec_scalar_invert(blind@), blind@)
            && spec_unblinds_evaluated(spec_scalar_invert(blind@), blind@),
        r is Err ==> r->Err_0 == OpaqueError::DeserializationError,
{
    proof {
        lemma_pow256_small();
    }
    if input.len() >= 65536 {
        return Err(OpaqueError::DeserializationError);
    }
    let inv = scalar_invert(blind);
    let unblinded = match scalar_mul_point(inv.as_slice(), element) {
        Some(v) => v,
        None => {
            return Err(OpaqueError::DeserializationError);
        },
    };
    let dst = dst_finalize();
    let part_input = i2osp_serialize(input, 2);
    let part_element = i2osp_serialize(unblinded.as_slice(), 2);
    let part_dst = i2osp_serialize(dst.as_slice(), 2);
    let mut hash_input = bytes_concat(part_input.as_slice(), part_element.as_slice());
    hash_input = bytes_concat(hash_input.as_slice(), part_dst.as_slice());
    let out = sha512(hash_input.as_slice());
    Ok(out)
}

} // verus!
