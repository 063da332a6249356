//! The Ristretto255 prime-order group.  Group elements travel through the
//! protocol only in their 32-octet compressed encodings and scalars only in
//! their 32-octet canonical little-endian encodings, so every trusted
//! wrapper here goes from plain octet strings to plain octet strings.
//!
//! The algebraic facts stated of the wrappers are the defining properties of
//! a prime-order group action: multiplication by a scalar commutes with any
//! other scalar, the multiplicative inverse of a scalar undoes its action,
//! and `t * (s * B) == s * (t * B)` for the fixed base point `B`.

use vstd::prelude::*;

use crate::OpaqueError;
use crate::common::{ct_equal, spec_zeros};
use crate::hash::{expand_message_xmd, spec_expand_message_xmd};
use crate::rng::random_bytes;

verus! {

/// Size of an encoded scalar (`Ns`) in octets.
pub const SCALAR_SIZE: usize = 32;

/// Size of a compressed group element (`Npk`) in octets.
pub const ELEMENT_SIZE: usize = 32;

/// The compressed encoding of the point the Ristretto one-way map sends 64
/// uniform octets to.
pub uninterp spec fn spec_point_from_uniform(bytes: Seq<u8>) -> Seq<u8>;

/// The canonical encoding of a 512-bit little-endian integer reduced modulo
/// the group order.
pub uninterp spec fn spec_scalar_reduce(bytes: Seq<u8>) -> Seq<u8>;

/// The compressed encoding of `scalar * point`, for a valid compressed
/// `point`; the scalar encoding is reduced modulo the group order first.
pub uninterp spec fn spec_scalar_mul(scalar: Seq<u8>, point: Seq<u8>) -> Seq<u8>;

/// The compressed encoding of `scalar * B`, for the Ristretto base point `B`.
pub uninterp spec fn spec_base_mul(scalar: Seq<u8>) -> Seq<u8>;

/// The canonical encoding of the multiplicative inverse of a nonzero
/// canonical scalar.
pub uninterp spec fn spec_scalar_invert(scalar: Seq<u8>) -> Seq<u8>;

/// Whether 32 octets are the canonical compressed encoding of a point —
/// exactly the encodings `CompressedRistretto::decompress` accepts.
pub uninterp spec fn spec_point_valid(point: Seq<u8>) -> bool;

/// Whether 32 octets are the canonical encoding of a scalar, the reduced
/// little-endian form below the group order — exactly the encodings
/// `Scalar::from_canonical_bytes` accepts.
pub uninterp spec fn spec_scalar_canonical(scalar: Seq<u8>) -> bool;

/// `pk` behaves as `sk * B` under the group action: multiplying `pk` by any
/// scalar `t` equals multiplying `t * B` by `sk`.  This is the key-exchange
/// identity `t * (sk * B) == sk * (t * B)`.
pub open spec fn spec_dh_commutes(sk: Seq<u8>, pk: Seq<u8>) -> bool {
    forall|t: Seq<u8>|
        t.len() == 32 ==> #[trigger] spec_scalar_mul(t, pk) == spec_scalar_mul(
            sk,
            spec_base_mul(t),
        )
}

/// `inv` undoes the action of `s` on every valid point:
/// `inv * (s * p) == p`.
pub open spec fn spec_unblinds(inv: Seq<u8>, s: Seq<u8>) -> bool {
    forall|p: Seq<u8>|
        spec_point_valid(p) ==> #[trigger] spec_scalar_mul(inv, spec_scalar_mul(s, p)) == p
}

/// `inv` undoes the action of `s` even through an intervening scalar:
/// `inv * (k * (s * p)) == k * p`.  In the group, `k * (s * p)` is
/// `(k s) * p`, and multiplying by `inv == s^-1` leaves `k * p`.
pub open spec fn spec_unblinds_evaluated(inv: Seq<u8>, s: Seq<u8>) -> bool {
    forall|k: Seq<u8>, p: Seq<u8>|
        k.len() == 32 && spec_point_valid(p) ==> #[trigger] spec_scalar_mul(
            inv,
            spec_scalar_mul(k, spec_scalar_mul(s, p)),
        ) == spec_scalar_mul(k, p)
}

/// The action of `s` at `p` commutes with every other scalar:
/// `t * (s * p) == s * (t * p)`.
pub open spec fn spec_mul_commutes_at(s: Seq<u8>, p: Seq<u8>) -> bool {
    forall|t: Seq<u8>|
        t.len() == 32 ==> #[trigger] spec_scalar_mul(t, spec_scalar_mul(s, p)) == spec_scalar_mul(
            s,
            spec_scalar_mul(t, p),
        )
}

/// Relies on `curve25519_dalek::ristretto::RistrettoPoint::from_uniform_bytes`
/// and `compress`: the Ristretto-flavored Elligator map applied to two
/// 32-octet halves, a function of the input octets alone; the compressed
/// result decompresses back to the same point.
#[verifier::external_body]
pub(crate) fn point_from_uniform(bytes: &[u8]) -> (r: Vec<u8>)
    requires
        bytes@.len() == 64,
    ensures
        r@ == spec_point_from_uniform(bytes@),
        r@.len() == 32,
        spec_point_valid(r@),
{
    let mut arr = [0u8; 64];
    arr.copy_from_slice(bytes);
    let p = curve25519_dalek::ristretto::RistrettoPoint::from_uniform_bytes(&arr);
    p.compress().to_bytes().to_vec()
}

/// Relies on `curve25519_dalek::scalar::Scalar::from_bytes_mod_order_wide`
/// and `to_bytes`: the 512-bit little-endian integer reduced modulo the
/// group order, re-encoded canonically.
#[verifier::external_body]
pub(crate) fn scalar_reduce_wide(bytes: &[u8]) -> (r: Vec<u8>)
    requires
        bytes@.len() == 64,
    ensures
        r@ == spec_scalar_reduce(bytes@),
        r@.len() == 32,
        spec_scalar_canonical(r@),
{
    let mut arr = [0u8; 64];
    arr.copy_from_slice(bytes);
    let s = curve25519_dalek::scalar::Scalar::from_bytes_mod_order_wide(&arr);
    s.to_bytes().to_vec()
}

/// Relies on `curve25519_dalek::ristretto::CompressedRistretto::decompress`,
/// the `Mul<&Scalar>` impl of `&RistrettoPoint`,
/// `Scalar::from_bytes_mod_order` and `compress`: `None` exactly on
/// non-canonical point encodings; otherwise the compressed product, which is
/// itself a canonical encoding.  The stated commutation law is the defining
/// property of the abelian group action: `t * (s * p) == s * (t * p)`.
#[verifier::external_body]
pub(crate) fn scalar_mul_point(scalar: &[u8], point: &[u8]) -> (r: Option<Vec<u8>>)
    requires
        scalar@.len() == 32,
        point@.len() == 32,
    ensures
        r is Some <==> spec_point_valid(point@),
        r is Some ==> r->0@ == spec_scalar_mul(scalar@, point@),
        r is Some ==> r->0@.len() == 32,
        r is Some ==> spec_point_valid(spec_scalar_mul(scalar@, point@)),
        r is Some ==> spec_mul_commutes_at(scalar@, point@),
{
    let mut parr = [0u8; 32];
    parr.copy_from_slice(point);
    match curve25519_dalek::ristretto::CompressedRistretto(parr).decompress() {
        Some(p) => {
            let mut sarr = [0u8; 32];
            sarr.copy_from_slice(scalar);
            let s = curve25519_dalek::scalar::Scalar::from_bytes_mod_order(sarr);
            Some((&p * &s).compress().to_bytes().to_vec())
        },
        None => None,
    }
}

/// Relies on `curve25519_dalek::ristretto::RistrettoPoint::mul_base`,
/// `Scalar::from_bytes_mod_order` and `compress`: the compressed encoding of
/// `scalar * B`, a canonical encoding.  The stated law is the key-exchange
/// identity of the fixed-base action: `t * (s * B) == s * (t * B)`.
#[verifier::external_body]
pub(crate) fn scalar_base_mult(scalar: &[u8]) -> (r: Vec<u8>)
    requires
        scalar@.len() == 32,
    ensures
        r@ == spec_base_mul(scalar@),
        r@.len() == 32,
        spec_point_valid(r@),
        spec_dh_commutes(scalar@, r@),
{
    let mut sarr = [0u8; 32];
    sarr.copy_from_slice(scalar);
    let s = curve25519_dalek::scalar::Scalar::from_bytes_mod_order(sarr);
    curve25519_dalek::ristretto::RistrettoPoint::mul_base(&s).compress().to_bytes().to_vec()
}

/// Relies on `curve25519_dalek::scalar::Scalar::invert`,
/// `from_bytes_mod_order` and `to_bytes`: the multiplicative inverse of a
/// nonzero canonical scalar, itself canonical.  The stated law is the
/// inverse property of the group action: `s^-1 * (s * p) == p`.
#[verifier::external_body]
pub(crate) fn scalar_invert(scalar: &[u8]) -> (r: Vec<u8>)
    requires
        scalar@.len() == 32,
        spec_scalar_canonical(scalar@),
        scalar@ != spec_zeros(32),
    ensures
        r@ == spec_scalar_invert(scalar@),
        r@.len() == 32,
        spec_scalar_canonical(r@),
        spec_unblinds(r@, scalar@),
        spec_unblinds_evaluated(r@, scalar@),
{
    let mut sarr = [0u8; 32];
    sarr.copy_from_slice(scalar);
    let s = curve25519_dalek::scalar::Scalar::from_bytes_mod_order(sarr);
    s.invert().to_bytes().to_vec()
}

/// `HashToGroup`: the Ristretto one-way map applied to
/// `expand_message_xmd(input, dst, 64)`.
pub open spec fn spec_map_to_curve(input: Seq<u8>, dst: Seq<u8>) -> Seq<u8> {
    spec_point_from_uniform(spec_expand_message_xmd(input, dst, 64))
}

/// Hash an arbitrary input onto the group: 64 uniform octets via
/// `expand_message_xmd`, then the Ristretto one-way map.
pub fn map_to_curve(input: &[u8], dst: &[u8]) -> (r: Vec<u8>)
    requires
        dst@.len() < 256,
    ensures
        r@ == spec_map_to_curve(input@, dst@),
        r@.len() == 32,
        spec_point_valid(r@),
{
    let uniform = match expand_message_xmd(input, dst, 64) {
        Ok(v) => v,
        Err(_) => {
            proof {
                assert(false);
            }
            Vec::new()
        },
    };
    point_from_uniform(uniform.as_slice())
}

/// Draw a uniformly random nonzero canonical scalar: 64 octets from the
/// system random source, reduced modulo the group order, resampled while the
/// reduction is zero.  A source that fails, or returns the zero scalar on
/// every attempt, is reported as `RngFailure`.
pub fn nonzero_random_scalar() -> (r: Result<Vec<u8>, OpaqueError>)
    ensures
        r is Ok ==> r->Ok_0@.len() == 32 && spec_scalar_canonical(r->Ok_0@) && r->Ok_0@
            != spec_zeros(32),
        r is Err ==> r->Err_0 == OpaqueError::RngFailure,
{
    let mut attempts: usize = 0;
    while attempts < 64
        invariant
            attempts <= 64,
        decreases 64 - attempts,
    {
        let wide = match random_bytes(64) {
            Ok(v) => v,
            Err(e) => {
                return Err(e);
            },
        };
        let reduced = scalar_reduce_wide(wide.as_slice());
        let zeros = crate::common::byte_repeat(0u8, 32);
        if !ct_equal(reduced.as_slice(), zeros.as_slice()) {
            return Ok(reduced);
        }
        attempts += 1;
    }
    Err(OpaqueError::RngFailure)
}

} // verus!
