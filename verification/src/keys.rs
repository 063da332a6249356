//! Key derivation: `HashToScalar`, `DeriveKeyPair` and the per-credential
//! OPRF key drawn from the server's long-term seed.

use vstd::prelude::*;

use crate::OpaqueError;
use crate::common::{bytes_concat, i2osp, lemma_pow256_small, spec_i2osp, spec_zeros};
use crate::group::{
    scalar_base_mult, scalar_reduce_wide, spec_base_mul, spec_dh_commutes, spec_point_valid,
    spec_scalar_canonical, spec_scalar_reduce,
};
use crate::hash::{expand_message_xmd, hkdf_expand, spec_expand_message_xmd, spec_hkdf_expand};

verus! {

/// An encoded Ristretto255 key pair: a canonical scalar and the compressed
/// public point derived from it.
#[derive(Debug)]
pub struct KeyPair {
    /// The compressed public key, `pri_k * B`.
    pub pub_k: Vec<u8>,
    /// The canonical encoding of the nonzero private scalar.
    pub pri_k: Vec<u8>,
}

impl KeyPair {
    /// A well-formed pair: the right sizes, a nonzero canonical private
    /// scalar, and a public key that behaves as `pri_k * B` under the group
    /// action.
    pub open spec fn wf(self) -> bool {
        &&& self.pri_k@.len() == 32
        &&& spec_scalar_canonical(self.pri_k@)
        &&& self.pri_k@ != spec_zeros(32)
        &&& self.pub_k@.len() == 32
        &&& self.pub_k@ == spec_base_mul(self.pri_k@)
        &&& spec_point_valid(self.pub_k@)
        &&& spec_dh_commutes(self.pri_k@, self.pub_k@)
    }
}

/// One half of a key pair, tagged by its role.
pub enum Keys {
    Public(Vec<u8>),
    Private(Vec<u8>),
}

/// `"OPAQUE-HashToScalar"`, the domain-separation tag of `HashToScalar`.
pub open spec fn spec_dst_hash_to_scalar() -> Seq<u8> {
    seq![
        0x4fu8, 0x50u8, 0x41u8, 0x51u8, 0x55u8, 0x45u8, 0x2du8, 0x48u8, 0x61u8, 0x73u8, 0x68u8,
        0x54u8, 0x6fu8, 0x53u8, 0x63u8, 0x61u8, 0x6cu8, 0x61u8, 0x72u8,
    ]
}

pub(crate) fn dst_hash_to_scalar() -> (r: Vec<u8>)
    ensures
        r@ == spec_dst_hash_to_scalar(),
        r@.len() == 19,
{
    let label: Vec<u8> = vec![
        0x4fu8, 0x50u8, 0x41u8, 0x51u8, 0x55u8, 0x45u8, 0x2du8, 0x48u8, 0x61u8, 0x73u8, 0x68u8,
        0x54u8, 0x6fu8, 0x53u8, 0x63u8, 0x61u8, 0x6cu8, 0x61u8, 0x72u8,
    ];
    label
}

/// Attempt `i` of `HashToScalar`: the seed, with a one-octet counter
/// appended on resampling attempts, expanded to 64 octets and reduced
/// modulo the group order.
pub open spec fn spec_h2s_attempt(seed: Seq<u8>, i: nat) -> Seq<u8> {
    if i == 0 {
        spec_scalar_reduce(spec_expand_message_xmd(seed, spec_dst_hash_to_scalar(), 64))
    } else {
        spec_scalar_reduce(
            spec_expand_message_xmd(seed + spec_i2osp(i, 1), spec_dst_hash_to_scalar(), 64),
        )
    }
}

/// The first nonzero attempt at index `i` or later, if any attempt below
/// 256 is nonzero.
pub open spec fn spec_hash_to_scalar_from(seed: Seq<u8>, i: nat) -> Option<Seq<u8>>
    decreases 256 - i,
{
    if i >= 256 {
        None
    } else if spec_h2s_attempt(seed, i) != spec_zeros(32) {
        Some(spec_h2s_attempt(seed, i))
    } else {
        spec_hash_to_scalar_from(seed, i + 1)
    }
}

/// `HashToScalar(seed, "OPAQUE-HashToScalar")`, rejection-resampled to a
/// nonzero scalar by appending a counter octet.
pub open spec fn spec_hash_to_scalar(seed: Seq<u8>) -> Option<Seq<u8>> {
    spec_hash_to_scalar_from(seed, 0)
}

/// The private scalar `DeriveKeyPair(seed)` yields, when any resampling
/// attempt is nonzero.
pub open spec fn spec_derived_sk(seed: Seq<u8>) -> Option<Seq<u8>> {
    spec_hash_to_scalar(seed)
}

/// The public key `DeriveKeyPair(seed)` yields.
pub open spec fn spec_derived_pk(seed: Seq<u8>) -> Seq<u8> {
    spec_base_mul(spec_derived_sk(seed)->0)
}

/// Map a seed to a nonzero canonical scalar by hashing and reducing,
/// resampling with a counter octet while the reduction is zero.  Fails only
/// in the practically unreachable event that 256 attempts all reduce to the
/// zero scalar, which no valid private key may be.
pub fn hash_to_scalar(seed: &[u8]) -> (r: Result<Vec<u8>, OpaqueError>)
    ensures
        r is Ok <==> spec_hash_to_scalar(seed@) is Some,
        r is Ok ==> Some(r->Ok_0@) == spec_hash_to_scalar(seed@),
        r is Ok ==> r->Ok_0@.len() == 32 && spec_scalar_canonical(r->Ok_0@) && r->Ok_0@
            != spec_zeros(32),
        r is Err ==> r->Err_0 == OpaqueError::DeserializationError,
{
    proof {
        lemma_pow256_small();
    }
    let dst = dst_hash_to_scalar();
    let mut i: usize = 0;
    while i < 256
        invariant
            i <= 256,
            dst@ == spec_dst_hash_to_scalar(),
            spec_hash_to_scalar(seed@) == spec_hash_to_scalar_from(seed@, i as nat),
        decreases 256 - i,
    {
        let msg: Vec<u8> = if i == 0 {
            vstd::slice::slice_to_vec(seed)
        } else {
            let ctr = i2osp(i, 1);
            bytes_concat(seed, ctr.as_slice())
        };
        let uniform = match expand_message_xmd(msg.as_slice(), dst.as_slice(), 64) {
            Ok(v) => v,
            Err(_) => {
                proof {
                    assert(false);
                }
                return Err(OpaqueError::DeserializationError);
            },
        };
        let candidate = scalar_reduce_wide(uniform.as_slice());
        proof {
            assert(candidate@ == spec_h2s_attempt(seed@, i as nat));
        }
        let zeros = crate::common::byte_repeat(0u8, 32);
        if !crate::common::ct_equal(candidate.as_slice(), zeros.as_slice()) {
            return Ok(candidate);
        }
        i += 1;
    }
    Err(OpaqueError::DeserializationError)
}

/// `DeriveKeyPair(seed)`: the private scalar from `HashToScalar` and the
/// public key `sk * B`.
pub fn derive_keypair(seed: &[u8]) -> (r: Result<KeyPair, OpaqueError>)
    ensures
        r is Ok <==> spec_derived_sk(seed@) is Some,
        r is Ok ==> Some(r->Ok_0.pri_k@) == spec_derived_sk(seed@),
        r is Ok ==> r->Ok_0.pub_k@ == spec_derived_pk(seed@),
        r is Ok ==> r->Ok_0.wf(),
        r is Err ==> r->Err_0 == OpaqueError::DeserializationError,
{
    let sk = match hash_to_scalar(seed) {
        Ok(v) => v,
        Err(e) => {
            return Err(e);
        },
    };
    let pk = scalar_base_mult(sk.as_slice());
    Ok(KeyPair { pub_k: pk, pri_k: sk })
}

/// `"OprfKey"`, the info label of the per-credential OPRF key.
pub open spec fn spec_label_oprf_key() -> Seq<u8> {
    seq![0x4fu8, 0x70u8, 0x72u8, 0x66u8, 0x4bu8, 0x65u8, 0x79u8]
}

pub(crate) fn label_oprf_key() -> (r: Vec<u8>)
    ensures
        r@ == spec_label_oprf_key(),
{
    let label: Vec<u8> = vec![0x4fu8, 0x70u8, 0x72u8, 0x66u8, 0x4bu8, 0x65u8, 0x79u8];
    label
}

/// The per-credential OPRF key: `DeriveKeyPair(HKDF-Expand(oprf_seed,
/// credential_identifier || "OprfKey", Nok))`, private half only.
pub open spec fn spec_oprf_key(oprf_seed: Seq<u8>, credential_identifier: Seq<u8>) -> Option<
    Seq<u8>,
> {
    spec_derived_sk(
        spec_hkdf_expand(oprf_seed, credential_identifier + spec_label_oprf_key(), 32),
    )
}

/// Derive the OPRF key the server uses for one credential identifier from
/// its long-term seed.  Deterministic: the same seed and identifier always
/// give the same key.
pub fn oprf_key_from_seed(oprf_seed: &[u8], credential_identifier: &[u8]) -> (r: Result<
    Vec<u8>,
    OpaqueError,
>)
    requires
        oprf_seed@.len() == 64,
    ensures
        r is Ok <==> spec_oprf_key(oprf_seed@, credential_identifier@) is Some,
        r is Ok ==> Some(r->Ok_0@) == spec_oprf_key(oprf_seed@, credential_identifier@),
        r is Ok ==> r->Ok_0@.len() == 32 && spec_scalar_canonical(r->Ok_0@) && r->Ok_0@
            != spec_zeros(32),
        r is Err ==> r->Err_0 == OpaqueError::DeserializationError,
{
    let label = label_oprf_key();
    let info = bytes_concat(credential_identifier, label.as_slice());
    let ikm = match hkdf_expand(oprf_seed, info.as_slice(), 32) {
        Ok(v) => v,
        Err(_) => {
            proof {
                assert(false);
            }
            return Err(OpaqueError::DeserializationError);
        },
    };
    let sk = match hash_to_scalar(ikm.as_slice()) {
        Ok(v) => v,
        Err(e) => {
            return Err(e);
        },
    };
    Ok(sk)
}

} // verus!
