//! The credential envelope: the client-side package sealed with
//! password-derived material and bound to the server identity.  Built at
//! registration, recovered at login; a failed authentication tag reveals
//! nothing about which input differed.

use vstd::prelude::*;

use crate::OpaqueError;
use crate::common::{
    bytes_concat, ct_equal, i2osp_serialize, lemma_pow256_small, spec_i2osp_serialize, spec_xor,
    spec_zeros, xor_fixed,
};
use crate::group::{
    scalar_base_mult, spec_base_mul, spec_dh_commutes, spec_point_valid, spec_scalar_canonical,
};
use crate::hash::{hkdf_expand, hmac_sha512, spec_hkdf_expand, spec_hmac};
use crate::keys::{derive_keypair, spec_derived_pk, spec_derived_sk, KeyPair};
use crate::rng::random_bytes;

verus! {

/// The default of an optional identity: the given encoded public key.
pub open spec fn spec_or_default(id: Option<Seq<u8>>, dflt: Seq<u8>) -> Seq<u8> {
    match id {
        Some(v) => v,
        None => dflt,
    }
}

/// The view of an optional byte-string argument.
pub open spec fn spec_opt_view(id: Option<Vec<u8>>) -> Option<Seq<u8>> {
    match id {
        Some(v) => Some(v@),
        None => None,
    }
}

/// Credentials bound into the envelope's authentication tag.  Not
/// transmitted on the wire.
#[derive(Debug)]
pub struct CleartextCredentials {
    /// Encoded server public key for the AKE protocol.
    pub server_public_key: Vec<u8>,
    /// Typically a domain name; defaults to the encoded server public key.
    pub server_identity: Vec<u8>,
    /// Application-specific value; defaults to the encoded client public key.
    pub client_identity: Vec<u8>,
}

/// `server_public_key || I2OSP(|si|,2) || si || I2OSP(|ci|,2) || ci`.
pub open spec fn spec_serialize_cleartext(spk: Seq<u8>, si: Seq<u8>, ci: Seq<u8>) -> Seq<u8> {
    spk + spec_i2osp_serialize(si, 2) + spec_i2osp_serialize(ci, 2)
}

impl CleartextCredentials {
    /// Both identities fit behind their two-octet length prefixes.
    pub open spec fn wf(self) -> bool {
        &&& self.server_identity@.len() < 65536
        &&& self.client_identity@.len() < 65536
    }

    /// Assemble the credentials, applying the public-key defaults for the
    /// identities that were not supplied.
    pub fn new(
        server_pub_key: Vec<u8>,
        client_pub_key: Vec<u8>,
        server_identity: Option<Vec<u8>>,
        client_identity: Option<Vec<u8>>,
    ) -> (r: Self)
        requires
            server_pub_key@.len() < 65536,
            client_pub_key@.len() < 65536,
            server_identity is Some ==> server_identity->0@.len() < 65536,
            client_identity is Some ==> client_identity->0@.len() < 65536,
        ensures
            r.server_public_key@ == server_pub_key@,
            r.server_identity@ == spec_or_default(spec_opt_view(server_identity), server_pub_key@),
            r.client_identity@ == spec_or_default(spec_opt_view(client_identity), client_pub_key@),
            r.wf(),
    {
        let srv_identity: Vec<u8> = match server_identity {
            Some(identity) => identity,
            None => vstd::slice::slice_to_vec(server_pub_key.as_slice()),
        };
        let cli_identity: Vec<u8> = match client_identity {
            Some(identity) => identity,
            None => client_pub_key,
        };
        CleartextCredentials {
            server_public_key: server_pub_key,
            server_identity: srv_identity,
            client_identity: cli_identity,
        }
    }

    /// The octet string the authentication tag covers.
    pub fn serialize(&self) -> (r: Vec<u8>)
        requires
            self.wf(),
        ensures
            r@ == spec_serialize_cleartext(
                self.server_public_key@,
                self.server_identity@,
                self.client_identity@,
            ),
    {
        proof {
            lemma_pow256_small();
        }
        let si = i2osp_serialize(self.server_identity.as_slice(), 2);
        let ci = i2osp_serialize(self.client_identity.as_slice(), 2);
        let mut out = bytes_concat(self.server_public_key.as_slice(), si.as_slice());
        out = bytes_concat(out.as_slice(), ci.as_slice());
        out
    }
}

/// The two envelope layouts.  In internal mode the client key pair is
/// derived from the password-derived randomness and nothing is stored; in
/// external mode an imported private key is stored encrypted.
#[derive(Clone, Copy, Debug, PartialEq, Eq, Structural)]
pub enum EnvelopeMode {
    Internal,
    External,
}

/// The mode-dependent inner part: in external mode, the client private key
/// under a pseudo-random pad.  Authenticated by the outer envelope's tag.
#[derive(Debug)]
pub struct InnerEnvelope {
    /// The encrypted client private key, `sk xor pad`.
    pub credentials: Vec<u8>,
}

/// `"AuthKey"`.
pub open spec fn spec_label_auth_key() -> Seq<u8> {
    seq![0x41u8, 0x75u8, 0x74u8, 0x68u8, 0x4bu8, 0x65u8, 0x79u8]
}

/// `"ExportKey"`.
pub open spec fn spec_label_export_key() -> Seq<u8> {
    seq![0x45u8, 0x78u8, 0x70u8, 0x6fu8, 0x72u8, 0x74u8, 0x4bu8, 0x65u8, 0x79u8]
}

/// `"MaskingKey"`.
pub open spec fn spec_label_masking_key() -> Seq<u8> {
    seq![0x4du8, 0x61u8, 0x73u8, 0x6bu8, 0x69u8, 0x6eu8, 0x67u8, 0x4bu8, 0x65u8, 0x79u8]
}

/// `"PrivateKey"`.
pub open spec fn spec_label_private_key() -> Seq<u8> {
    seq![0x50u8, 0x72u8, 0x69u8, 0x76u8, 0x61u8, 0x74u8, 0x65u8, 0x4bu8, 0x65u8, 0x79u8]
}

/// `"Pad"`.
pub open spec fn spec_label_pad() -> Seq<u8> {
    seq![0x50u8, 0x61u8, 0x64u8]
}

pub(crate) fn label_auth_key() -> (r: Vec<u8>)
    ensures
        r@ == spec_label_auth_key(),
{
    let label: Vec<u8> = vec![0x41u8, 0x75u8, 0x74u8, 0x68u8, 0x4bu8, 0x65u8, 0x79u8];
    label
}

pub(crate) fn label_export_key() -> (r: Vec<u8>)
    ensures
        r@ == spec_label_export_key(),
{
    let label: Vec<u8> = vec![0x45u8, 0x78u8, 0x70u8, 0x6fu8, 0x72u8, 0x74u8, 0x4bu8, 0x65u8, 0x79u8];
    label
}

pub(crate) fn label_masking_key() -> (r: Vec<u8>)
    ensures
        r@ == spec_label_masking_key(),
{
    let label: Vec<u8> = vec![
        0x4du8, 0x61u8, 0x73u8, 0x6bu8, 0x69u8, 0x6eu8, 0x67u8, 0x4bu8, 0x65u8, 0x79u8,
    ];
    label
}

pub(crate) fn label_private_key() -> (r: Vec<u8>)
    ensures
        r@ == spec_label_private_key(),
{
    let label: Vec<u8> = vec![
        0x50u8, 0x72u8, 0x69u8, 0x76u8, 0x61u8, 0x74u8, 0x65u8, 0x4bu8, 0x65u8, 0x79u8,
    ];
    label
}

pub(crate) fn label_pad() -> (r: Vec<u8>)
    ensures
        r@ == spec_label_pad(),
{
    let label: Vec<u8> = vec![0x50u8, 0x61u8, 0x64u8];
    label
}

/// `HKDF-Expand(randomized_pwd, nonce || "AuthKey", Nh)`.
pub open spec fn spec_auth_key(rp: Seq<u8>, nonce: Seq<u8>) -> Seq<u8> {
    spec_hkdf_expand(rp, nonce + spec_label_auth_key(), 64)
}

/// `HKDF-Expand(randomized_pwd, nonce || "ExportKey", Nh)`.
pub open spec fn spec_export_key(rp: Seq<u8>, nonce: Seq<u8>) -> Seq<u8> {
    spec_hkdf_expand(rp, nonce + spec_label_export_key(), 64)
}

/// `HKDF-Expand(randomized_pwd, "MaskingKey", Nh)`.
pub open spec fn spec_masking_key(rp: Seq<u8>) -> Seq<u8> {
    spec_hkdf_expand(rp, spec_label_masking_key(), 64)
}

/// `HKDF-Expand(randomized_pwd, nonce || "PrivateKey", Nsk)`: the seed the
/// internal-mode key pair is derived from.
pub open spec fn spec_internal_seed(rp: Seq<u8>, nonce: Seq<u8>) -> Seq<u8> {
    spec_hkdf_expand(rp, nonce + spec_label_private_key(), 32)
}

/// The internal-mode private key, when derivable.
pub open spec fn spec_internal_sk(rp: Seq<u8>, nonce: Seq<u8>) -> Option<Seq<u8>> {
    spec_derived_sk(spec_internal_seed(rp, nonce))
}

/// The internal-mode public key.
pub open spec fn spec_internal_pk(rp: Seq<u8>, nonce: Seq<u8>) -> Seq<u8> {
    spec_derived_pk(spec_internal_seed(rp, nonce))
}

/// `HKDF-Expand(randomized_pwd, nonce || "Pad", Nsk)`: the external-mode
/// encryption pad.
pub open spec fn spec_external_pad(rp: Seq<u8>, nonce: Seq<u8>) -> Seq<u8> {
    spec_hkdf_expand(rp, nonce + spec_label_pad(), 32)
}

impl EnvelopeMode {
    /// `DeriveAuthKeyPair(seed)`: the AKE key pair grown from a seed, with
    /// `HashToScalar` under the `"OPAQUE-HashToScalar"` tag.
    pub fn derive_auth_keypair(seed: &[u8]) -> (r: Result<KeyPair, OpaqueError>)
        ensures
            r is Ok <==> spec_derived_sk(seed@) is Some,
            r is Ok ==> Some(r->Ok_0.pri_k@) == spec_derived_sk(seed@),
            r is Ok ==> r->Ok_0.pub_k@ == spec_derived_pk(seed@),
            r is Ok ==> r->Ok_0.wf(),
            r is Err ==> r->Err_0 == OpaqueError::DeserializationError,
    {
        derive_keypair(seed)
    }

    /// Build the mode-dependent inner envelope.  In internal mode the key
    /// pair is derived from the randomized password and nothing is stored;
    /// in external mode the supplied private key is stored encrypted under a
    /// pseudo-random pad.  Returns the inner envelope and the client public
    /// key.
    pub fn build_inner_envelope(
        &self,
        randomized_pwd: &[u8],
        nonce: &[u8],
        client_private_key: &Option<Vec<u8>>,
    ) -> (r: Result<(Option<InnerEnvelope>, Vec<u8>), OpaqueError>)
        requires
            randomized_pwd@.len() == 64,
            nonce@.len() == 32,
            client_private_key is Some ==> client_private_key->0@.len() == 32,
        ensures
            self is Internal ==> (r is Ok <==> spec_internal_sk(randomized_pwd@, nonce@) is Some),
            self is Internal && r is Ok ==> ({
                let (inner, cpk) = r->Ok_0;
                &&& inner is None
                &&& cpk@ == spec_internal_pk(randomized_pwd@, nonce@)
                &&& cpk@.len() == 32
                &&& spec_point_valid(cpk@)
                &&& spec_internal_sk(randomized_pwd@, nonce@)->0.len() == 32
            }),
            self is External ==> (r is Ok <==> client_private_key is Some),
            self is External && r is Ok ==> ({
                let (inner, cpk) = r->Ok_0;
                &&& inner is Some
                &&& inner->0.credentials@ == spec_xor(
                    client_private_key->0@,
                    spec_external_pad(randomized_pwd@, nonce@),
                )
                &&& inner->0.credentials@.len() == 32
                &&& cpk@ == spec_base_mul(client_private_key->0@)
                &&& cpk@.len() == 32
                &&& spec_point_valid(cpk@)
                &&& spec_dh_commutes(client_private_key->0@, cpk@)
            }),
            r is Err ==> r->Err_0 == OpaqueError::DeserializationError || r->Err_0
                == OpaqueError::UsageError,
            r is Err && r->Err_0 == OpaqueError::UsageError ==> self is External
                && client_private_key is None,
    {
        match self {
            EnvelopeMode::Internal => {
                let label = label_private_key();
                let info = bytes_concat(nonce, label.as_slice());
                let seed = match hkdf_expand(randomized_pwd, info.as_slice(), 32) {
                    Ok(v) => v,
                    Err(_) => {
                        proof {
                            assert(false);
                        }
                        return Err(OpaqueError::DeserializationError);
                    },
                };
                let pair = match derive_keypair(seed.as_slice()) {
                    Ok(v) => v,
                    Err(e) => {
                        return Err(e);
                    },
                };
                Ok((None, pair.pub_k))
            },
            EnvelopeMode::External => {
                let sk = match client_private_key {
                    Some(v) => v,
                    None => {
                        return Err(OpaqueError::UsageError);
                    },
                };
                let label = label_pad();
                let info = bytes_concat(nonce, label.as_slice());
                let pad = match hkdf_expand(randomized_pwd, info.as_slice(), 32) {
                    Ok(v) => v,
                    Err(_) => {
                        proof {
                            assert(false);
                        }
                        return Err(OpaqueError::DeserializationError);
                    },
                };
                let encrypted = xor_fixed(sk.as_slice(), pad.as_slice());
                let pk = scalar_base_mult(sk.as_slice());
                Ok((Some(InnerEnvelope { credentials: encrypted }), pk))
            },
        }
    }

    /// Recover the client key pair from the inner envelope: re-derive it in
    /// internal mode, strip the pad and recompute the public key in external
    /// mode.
    pub fn recover_keys(
        &self,
        randomized_pwd: &[u8],
        nonce: &[u8],
        inner_env: &Option<InnerEnvelope>,
    ) -> (r: Result<(Vec<u8>, Vec<u8>), OpaqueError>)
        requires
            randomized_pwd@.len() == 64,
            nonce@.len() == 32,
            self is External ==> inner_env is Some && inner_env->0.credentials@.len() == 32,
        ensures
            self is Internal ==> (r is Ok <==> spec_internal_sk(randomized_pwd@, nonce@) is Some),
            self is Internal && r is Ok ==> ({
                let (sk, pk) = r->Ok_0;
                &&& Some(sk@) == spec_internal_sk(randomized_pwd@, nonce@)
                &&& pk@ == spec_internal_pk(randomized_pwd@, nonce@)
                &&& sk@.len() == 32
                &&& pk@.len() == 32
                &&& spec_scalar_canonical(sk@)
                &&& sk@ != spec_zeros(32)
                &&& pk@ == spec_base_mul(sk@)
                &&& spec_point_valid(pk@)
                &&& spec_dh_commutes(sk@, pk@)
            }),
            self is External ==> r is Ok,
            self is External && r is Ok ==> ({
                let (sk, pk) = r->Ok_0;
                &&& sk@ == spec_xor(
                    inner_env->0.credentials@,
                    spec_external_pad(randomized_pwd@, nonce@),
                )
                &&& sk@.len() == 32
                &&& pk@ == spec_base_mul(sk@)
                &&& pk@.len() == 32
                &&& spec_point_valid(pk@)
                &&& spec_dh_commutes(sk@, pk@)
            }),
            r is Err ==> r->Err_0 == OpaqueError::DeserializationError,
    {
        match self {
            EnvelopeMode::Internal => {
                let label = label_private_key();
                let info = bytes_concat(nonce, label.as_slice());
                let seed = match hkdf_expand(randomized_pwd, info.as_slice(), 32) {
                    Ok(v) => v,
                    Err(_) => {
                        proof {
                            assert(false);
                        }
                        return Err(OpaqueError::DeserializationError);
                    },
                };
                let pair = match derive_keypair(seed.as_slice()) {
                    Ok(v) => v,
                    Err(e) => {
                        return Err(e);
                    },
                };
                Ok((pair.pri_k, pair.pub_k))
            },
            EnvelopeMode::External => {
                let inner = match inner_env {
                    Some(v) => v,
                    None => {
                        proof {
                            assert(false);
                        }
                        return Err(OpaqueError::DeserializationError);
                    },
                };
                let label = label_pad();
                let info = bytes_concat(nonce, label.as_slice());
                let pad = match hkdf_expand(randomized_pwd, info.as_slice(), 32) {
                    Ok(v) => v,
                    Err(_) => {
                        proof {
                            assert(false);
                        }
                        return Err(OpaqueError::DeserializationError);
                    },
                };
                let sk = xor_fixed(inner.credentials.as_slice(), pad.as_slice());
                let pk = scalar_base_mult(sk.as_slice());
                Ok((sk, pk))
            },
        }
    }
}

/// The client's sealed credential package: a nonce, the mode-dependent
/// inner envelope, and an authentication tag over nonce, inner envelope and
/// cleartext credentials.
#[derive(Debug)]
pub struct Envelope {
    /// Unique nonce protecting the envelope.
    pub nonce: Vec<u8>,
    /// The mode-dependent inner part; `None` in internal mode.
    pub inner_env: Option<InnerEnvelope>,
    /// HMAC-SHA-512 tag covering nonce, inner envelope and cleartext
    /// credentials.
    pub auth_tag: Vec<u8>,
}

/// The octets of the inner envelope: empty in internal mode.
pub open spec fn spec_inner_bytes(inner: Option<InnerEnvelope>) -> Seq<u8> {
    match inner {
        Some(i) => i.credentials@,
        None => Seq::empty(),
    }
}

/// The envelope's authentication tag:
/// `HMAC(auth_key, nonce || inner || serialized cleartext credentials)`.
pub open spec fn spec_envelope_tag(
    rp: Seq<u8>,
    nonce: Seq<u8>,
    inner: Seq<u8>,
    spk: Seq<u8>,
    si: Seq<u8>,
    ci: Seq<u8>,
) -> Seq<u8> {
    spec_hmac(spec_auth_key(rp, nonce), nonce + inner + spec_serialize_cleartext(spk, si, ci))
}

/// The serialized envelope size for a mode: `Nn + |inner| + Nm`.
pub open spec fn spec_envelope_size(mode: EnvelopeMode) -> nat {
    match mode {
        EnvelopeMode::Internal => 96,
        EnvelopeMode::External => 128,
    }
}

impl Envelope {
    /// Well-formed for a mode: fixed nonce and tag sizes, and an inner part
    /// exactly when the mode stores one.
    pub open spec fn wf(self, mode: EnvelopeMode) -> bool {
        &&& self.nonce@.len() == 32
        &&& self.auth_tag@.len() == 64
        &&& (mode is Internal ==> self.inner_env is None)
        &&& (mode is External ==> self.inner_env is Some && self.inner_env->0.credentials@.len()
            == 32)
    }

    /// `nonce || inner || auth_tag`.
    pub open spec fn spec_serialize(self) -> Seq<u8> {
        self.nonce@ + spec_inner_bytes(self.inner_env) + self.auth_tag@
    }

    /// Serialize the envelope for the wire or the record.
    pub fn serialize(&self) -> (r: Vec<u8>)
        ensures
            r@ == self.spec_serialize(),
    {
        let mut out = vstd::slice::slice_to_vec(self.nonce.as_slice());
        match &self.inner_env {
            Some(inner) => {
                out = bytes_concat(out.as_slice(), inner.credentials.as_slice());
            },
            None => {
                proof {
                    assert(self.nonce@ + spec_inner_bytes(self.inner_env) =~= self.nonce@);
                }
            },
        }
        out = bytes_concat(out.as_slice(), self.auth_tag.as_slice());
        out
    }

    /// Parse an envelope of the given mode from exactly `Ne` octets.
    pub fn deserialize(mode: EnvelopeMode, bytes: &[u8]) -> (r: Result<Envelope, OpaqueError>)
        ensures
            r is Ok <==> bytes@.len() == spec_envelope_size(mode),
            r is Ok ==> r->Ok_0.wf(mode) && r->Ok_0.spec_serialize() == bytes@,
            r is Ok ==> r->Ok_0.nonce@ == bytes@.subrange(0, 32) && spec_inner_bytes(
                r->Ok_0.inner_env,
            ) == bytes@.subrange(32, spec_envelope_size(mode) - 64) && r->Ok_0.auth_tag@
                == bytes@.subrange(
                spec_envelope_size(mode) - 64,
                spec_envelope_size(mode) as int,
            ),
            r is Err ==> r->Err_0 == OpaqueError::DeserializationError,
    {
        let inner_len: usize = match mode {
            EnvelopeMode::Internal => 0,
            EnvelopeMode::External => 32,
        };
        if bytes.len() != 96 + inner_len {
            return Err(OpaqueError::DeserializationError);
        }
        let nonce = vstd::slice::slice_to_vec(vstd::slice::slice_subrange(bytes, 0, 32));
        let inner_env: Option<InnerEnvelope> = match mode {
            EnvelopeMode::Internal => None,
            EnvelopeMode::External => Some(
                InnerEnvelope {
                    credentials: vstd::slice::slice_to_vec(
                        vstd::slice::slice_subrange(bytes, 32, 64),
                    ),
                },
            ),
        };
        let tag_start: usize = 32 + inner_len;
        let auth_tag = vstd::slice::slice_to_vec(
            vstd::slice::slice_subrange(bytes, tag_start, tag_start + 64),
        );
        let env = Envelope { nonce, inner_env, auth_tag };
        proof {
            assert(env.spec_serialize() =~= bytes@);
        }
        Ok(env)
    }

    /// Seal an envelope at registration: draw a nonce, derive the auth,
    /// export and masking keys, build the inner envelope, and tag the whole
    /// against the cleartext credentials.  Returns the envelope, the client
    /// public key, the masking key and the export key.
    pub fn create(
        mode: EnvelopeMode,
        randomized_pwd: &[u8],
        server_pub_key: &[u8],
        client_private_key: &Option<Vec<u8>>,
        server_identity: &Option<Vec<u8>>,
        client_identity: &Option<Vec<u8>>,
    ) -> (r: Result<(Envelope, Vec<u8>, Vec<u8>, Vec<u8>), OpaqueError>)
        requires
            randomized_pwd@.len() == 64,
            server_pub_key@.len() == 32,
            client_private_key is Some ==> client_private_key->0@.len() == 32,
            server_identity is Some ==> server_identity->0@.len() < 65536,
            client_identity is Some ==> client_identity->0@.len() < 65536,
        ensures
            r is Ok ==> ({
                let (env, cpk, masking_key, export_key) = r->Ok_0;
                &&& env.wf(mode)
                &&& (mode is Internal ==> cpk@ == spec_internal_pk(randomized_pwd@, env.nonce@)
                    && spec_internal_sk(randomized_pwd@, env.nonce@) is Some
                    && spec_internal_sk(randomized_pwd@, env.nonce@)->0.len() == 32)
                &&& (mode is External ==> env.inner_env->0.credentials@ == spec_xor(
                    client_private_key->0@,
                    spec_external_pad(randomized_pwd@, env.nonce@),
                ) && cpk@ == spec_base_mul(client_private_key->0@) && spec_dh_commutes(
                    client_private_key->0@,
                    cpk@,
                ))
                &&& cpk@.len() == 32
                &&& spec_point_valid(cpk@)
                &&& masking_key@ == spec_masking_key(randomized_pwd@)
                &&& masking_key@.len() == 64
                &&& export_key@ == spec_export_key(randomized_pwd@, env.nonce@)
                &&& export_key@.len() == 64
                &&& env.auth_tag@ == spec_envelope_tag(
                    randomized_pwd@,
                    env.nonce@,
                    spec_inner_bytes(env.inner_env),
                    server_pub_key@,
                    spec_or_default(spec_opt_view(*server_identity), server_pub_key@),
                    spec_or_default(spec_opt_view(*client_identity), cpk@),
                )
            }),
            r is Err ==> r->Err_0 == OpaqueError::RngFailure || r->Err_0
                == OpaqueError::DeserializationError || r->Err_0 == OpaqueError::UsageError,
            r is Err && r->Err_0 == OpaqueError::UsageError ==> mode is External
                && client_private_key is None,
            mode is External && client_private_key is Some ==> !(r is Err && r->Err_0
                == OpaqueError::DeserializationError),
    {
        let nonce = match random_bytes(32) {
            Ok(v) => v,
            Err(e) => {
                return Err(e);
            },
        };
        let label_a = label_auth_key();
        let info_a = bytes_concat(nonce.as_slice(), label_a.as_slice());
        let auth_key = match hkdf_expand(randomized_pwd, info_a.as_slice(), 64) {
            Ok(v) => v,
            Err(_) => {
                proof {
                    assert(false);
                }
                return Err(OpaqueError::RngFailure);
            },
        };
        let label_e = label_export_key();
        let info_e = bytes_concat(nonce.as_slice(), label_e.as_slice());
        let export_key = match hkdf_expand(randomized_pwd, info_e.as_slice(), 64) {
            Ok(v) => v,
            Err(_) => {
                proof {
                    assert(false);
                }
                return Err(OpaqueError::RngFailure);
            },
        };
        let label_m = label_masking_key();
        let masking_key = match hkdf_expand(randomized_pwd, label_m.as_slice(), 64) {
            Ok(v) => v,
            Err(_) => {
                proof {
                    assert(false);
                }
                return Err(OpaqueError::RngFailure);
            },
        };
        let (inner_env, client_pub_key) = match mode.build_inner_envelope(
            randomized_pwd,
            nonce.as_slice(),
            client_private_key,
        ) {
            Ok(v) => v,
            Err(e) => {
                return Err(e);
            },
        };
        let creds = CleartextCredentials::new(
            vstd::slice::slice_to_vec(server_pub_key),
            vstd::slice::slice_to_vec(client_pub_key.as_slice()),
            clone_opt_bytes(server_identity),
            clone_opt_bytes(client_identity),
        );
        let creds_bytes = creds.serialize();
        let inner_bytes: Vec<u8> = match &inner_env {
            Some(inner) => vstd::slice::slice_to_vec(inner.credentials.as_slice()),
            None => Vec::new(),
        };
        let mut mac_input = bytes_concat(nonce.as_slice(), inner_bytes.as_slice());
        mac_input = bytes_concat(mac_input.as_slice(), creds_bytes.as_slice());
        let auth_tag = hmac_sha512(auth_key.as_slice(), mac_input.as_slice());
        let env = Envelope { nonce, inner_env, auth_tag };
        Ok((env, client_pub_key, masking_key, export_key))
    }

    /// Recover the client keys from an envelope at login.  Succeeds exactly
    /// when the keys can be re-derived and the recomputed tag equals the
    /// stored one; the comparison is constant-time.  Returns the client
    /// private key and the export key.
    pub fn recover(
        &self,
        mode: EnvelopeMode,
        randomized_pwd: &[u8],
        server_pub_key: &[u8],
        server_identity: &Option<Vec<u8>>,
        client_identity: &Option<Vec<u8>>,
    ) -> (r: Result<(Vec<u8>, Vec<u8>), OpaqueError>)
        requires
            self.wf(mode),
            randomized_pwd@.len() == 64,
            server_pub_key@.len() == 32,
            server_identity is Some ==> server_identity->0@.len() < 65536,
            client_identity is Some ==> client_identity->0@.len() < 65536,
        ensures
            r is Ok <==> ({
                let keys_ok = mode is External || spec_internal_sk(
                    randomized_pwd@,
                    self.nonce@,
                ) is Some;
                let inner = spec_inner_bytes(self.inner_env);
                let pk = spec_recovered_pk(mode, randomized_pwd@, self.nonce@, inner);
                keys_ok && self.auth_tag@ == spec_envelope_tag(
                    randomized_pwd@,
                    self.nonce@,
                    inner,
                    server_pub_key@,
                    spec_or_default(spec_opt_view(*server_identity), server_pub_key@),
                    spec_or_default(spec_opt_view(*client_identity), pk),
                )
            }),
            r is Ok ==> ({
                let (sk, export_key) = r->Ok_0;
                &&& sk@ == spec_recovered_sk(
                    mode,
                    randomized_pwd@,
                    self.nonce@,
                    spec_inner_bytes(self.inner_env),
                )
                &&& sk@.len() == 32
                &&& export_key@ == spec_export_key(randomized_pwd@, self.nonce@)
                &&& export_key@.len() == 64
            }),
            r is Err ==> r->Err_0 == OpaqueError::DeserializationError || r->Err_0
                == OpaqueError::EnvelopeRecoveryError,
            r is Err && r->Err_0 == OpaqueError::DeserializationError ==> mode is Internal
                && spec_internal_sk(randomized_pwd@, self.nonce@) is None,
    {
        let label_a = label_auth_key();
        let info_a = bytes_concat(self.nonce.as_slice(), label_a.as_slice());
        let auth_key = match hkdf_expand(randomized_pwd, info_a.as_slice(), 64) {
            Ok(v) => v,
            Err(_) => {
                proof {
                    assert(false);
                }
                return Err(OpaqueError::EnvelopeRecoveryError);
            },
        };
        let label_e = label_export_key();
        let info_e = bytes_concat(self.nonce.as_slice(), label_e.as_slice());
        let export_key = match hkdf_expand(randomized_pwd, info_e.as_slice(), 64) {
            Ok(v) => v,
            Err(_) => {
                proof {
                    assert(false);
                }
                return Err(OpaqueError::EnvelopeRecoveryError);
            },
        };
        let (client_sk, client_pk) = match mode.recover_keys(
            randomized_pwd,
            self.nonce.as_slice(),
            &self.inner_env,
        ) {
            Ok(v) => v,
            Err(e) => {
                return Err(e);
            },
        };
        let creds = CleartextCredentials::new(
            vstd::slice::slice_to_vec(server_pub_key),
            vstd::slice::slice_to_vec(client_pk.as_slice()),
            clone_opt_bytes(server_identity),
            clone_opt_bytes(client_identity),
        );
        let creds_bytes = creds.serialize();
        let inner_bytes: Vec<u8> = match &self.inner_env {
            Some(inner) => vstd::slice::slice_to_vec(inner.credentials.as_slice()),
            None => Vec::new(),
        };
        let mut mac_input = bytes_concat(self.nonce.as_slice(), inner_bytes.as_slice());
        mac_input = bytes_concat(mac_input.as_slice(), creds_bytes.as_slice());
        let expected_tag = hmac_sha512(auth_key.as_slice(), mac_input.as_slice());
        if !ct_equal(self.auth_tag.as_slice(), expected_tag.as_slice()) {
            return Err(OpaqueError::EnvelopeRecoveryError);
        }
        Ok((client_sk, export_key))
    }
}

/// The private key `recover_keys` yields for a well-formed envelope, over
/// the inner envelope's octets.
pub open spec fn spec_recovered_sk(
    mode: EnvelopeMode,
    rp: Seq<u8>,
    nonce: Seq<u8>,
    inner: Seq<u8>,
) -> Seq<u8> {
    match mode {
        EnvelopeMode::Internal => spec_internal_sk(rp, nonce)->0,
        EnvelopeMode::External => spec_xor(inner, spec_external_pad(rp, nonce)),
    }
}

/// The public key `recover_keys` yields for a well-formed envelope.
pub open spec fn spec_recovered_pk(
    mode: EnvelopeMode,
    rp: Seq<u8>,
    nonce: Seq<u8>,
    inner: Seq<u8>,
) -> Seq<u8> {
    match mode {
        EnvelopeMode::Internal => spec_internal_pk(rp, nonce),
        EnvelopeMode::External => spec_base_mul(spec_recovered_sk(mode, rp, nonce, inner)),
    }
}

/// Clone an optional byte string, preserving its view.
pub fn clone_opt_bytes(v: &Option<Vec<u8>>) -> (r: Option<Vec<u8>>)
    ensures
        spec_opt_view(r) == spec_opt_view(*v),
        r is Some <==> v is Some,
        r is Some ==> r->0@ == v->0@,
{
    match v {
        Some(b) => Some(vstd::slice::slice_to_vec(b.as_slice())),
        None => None,
    }
}

} // verus!
