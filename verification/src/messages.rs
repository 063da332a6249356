//! The registration protocol: request, response, and the upload that the
//! server stores as the credential record.

pub mod ake;
pub mod credential;

use vstd::prelude::*;

use crate::OpaqueError;
use crate::common::{bytes_concat, spec_zeros};
use crate::envelope::{
    spec_envelope_size, spec_envelope_tag, spec_external_pad, spec_inner_bytes, spec_internal_pk,
    spec_masking_key, spec_opt_view, spec_or_default, Envelope, EnvelopeMode,
};
use crate::group::{
    spec_base_mul, spec_dh_commutes, spec_mul_commutes_at, spec_point_valid, spec_scalar_mul,
};
use crate::hash::{hkdf_expand, randomized_pwd, spec_hkdf_expand, spec_randomized_pwd};
use crate::keys::{oprf_key_from_seed, spec_oprf_key};
use crate::oprf::{
    blind, evaluate, finalize, spec_blinded_element, spec_oprf_finalize, spec_oprf_input_element,
};

verus! {

use crate::common::spec_xor;
use crate::group::{
    spec_scalar_canonical, spec_scalar_invert, spec_unblinds, spec_unblinds_evaluated,
};
use crate::envelope::spec_internal_sk;

/// The first registration message: the blinded OPRF element.
#[derive(Debug)]
pub struct RegistrationRequest {
    /// Serialized OPRF group element, `blind * HashToGroup(password)`.
    pub data: Vec<u8>,
}

impl RegistrationRequest {
    pub open spec fn wf(self) -> bool {
        self.data@.len() == 32
    }

    /// `blinded_element[32]`.
    pub open spec fn spec_serialize(self) -> Seq<u8> {
        self.data@
    }

    pub fn serialize(&self) -> (r: Vec<u8>)
        ensures
            r@ == self.spec_serialize(),
    {
        vstd::slice::slice_to_vec(self.data.as_slice())
    }

    pub fn deserialize(bytes: &[u8]) -> (r: Result<RegistrationRequest, OpaqueError>)
        ensures
            r is Ok <==> bytes@.len() == 32,
            r is Ok ==> r->Ok_0.wf() && r->Ok_0.data@ == bytes@,
            r is Err ==> r->Err_0 == OpaqueError::DeserializationError,
    {
        if bytes.len() != 32 {
            return Err(OpaqueError::DeserializationError);
        }
        Ok(RegistrationRequest { data: vstd::slice::slice_to_vec(bytes) })
    }

    /// Blind the password into a fresh registration request.  Returns the
    /// request and the blinding scalar the client must keep for
    /// `finalize_request`.  Fails only when the random source does.
    pub fn create_registration_request(password: &[u8]) -> (r: Result<
        (RegistrationRequest, Vec<u8>),
        OpaqueError,
    >)
        ensures
            r is Ok ==> ({
                let (request, b) = r->Ok_0;
                &&& request.wf()
                &&& b@.len() == 32
                &&& spec_scalar_canonical(b@)
                &&& b@ != spec_zeros(32)
                &&& request.data@ == spec_blinded_element(password@, b@)
                &&& spec_point_valid(request.data@)
                &&& spec_point_valid(spec_oprf_input_element(password@))
                &&& spec_mul_commutes_at(b@, spec_oprf_input_element(password@))
            }),
            r is Err ==> r->Err_0 == OpaqueError::RngFailure,
    {
        let (b, m) = match blind(password) {
            Ok(v) => v,
            Err(e) => {
                return Err(e);
            },
        };
        Ok((RegistrationRequest { data: m }, b))
    }
}

/// The second registration message: the evaluated element and the server
/// public key the record will be bound to.
#[derive(Debug)]
pub struct RegistrationResponse {
    /// Serialized OPRF group element, `oprf_key * blinded_element`.
    pub data: Vec<u8>,
    /// The server's encoded long-term public key for the AKE.
    pub server_pub_key: Vec<u8>,
}

impl RegistrationResponse {
    pub open spec fn wf(self) -> bool {
        self.data@.len() == 32 && self.server_pub_key@.len() == 32
    }

    /// `evaluated_element[32] || server_pk[32]`.
    pub open spec fn spec_serialize(self) -> Seq<u8> {
        self.data@ + self.server_pub_key@
    }

    pub fn serialize(&self) -> (r: Vec<u8>)
        ensures
            r@ == self.spec_serialize(),
    {
        bytes_concat(self.data.as_slice(), self.server_pub_key.as_slice())
    }

    pub fn deserialize(bytes: &[u8]) -> (r: Result<RegistrationResponse, OpaqueError>)
        ensures
            r is Ok <==> bytes@.len() == 64,
            r is Ok ==> r->Ok_0.wf() && r->Ok_0.data@ == bytes@.subrange(0, 32)
                && r->Ok_0.server_pub_key@ == bytes@.subrange(32, 64) && r->Ok_0.spec_serialize()
                == bytes@,
            r is Err ==> r->Err_0 == OpaqueError::DeserializationError,
    {
        if bytes.len() != 64 {
            return Err(OpaqueError::DeserializationError);
        }
        let data = vstd::slice::slice_to_vec(vstd::slice::slice_subrange(bytes, 0, 32));
        let spk = vstd::slice::slice_to_vec(vstd::slice::slice_subrange(bytes, 32, 64));
        let resp = RegistrationResponse { data, server_pub_key: spk };
        proof {
            assert(resp.spec_serialize() =~= bytes@);
        }
        Ok(resp)
    }

    /// Evaluate a registration request under the per-credential OPRF key
    /// derived from the server's seed.  Deterministic given the seed and
    /// identifier; rejects blinded elements that are not canonical point
    /// encodings.
    pub fn create_registration_response(
        request: &RegistrationRequest,
        server_pub_key: &[u8],
        credential_identifier: &[u8],
        oprf_seed: &[u8],
    ) -> (r: Result<RegistrationResponse, OpaqueError>)
        requires
            request.wf(),
            server_pub_key@.len() == 32,
            oprf_seed@.len() == 64,
        ensures
            r is Ok <==> (spec_oprf_key(oprf_seed@, credential_identifier@) is Some
                && spec_point_valid(request.data@)),
            r is Ok ==> ({
                let key = spec_oprf_key(oprf_seed@, credential_identifier@)->0;
                &&& key.len() == 32
                &&& r->Ok_0.wf()
                &&& r->Ok_0.data@ == spec_scalar_mul(key, request.data@)
                &&& spec_point_valid(r->Ok_0.data@)
                &&& spec_mul_commutes_at(key, request.data@)
                &&& r->Ok_0.server_pub_key@ == server_pub_key@
            }),
            r is Err ==> r->Err_0 == OpaqueError::DeserializationError,
    {
        let oprf_key = match oprf_key_from_seed(oprf_seed, credential_identifier) {
            Ok(v) => v,
            Err(e) => {
                return Err(e);
            },
        };
        let evaluated = match evaluate(oprf_key.as_slice(), request.data.as_slice()) {
            Ok(v) => v,
            Err(e) => {
                return Err(e);
            },
        };
        Ok(
            RegistrationResponse {
                data: evaluated,
                server_pub_key: vstd::slice::slice_to_vec(server_pub_key),
            },
        )
    }
}

/// The third registration message, stored by the server as the credential
/// record.
#[derive(Debug)]
pub struct RegistrationUpload {
    /// The client's encoded public key.
    pub client_pub_key: Vec<u8>,
    /// The key masking the credential response during login.
    pub masking_key: Vec<u8>,
    /// The client's sealed envelope.
    pub envelope: Envelope,
}

impl RegistrationUpload {
    pub open spec fn wf(self, mode: EnvelopeMode) -> bool {
        &&& self.client_pub_key@.len() == 32
        &&& self.masking_key@.len() <= 64
        &&& self.masking_key@.len() >= 32
        &&& self.envelope.wf(mode)
    }

    /// `client_pk[32] || masking_key[64] || envelope`.
    pub open spec fn spec_serialize(self) -> Seq<u8> {
        self.client_pub_key@ + self.masking_key@ + self.envelope.spec_serialize()
    }

    pub fn serialize(&self) -> (r: Vec<u8>)
        ensures
            r@ == self.spec_serialize(),
    {
        let mut out = bytes_concat(self.client_pub_key.as_slice(), self.masking_key.as_slice());
        let env = self.envelope.serialize();
        out = bytes_concat(out.as_slice(), env.as_slice());
        out
    }

    pub fn deserialize(mode: EnvelopeMode, bytes: &[u8]) -> (r: Result<
        RegistrationUpload,
        OpaqueError,
    >)
        ensures
            r is Ok <==> bytes@.len() == 96 + spec_envelope_size(mode),
            r is Ok ==> r->Ok_0.wf(mode) && r->Ok_0.client_pub_key@ == bytes@.subrange(0, 32)
                && r->Ok_0.masking_key@ == bytes@.subrange(32, 96)
                && r->Ok_0.envelope.spec_serialize() == bytes@.subrange(96, bytes@.len() as int)
                && r->Ok_0.spec_serialize() == bytes@ && r->Ok_0.masking_key@.len() == 64,
            r is Err ==> r->Err_0 == OpaqueError::DeserializationError,
    {
        let env_len: usize = match mode {
            EnvelopeMode::Internal => 96,
            EnvelopeMode::External => 128,
        };
        if bytes.len() != 96 + env_len {
            return Err(OpaqueError::DeserializationError);
        }
        let cpk = vstd::slice::slice_to_vec(vstd::slice::slice_subrange(bytes, 0, 32));
        let mk = vstd::slice::slice_to_vec(vstd::slice::slice_subrange(bytes, 32, 96));
        let env_bytes = vstd::slice::slice_subrange(bytes, 96, 96 + env_len);
        let envelope = match Envelope::deserialize(mode, env_bytes) {
            Ok(v) => v,
            Err(e) => {
                proof {
                    assert(false);
                }
                return Err(e);
            },
        };
        let upload = RegistrationUpload { client_pub_key: cpk, masking_key: mk, envelope };
        proof {
            assert(upload.spec_serialize() =~= bytes@);
        }
        Ok(upload)
    }

    /// Finish registration on the client: unblind and hash the evaluated
    /// element, stretch it into the randomized password, and seal the
    /// envelope against the server public key and the chosen identities.
    /// Returns the record to upload and the export key.
    pub fn finalize_request(
        password: &[u8],
        blind_scalar: &[u8],
        response: &RegistrationResponse,
        mode: EnvelopeMode,
        client_private_key: &Option<Vec<u8>>,
        server_identity: &Option<Vec<u8>>,
        client_identity: &Option<Vec<u8>>,
    ) -> (r: Result<(RegistrationUpload, Vec<u8>), OpaqueError>)
        requires
            blind_scalar@.len() == 32,
            spec_scalar_canonical(blind_scalar@),
            blind_scalar@ != spec_zeros(32),
            response.wf(),
            client_private_key is Some ==> client_private_key->0@.len() == 32,
            server_identity is Some ==> server_identity->0@.len() < 65536,
            client_identity is Some ==> client_identity->0@.len() < 65536,
        ensures
            r is Ok ==> ({
                let (record, export_key) = r->Ok_0;
                let rp = spec_randomized_pwd(
                    spec_oprf_finalize(password@, blind_scalar@, response.data@),
                );
                let nonce = record.envelope.nonce@;
                &&& record.wf(mode)
                &&& record.masking_key@.len() == 64
                &&& (mode is Internal ==> record.client_pub_key@ == spec_internal_pk(rp, nonce))
                &&& (mode is External ==> record.client_pub_key@ == spec_base_mul(
                    client_private_key->0@,
                ) && spec_dh_commutes(client_private_key->0@, record.client_pub_key@)
                    && spec_inner_bytes(record.envelope.inner_env) == spec_xor(
                    client_private_key->0@,
                    spec_external_pad(rp, nonce),
                ))
                &&& record.masking_key@ == spec_masking_key(rp)
                &&& record.envelope.auth_tag@ == spec_envelope_tag(
                    rp,
                    nonce,
                    spec_inner_bytes(record.envelope.inner_env),
                    response.server_pub_key@,
                    spec_or_default(spec_opt_view(*server_identity), response.server_pub_key@),
                    spec_or_default(spec_opt_view(*client_identity), record.client_pub_key@),
                )
                &&& export_key@ == crate::envelope::spec_export_key(rp, nonce)
                &&& export_key@.len() == 64
                &&& spec_unblinds(spec_scalar_invert(blind_scalar@), blind_scalar@)
                &&& spec_unblinds_evaluated(spec_scalar_invert(blind_scalar@), blind_scalar@)
                &&& spec_point_valid(record.client_pub_key@)
                &&& (mode is Internal ==> spec_internal_sk(rp, nonce) is Some
                    && spec_internal_sk(rp, nonce)->0.len() == 32)
            }),
            r is Ok ==> password@.len() < 65536 && spec_point_valid(response.data@),
            r is Err ==> r->Err_0 == OpaqueError::RngFailure || r->Err_0
                == OpaqueError::DeserializationError || r->Err_0 == OpaqueError::UsageError,
            r is Err && r->Err_0 == OpaqueError::UsageError ==> mode is External
                && client_private_key is None,
            !(password@.len() < 65536 && spec_point_valid(response.data@)) ==> r == Err::<
                (RegistrationUpload, Vec<u8>),
                OpaqueError,
            >(OpaqueError::DeserializationError),
    {
        let y = match finalize(password, blind_scalar, response.data.as_slice()) {
            Ok(v) => v,
            Err(e) => {
                return Err(e);
            },
        };
        let rp = randomized_pwd(y.as_slice());
        let (envelope, client_pub_key, masking_key, export_key) = match Envelope::create(
            mode,
            rp.as_slice(),
            response.server_pub_key.as_slice(),
            client_private_key,
            server_identity,
            client_identity,
        ) {
            Ok(v) => v,
            Err(e) => {
                return Err(e);
            },
        };
        let record = RegistrationUpload { client_pub_key, masking_key, envelope };
        Ok((record, export_key))
    }

    /// The deterministic stand-in record for an unknown credential
    /// identifier: a masking key drawn from the OPRF seed and the
    /// identifier, an all-zero envelope of the expected size, and an
    /// all-zero client public key.  Responding with it makes the missing-
    /// record case indistinguishable in shape from the normal one.
    pub fn fake(mode: EnvelopeMode, oprf_seed: &[u8], credential_identifier: &[u8]) -> (r:
        RegistrationUpload)
        requires
            oprf_seed@.len() == 64,
        ensures
            r.wf(mode),
            r.client_pub_key@ == spec_zeros(32),
            r.masking_key@ == spec_hkdf_expand(
                oprf_seed@,
                credential_identifier@ + crate::envelope::spec_label_masking_key(),
                32,
            ),
            r.envelope.nonce@ == spec_zeros(32),
            r.envelope.auth_tag@ == spec_zeros(64),
            spec_inner_bytes(r.envelope.inner_env) == spec_zeros(
                (spec_envelope_size(mode) - 96) as nat,
            ),
    {
        let label = crate::envelope::label_masking_key();
        let info = bytes_concat(credential_identifier, label.as_slice());
        let masking_key = match hkdf_expand(oprf_seed, info.as_slice(), 32) {
            Ok(v) => v,
            Err(_) => {
                proof {
                    assert(false);
                }
                Vec::new()
            },
        };
        let inner_env: Option<crate::envelope::InnerEnvelope> = match mode {
            EnvelopeMode::Internal => None,
            EnvelopeMode::External => Some(
                crate::envelope::InnerEnvelope { credentials: crate::common::byte_repeat(0u8, 32) },
            ),
        };
        let envelope = Envelope {
            nonce: crate::common::byte_repeat(0u8, 32),
            inner_env,
            auth_tag: crate::common::byte_repeat(0u8, 64),
        };
        proof {
            if mode is Internal {
                assert(spec_inner_bytes(envelope.inner_env) =~= spec_zeros(0));
            }
        }
        RegistrationUpload {
            client_pub_key: crate::common::byte_repeat(0u8, 32),
            masking_key,
            envelope,
        }
    }
}

} // verus!
