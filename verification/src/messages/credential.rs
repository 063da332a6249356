//! The credential request and response exchanged inside the AKE: the OPRF
//! round, with the server public key and envelope masked under a
//! pseudo-random pad so that an unknown credential identifier is
//! indistinguishable from a known one.

use vstd::prelude::*;

use crate::OpaqueError;
use crate::common::{bytes_concat, spec_xor, spec_zeros, xor_fixed};
use crate::envelope::{
    spec_envelope_size, spec_envelope_tag, spec_export_key, spec_inner_bytes, spec_internal_sk,
    spec_masking_key, spec_opt_view, spec_or_default, spec_recovered_pk, spec_recovered_sk,
    Envelope, EnvelopeMode,
};
use crate::group::{
    spec_mul_commutes_at, spec_point_valid, spec_scalar_canonical, spec_scalar_invert,
    spec_scalar_mul, spec_unblinds, spec_unblinds_evaluated,
};
use crate::hash::{hkdf_expand, randomized_pwd, spec_hkdf_expand, spec_randomized_pwd};
use crate::keys::{oprf_key_from_seed, spec_oprf_key};
use crate::messages::RegistrationUpload;
use crate::oprf::{blind, evaluate, finalize, spec_blinded_element, spec_oprf_finalize,
    spec_oprf_input_element};
use crate::rng::random_bytes;

verus! {

/// The credential request, wire-identical to a registration request.
#[derive(Debug)]
pub struct CredentialRequest {
    /// Serialized OPRF group element, `blind * HashToGroup(password)`.
    pub data: Vec<u8>,
}

impl CredentialRequest {
    pub open spec fn wf(self) -> bool {
        self.data@.len() == 32
    }

    /// `blinded_element[32]`.
    pub open spec fn spec_serialize(self) -> Seq<u8> {
        self.data@
    }

    pub fn serialize(&self) -> (r: Vec<u8>)
        ensures
            r@ == self.spec_serialize(),
    {
        vstd::slice::slice_to_vec(self.data.as_slice())
    }

    pub fn deserialize(bytes: &[u8]) -> (r: Result<CredentialRequest, OpaqueError>)
        ensures
            r is Ok <==> bytes@.len() == 32,
            r is Ok ==> r->Ok_0.wf() && r->Ok_0.data@ == bytes@,
            r is Err ==> r->Err_0 == OpaqueError::DeserializationError,
    {
        if bytes.len() != 32 {
            return Err(OpaqueError::DeserializationError);
        }
        Ok(CredentialRequest { data: vstd::slice::slice_to_vec(bytes) })
    }

    /// Blind the password into a fresh credential request, keeping the
    /// blinding scalar for `recover_credentials`.
    pub fn create_credential_request(password: &[u8]) -> (r: Result<
        (CredentialRequest, Vec<u8>),
        OpaqueError,
    >)
        ensures
            r is Ok ==> ({
                let (request, b) = r->Ok_0;
                &&& request.wf()
                &&& b@.len() == 32
                &&& spec_scalar_canonical(b@)
                &&& b@ != spec_zeros(32)
                &&& request.data@ == spec_blinded_element(password@, b@)
                &&& spec_point_valid(request.data@)
                &&& spec_point_valid(spec_oprf_input_element(password@))
                &&& spec_mul_commutes_at(b@, spec_oprf_input_element(password@))
            }),
            r is Err ==> r->Err_0 == OpaqueError::RngFailure,
    {
        let (b, m) = match blind(password) {
            Ok(v) => v,
            Err(e) => {
                return Err(e);
            },
        };
        Ok((CredentialRequest { data: m }, b))
    }
}

/// `"CredentialResponsePad"`.
pub open spec fn spec_label_credential_response_pad() -> Seq<u8> {
    seq![
        0x43u8, 0x72u8, 0x65u8, 0x64u8, 0x65u8, 0x6eu8, 0x74u8, 0x69u8, 0x61u8, 0x6cu8, 0x52u8,
        0x65u8, 0x73u8, 0x70u8, 0x6fu8, 0x6eu8, 0x73u8, 0x65u8, 0x50u8, 0x61u8, 0x64u8,
    ]
}

pub(crate) fn label_credential_response_pad() -> (r: Vec<u8>)
    ensures
        r@ == spec_label_credential_response_pad(),
{
    let label: Vec<u8> = vec![
        0x43u8, 0x72u8, 0x65u8, 0x64u8, 0x65u8, 0x6eu8, 0x74u8, 0x69u8, 0x61u8, 0x6cu8, 0x52u8,
        0x65u8, 0x73u8, 0x70u8, 0x6fu8, 0x6eu8, 0x73u8, 0x65u8, 0x50u8, 0x61u8, 0x64u8,
    ];
    label
}

/// `HKDF-Expand(masking_key, masking_nonce || "CredentialResponsePad",
/// Npk + Ne)`.
pub open spec fn spec_cred_pad(mk: Seq<u8>, nonce: Seq<u8>, mode: EnvelopeMode) -> Seq<u8> {
    spec_hkdf_expand(
        mk,
        nonce + spec_label_credential_response_pad(),
        (32 + spec_envelope_size(mode)) as nat,
    )
}

/// `randomized_pwd` as the client computes it from its password, blinding
/// scalar and the evaluated element.
pub open spec fn spec_client_rp(pwd: Seq<u8>, blind_scalar: Seq<u8>, elem: Seq<u8>) -> Seq<u8> {
    spec_randomized_pwd(spec_oprf_finalize(pwd, blind_scalar, elem))
}

/// What the masked response unmasks to under a randomized password:
/// `server_pk || envelope` when the password matches.
pub open spec fn spec_unmask(
    mode: EnvelopeMode,
    rp: Seq<u8>,
    masking_nonce: Seq<u8>,
    masked: Seq<u8>,
) -> Seq<u8> {
    spec_xor(spec_cred_pad(spec_masking_key(rp), masking_nonce, mode), masked)
}

/// The credential response: the evaluated element, the masking nonce, and
/// the masked `server_pk || envelope`.
#[derive(Debug)]
pub struct CredentialResponse {
    /// Serialized OPRF group element, `oprf_key * blinded_element`.
    pub data: Vec<u8>,
    /// Nonce for the confidentiality of `masked_response`.
    pub masking_nonce: Vec<u8>,
    /// `(server_pk || envelope) xor pad`.
    pub masked_response: Vec<u8>,
}

impl CredentialResponse {
    pub open spec fn wf(self, mode: EnvelopeMode) -> bool {
        &&& self.data@.len() == 32
        &&& self.masking_nonce@.len() == 32
        &&& self.masked_response@.len() == 32 + spec_envelope_size(mode)
    }

    /// `evaluated_element[32] || masking_nonce[32] || masked_response[32+Ne]`.
    pub open spec fn spec_serialize(self) -> Seq<u8> {
        self.data@ + self.masking_nonce@ + self.masked_response@
    }

    pub fn serialize(&self) -> (r: Vec<u8>)
        ensures
            r@ == self.spec_serialize(),
    {
        let mut out = bytes_concat(self.data.as_slice(), self.masking_nonce.as_slice());
        out = bytes_concat(out.as_slice(), self.masked_response.as_slice());
        out
    }

    pub fn deserialize(mode: EnvelopeMode, bytes: &[u8]) -> (r: Result<
        CredentialResponse,
        OpaqueError,
    >)
        ensures
            r is Ok <==> bytes@.len() == 96 + spec_envelope_size(mode),
            r is Ok ==> r->Ok_0.wf(mode) && r->Ok_0.data@ == bytes@.subrange(0, 32)
                && r->Ok_0.masking_nonce@ == bytes@.subrange(32, 64) && r->Ok_0.masked_response@
                == bytes@.subrange(64, bytes@.len() as int) && r->Ok_0.spec_serialize() == bytes@,
            r is Err ==> r->Err_0 == OpaqueError::DeserializationError,
    {
        let masked_len: usize = match mode {
            EnvelopeMode::Internal => 128,
            EnvelopeMode::External => 160,
        };
        if bytes.len() != 64 + masked_len {
            return Err(OpaqueError::DeserializationError);
        }
        let data = vstd::slice::slice_to_vec(vstd::slice::slice_subrange(bytes, 0, 32));
        let masking_nonce = vstd::slice::slice_to_vec(vstd::slice::slice_subrange(bytes, 32, 64));
        let masked_response = vstd::slice::slice_to_vec(
            vstd::slice::slice_subrange(bytes, 64, 64 + masked_len),
        );
        let resp = CredentialResponse { data, masking_nonce, masked_response };
        proof {
            assert(resp.spec_serialize() =~= bytes@);
        }
        Ok(resp)
    }

    /// Build the server's credential response: evaluate the OPRF under the
    /// per-credential key and mask the server public key and stored
    /// envelope under a fresh nonce.  For an unknown credential identifier
    /// the caller passes `RegistrationUpload::fake`, which keeps the
    /// response's shape identical.
    pub fn create_credential_response(
        request: &CredentialRequest,
        server_pub_key: &[u8],
        record: &RegistrationUpload,
        mode: EnvelopeMode,
        credential_identifier: &[u8],
        oprf_seed: &[u8],
    ) -> (r: Result<CredentialResponse, OpaqueError>)
        requires
            request.wf(),
            server_pub_key@.len() == 32,
            record.wf(mode),
            oprf_seed@.len() == 64,
        ensures
            r is Ok ==> ({
                let key = spec_oprf_key(oprf_seed@, credential_identifier@)->0;
                &&& key.len() == 32
                &&& r->Ok_0.wf(mode)
                &&& r->Ok_0.data@ == spec_scalar_mul(key, request.data@)
                &&& spec_point_valid(r->Ok_0.data@)
                &&& spec_mul_commutes_at(key, request.data@)
                &&& r->Ok_0.masked_response@ == spec_xor(
                    spec_cred_pad(record.masking_key@, r->Ok_0.masking_nonce@, mode),
                    server_pub_key@ + record.envelope.spec_serialize(),
                )
            }),
            r is Ok ==> spec_oprf_key(oprf_seed@, credential_identifier@) is Some
                && spec_point_valid(request.data@),
            !(spec_oprf_key(oprf_seed@, credential_identifier@) is Some && spec_point_valid(
                request.data@,
            )) ==> r == Err::<CredentialResponse, OpaqueError>(OpaqueError::DeserializationError),
            r is Err ==> r->Err_0 == OpaqueError::DeserializationError || r->Err_0
                == OpaqueError::RngFailure,
    {
        let oprf_key = match oprf_key_from_seed(oprf_seed, credential_identifier) {
            Ok(v) => v,
            Err(e) => {
                return Err(e);
            },
        };
        let evaluated = match evaluate(oprf_key.as_slice(), request.data.as_slice()) {
            Ok(v) => v,
            Err(e) => {
                return Err(e);
            },
        };
        let masking_nonce = match random_bytes(32) {
            Ok(v) => v,
            Err(e) => {
                return Err(e);
            },
        };
        let label = label_credential_response_pad();
        let info = bytes_concat(masking_nonce.as_slice(), label.as_slice());
        let pad_len: usize = match mode {
            EnvelopeMode::Internal => 128,
            EnvelopeMode::External => 160,
        };
        let pad = match hkdf_expand(record.masking_key.as_slice(), info.as_slice(), pad_len) {
            Ok(v) => v,
            Err(_) => {
                proof {
                    assert(false);
                }
                return Err(OpaqueError::RngFailure);
            },
        };
        let env_bytes = record.envelope.serialize();
        let plain = bytes_concat(server_pub_key, env_bytes.as_slice());
        let masked_response = xor_fixed(pad.as_slice(), plain.as_slice());
        Ok(CredentialResponse { data: evaluated, masking_nonce, masked_response })
    }

    /// Recover the client's credentials from the response: unblind and hash
    /// the evaluated element, stretch it into the randomized password,
    /// unmask `server_pk || envelope`, and open the envelope.  Succeeds
    /// exactly when the password, record, server key and identities all
    /// match those fixed at registration.  Returns the client private key,
    /// the server public key and the export key.
    pub fn recover_credentials(
        &self,
        password: &[u8],
        blind_scalar: &[u8],
        mode: EnvelopeMode,
        server_identity: &Option<Vec<u8>>,
        client_identity: &Option<Vec<u8>>,
    ) -> (r: Result<(Vec<u8>, Vec<u8>, Vec<u8>), OpaqueError>)
        requires
            self.wf(mode),
            blind_scalar@.len() == 32,
            spec_scalar_canonical(blind_scalar@),
            blind_scalar@ != spec_zeros(32),
            server_identity is Some ==> server_identity->0@.len() < 65536,
            client_identity is Some ==> client_identity->0@.len() < 65536,
        ensures
            r is Ok <==> ({
                let rp = spec_client_rp(password@, blind_scalar@, self.data@);
                let unm = spec_unmask(mode, rp, self.masking_nonce@, self.masked_response@);
                let spk = unm.subrange(0, 32);
                let nonce = unm.subrange(32, 64);
                let inner = unm.subrange(64, 64 + (spec_envelope_size(mode) - 96));
                let tag = unm.subrange(
                    32 + spec_envelope_size(mode) - 64,
                    (32 + spec_envelope_size(mode)) as int,
                );
                let keys_ok = mode is External || spec_internal_sk(rp, nonce) is Some;
                &&& password@.len() < 65536
                &&& spec_point_valid(self.data@)
                &&& keys_ok
                &&& tag == spec_envelope_tag(
                    rp,
                    nonce,
                    inner,
                    spk,
                    spec_or_default(spec_opt_view(*server_identity), spk),
                    spec_or_default(
                        spec_opt_view(*client_identity),
                        spec_recovered_pk(mode, rp, nonce, inner),
                    ),
                )
            }),
            r is Ok ==> ({
                let (sk, spk_out, export_key) = r->Ok_0;
                let rp = spec_client_rp(password@, blind_scalar@, self.data@);
                let unm = spec_unmask(mode, rp, self.masking_nonce@, self.masked_response@);
                let nonce = unm.subrange(32, 64);
                let inner = unm.subrange(64, 64 + (spec_envelope_size(mode) - 96));
                &&& sk@ == spec_recovered_sk(mode, rp, nonce, inner)
                &&& sk@.len() == 32
                &&& spk_out@ == unm.subrange(0, 32)
                &&& spk_out@.len() == 32
                &&& export_key@ == spec_export_key(rp, nonce)
                &&& export_key@.len() == 64
                &&& spec_unblinds(spec_scalar_invert(blind_scalar@), blind_scalar@)
                &&& spec_unblinds_evaluated(spec_scalar_invert(blind_scalar@), blind_scalar@)
            }),
            !(password@.len() < 65536 && spec_point_valid(self.data@)) ==> r is Err && r->Err_0
                == OpaqueError::DeserializationError,
            password@.len() < 65536 ==> spec_unblinds_evaluated(
                spec_scalar_invert(blind_scalar@),
                blind_scalar@,
            ),
            r is Err ==> r->Err_0 == OpaqueError::DeserializationError || r->Err_0
                == OpaqueError::EnvelopeRecoveryError,
    {
        let y = match finalize(password, blind_scalar, self.data.as_slice()) {
            Ok(v) => v,
            Err(e) => {
                return Err(e);
            },
        };
        let rp = randomized_pwd(y.as_slice());
        let label_m = crate::envelope::label_masking_key();
        let mk = match hkdf_expand(rp.as_slice(), label_m.as_slice(), 64) {
            Ok(v) => v,
            Err(_) => {
                proof {
                    assert(false);
                }
                return Err(OpaqueError::DeserializationError);
            },
        };
        let label_p = label_credential_response_pad();
        let info = bytes_concat(self.masking_nonce.as_slice(), label_p.as_slice());
        let pad_len: usize = match mode {
            EnvelopeMode::Internal => 128,
            EnvelopeMode::External => 160,
        };
        let pad = match hkdf_expand(mk.as_slice(), info.as_slice(), pad_len) {
            Ok(v) => v,
            Err(_) => {
                proof {
                    assert(false);
                }
                return Err(OpaqueError::DeserializationError);
            },
        };
        let unmasked = xor_fixed(pad.as_slice(), self.masked_response.as_slice());
        let server_pub_key = vstd::slice::slice_to_vec(
            vstd::slice::slice_subrange(unmasked.as_slice(), 0, 32),
        );
        let env_bytes = vstd::slice::slice_subrange(unmasked.as_slice(), 32, pad_len);
        let envelope = match Envelope::deserialize(mode, env_bytes) {
            Ok(v) => v,
            Err(_) => {
                proof {
                    assert(false);
                }
                return Err(OpaqueError::DeserializationError);
            },
        };
        let ghost unm = spec_unmask(
            mode,
            spec_client_rp(password@, blind_scalar@, self.data@),
            self.masking_nonce@,
            self.masked_response@,
        );
        proof {
            assert(unmasked@ == unm);
            assert(envelope.nonce@ =~= unm.subrange(32, 64));
            assert(spec_inner_bytes(envelope.inner_env) =~= unm.subrange(
                64,
                64 + (spec_envelope_size(mode) - 96),
            ));
            assert(envelope.auth_tag@ =~= unm.subrange(
                32 + spec_envelope_size(mode) - 64,
                (32 + spec_envelope_size(mode)) as int,
            ));
        }
        let (client_sk, export_key) = match envelope.recover(
            mode,
            rp.as_slice(),
            server_pub_key.as_slice(),
            server_identity,
            client_identity,
        ) {
            Ok(v) => v,
            Err(e) => {
                return Err(e);
            },
        };
        Ok((client_sk, server_pub_key, export_key))
    }
}

/// Missing-record indistinguishability, in shape: any two well-formed
/// credential responses of one mode serialize to the same length.  In
/// particular, the response built from `RegistrationUpload::fake` for an
/// unknown credential identifier has exactly the length of one built from a
/// real record, so the wire reveals nothing about whether the record
/// exists.
pub proof fn lemma_response_shape_indistinguishable(
    a: CredentialResponse,
    b: CredentialResponse,
    mode: EnvelopeMode,
)
    requires
        a.wf(mode),
        b.wf(mode),
    ensures
        a.spec_serialize().len() == b.spec_serialize().len(),
        a.spec_serialize().len() == 96 + spec_envelope_size(mode),
{
}

} // verus!
