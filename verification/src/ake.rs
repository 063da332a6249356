//! The three-message authenticated key exchange (3DH style) layered on the
//! OPRF and the envelope: transcript preamble, triple Diffie-Hellman input
//! key material, key schedule, and the two MAC tags.
//!
//! Both finishers consume their state: a second call on the same state is a
//! usage error, and MAC comparisons are constant-time.

use vstd::prelude::*;

use crate::OpaqueError;
use crate::common::{
    bytes_concat, ct_equal, i2osp_serialize, lemma_pow256_small, spec_i2osp_serialize, spec_zeros,
};
use crate::common::{lemma_xor_unmask, lemma_xor_unmask_left, spec_xor};
use crate::envelope::{
    spec_envelope_size, spec_envelope_tag, spec_export_key, spec_external_pad, spec_inner_bytes,
    spec_internal_pk, spec_internal_sk, spec_masking_key, spec_opt_view, spec_or_default,
    spec_recovered_pk, spec_recovered_sk, EnvelopeMode,
};
use crate::group::{
    nonzero_random_scalar, scalar_base_mult, scalar_mul_point, spec_base_mul, spec_dh_commutes,
    spec_mul_commutes_at, spec_point_valid, spec_scalar_canonical, spec_scalar_invert,
    spec_scalar_mul, spec_unblinds_evaluated,
};
use crate::hash::{
    hkdf_expand, hkdf_extract, hmac_sha512, sha512, sha512_of, spec_hkdf_expand, spec_hkdf_extract,
    spec_hmac,
};
use crate::keys::spec_oprf_key;
use crate::messages::credential::{
    spec_client_rp, spec_cred_pad, spec_unmask, CredentialRequest, CredentialResponse,
};
use crate::messages::ake::{InnerKE2, KE1, KE2, KE3};
use crate::messages::{RegistrationRequest, RegistrationResponse, RegistrationUpload};
use crate::oprf::{blind, spec_blinded_element, spec_oprf_input_element};
use crate::rng::random_bytes;

verus! {

/// `"OPAQUEv1-"`, the transcript preamble label.
pub open spec fn spec_label_preamble() -> Seq<u8> {
    seq![0x4fu8, 0x50u8, 0x41u8, 0x51u8, 0x55u8, 0x45u8, 0x76u8, 0x31u8, 0x2du8]
}

/// `"HandshakeSecret"`.
pub open spec fn spec_label_handshake_secret() -> Seq<u8> {
    seq![
        0x48u8, 0x61u8, 0x6eu8, 0x64u8, 0x73u8, 0x68u8, 0x61u8, 0x6bu8, 0x65u8, 0x53u8, 0x65u8,
        0x63u8, 0x72u8, 0x65u8, 0x74u8,
    ]
}

/// `"SessionKey"`.
pub open spec fn spec_label_session_key() -> Seq<u8> {
    seq![0x53u8, 0x65u8, 0x73u8, 0x73u8, 0x69u8, 0x6fu8, 0x6eu8, 0x4bu8, 0x65u8, 0x79u8]
}

/// `"ServerMAC"`.
pub open spec fn spec_label_server_mac() -> Seq<u8> {
    seq![0x53u8, 0x65u8, 0x72u8, 0x76u8, 0x65u8, 0x72u8, 0x4du8, 0x41u8, 0x43u8]
}

/// `"ClientMAC"`.
pub open spec fn spec_label_client_mac() -> Seq<u8> {
    seq![0x43u8, 0x6cu8, 0x69u8, 0x65u8, 0x6eu8, 0x74u8, 0x4du8, 0x41u8, 0x43u8]
}

pub(crate) fn label_preamble() -> (r: Vec<u8>)
    ensures
        r@ == spec_label_preamble(),
{
    let label: Vec<u8> = vec![
        0x4fu8, 0x50u8, 0x41u8, 0x51u8, 0x55u8, 0x45u8, 0x76u8, 0x31u8, 0x2du8,
    ];
    label
}

pub(crate) fn label_handshake_secret() -> (r: Vec<u8>)
    ensures
        r@ == spec_label_handshake_secret(),
{
    let label: Vec<u8> = vec![
        0x48u8, 0x61u8, 0x6eu8, 0x64u8, 0x73u8, 0x68u8, 0x61u8, 0x6bu8, 0x65u8, 0x53u8, 0x65u8,
        0x63u8, 0x72u8, 0x65u8, 0x74u8,
    ];
    label
}

pub(crate) fn label_session_key() -> (r: Vec<u8>)
    ensures
        r@ == spec_label_session_key(),
{
    let label: Vec<u8> = vec![
        0x53u8, 0x65u8, 0x73u8, 0x73u8, 0x69u8, 0x6fu8, 0x6eu8, 0x4bu8, 0x65u8, 0x79u8,
    ];
    label
}

pub(crate) fn label_server_mac() -> (r: Vec<u8>)
    ensures
        r@ == spec_label_server_mac(),
{
    let label: Vec<u8> = vec![
        0x53u8, 0x65u8, 0x72u8, 0x76u8, 0x65u8, 0x72u8, 0x4du8, 0x41u8, 0x43u8,
    ];
    label
}

pub(crate) fn label_client_mac() -> (r: Vec<u8>)
    ensures
        r@ == spec_label_client_mac(),
{
    let label: Vec<u8> = vec![
        0x43u8, 0x6cu8, 0x69u8, 0x65u8, 0x6eu8, 0x74u8, 0x4du8, 0x41u8, 0x43u8,
    ];
    label
}

/// The non-malleable transcript preamble:
/// `"OPAQUEv1-" || I2OSP(|ci|,2) || ci || KE1 || I2OSP(|si|,2) || si || InnerKE2`.
pub open spec fn spec_preamble(
    client_identity: Seq<u8>,
    ke1_ser: Seq<u8>,
    server_identity: Seq<u8>,
    inner_ke2_ser: Seq<u8>,
) -> Seq<u8> {
    spec_label_preamble() + spec_i2osp_serialize(client_identity, 2) + ke1_ser
        + spec_i2osp_serialize(server_identity, 2) + inner_ke2_ser
}

/// Build the transcript preamble.
pub(crate) fn build_preamble(
    client_identity: &[u8],
    ke1_ser: &[u8],
    server_identity: &[u8],
    inner_ke2_ser: &[u8],
) -> (r: Vec<u8>)
    requires
        client_identity@.len() < 65536,
        server_identity@.len() < 65536,
    ensures
        r@ == spec_preamble(client_identity@, ke1_ser@, server_identity@, inner_ke2_ser@),
{
    proof {
        lemma_pow256_small();
    }
    let label = label_preamble();
    let ci = i2osp_serialize(client_identity, 2);
    let si = i2osp_serialize(server_identity, 2);
    let mut out = bytes_concat(label.as_slice(), ci.as_slice());
    out = bytes_concat(out.as_slice(), ke1_ser);
    out = bytes_concat(out.as_slice(), si.as_slice());
    out = bytes_concat(out.as_slice(), inner_ke2_ser);
    out
}

/// `prk = HKDF-Extract("", IKM)`.
pub open spec fn spec_prk(ikm: Seq<u8>) -> Seq<u8> {
    spec_hkdf_extract(Seq::empty(), ikm)
}

/// `HKDF-Expand(prk, "HandshakeSecret" || H(preamble), Nh)`.
pub open spec fn spec_handshake_secret(ikm: Seq<u8>, preamble: Seq<u8>) -> Seq<u8> {
    spec_hkdf_expand(spec_prk(ikm), spec_label_handshake_secret() + sha512_of(preamble), 64)
}

/// `HKDF-Expand(prk, "SessionKey" || H(preamble), Nh)`.
pub open spec fn spec_session_key(ikm: Seq<u8>, preamble: Seq<u8>) -> Seq<u8> {
    spec_hkdf_expand(spec_prk(ikm), spec_label_session_key() + sha512_of(preamble), 64)
}

/// `Km2 = HKDF-Expand(handshake_secret, "ServerMAC", Nm)`.
pub open spec fn spec_km2(ikm: Seq<u8>, preamble: Seq<u8>) -> Seq<u8> {
    spec_hkdf_expand(spec_handshake_secret(ikm, preamble), spec_label_server_mac(), 64)
}

/// `Km3 = HKDF-Expand(handshake_secret, "ClientMAC", Nm)`.
pub open spec fn spec_km3(ikm: Seq<u8>, preamble: Seq<u8>) -> Seq<u8> {
    spec_hkdf_expand(spec_handshake_secret(ikm, preamble), spec_label_client_mac(), 64)
}

/// `server_mac = HMAC(Km2, H(preamble))`.
pub open spec fn spec_server_mac_tag(ikm: Seq<u8>, preamble: Seq<u8>) -> Seq<u8> {
    spec_hmac(spec_km2(ikm, preamble), sha512_of(preamble))
}

/// `client_mac = HMAC(Km3, H(preamble || server_mac))`.
pub open spec fn spec_client_mac_tag(ikm: Seq<u8>, preamble: Seq<u8>) -> Seq<u8> {
    spec_hmac(spec_km3(ikm, preamble), sha512_of(preamble + spec_server_mac_tag(ikm, preamble)))
}

/// Run the key schedule: `(Km2, Km3, session_key)` from the triple-DH input
/// key material and the transcript preamble.
fn derive_keys(ikm: &[u8], preamble: &[u8]) -> (r: (Vec<u8>, Vec<u8>, Vec<u8>))
    ensures
        r.0@ == spec_km2(ikm@, preamble@),
        r.1@ == spec_km3(ikm@, preamble@),
        r.2@ == spec_session_key(ikm@, preamble@),
        r.0@.len() == 64,
        r.1@.len() == 64,
        r.2@.len() == 64,
{
    let salt: Vec<u8> = Vec::new();
    let prk = hkdf_extract(salt.as_slice(), ikm);
    let ph = sha512(preamble);
    let label_h = label_handshake_secret();
    let info_h = bytes_concat(label_h.as_slice(), ph.as_slice());
    let handshake = match hkdf_expand(prk.as_slice(), info_h.as_slice(), 64) {
        Ok(v) => v,
        Err(_) => {
            proof {
                assert(false);
            }
            (Vec::new())
        },
    };
    let label_s = label_session_key();
    let info_s = bytes_concat(label_s.as_slice(), ph.as_slice());
    let session_key = match hkdf_expand(prk.as_slice(), info_s.as_slice(), 64) {
        Ok(v) => v,
        Err(_) => {
            proof {
                assert(false);
            }
            (Vec::new())
        },
    };
    let label_2 = label_server_mac();
    let km2 = match hkdf_expand(handshake.as_slice(), label_2.as_slice(), 64) {
        Ok(v) => v,
        Err(_) => {
            proof {
                assert(false);
            }
            (Vec::new())
        },
    };
    let label_3 = label_client_mac();
    let km3 = match hkdf_expand(handshake.as_slice(), label_3.as_slice(), 64) {
        Ok(v) => v,
        Err(_) => {
            proof {
                assert(false);
            }
            (Vec::new())
        },
    };
    (km2, km3, session_key)
}

/// The client's per-session state, created by `client_init` and consumed by
/// `client_finish`.
pub struct ClientState {
    /// The OPRF blinding scalar.
    pub blind: Vec<u8>,
    /// The ephemeral Diffie-Hellman secret share.
    pub client_secret: Vec<u8>,
    /// The first message, replayed into the transcript at finish.
    pub ke1: KE1,
    /// The password, needed again to unblind the server's evaluation.
    pub password: Vec<u8>,
    /// Whether the state was already consumed.
    pub used: bool,
}

impl ClientState {
    pub open spec fn wf(self) -> bool {
        &&& self.blind@.len() == 32
        &&& spec_scalar_canonical(self.blind@)
        &&& self.blind@ != spec_zeros(32)
        &&& self.client_secret@.len() == 32
        &&& self.ke1.wf()
    }

    /// Start a login: blind the password, draw the client nonce and the
    /// ephemeral key share, and assemble KE1.  Fails only when the random
    /// source does.
    pub fn client_init(password: &[u8]) -> (r: Result<(KE1, ClientState), OpaqueError>)
        ensures
            r is Ok ==> ({
                let (ke1, st) = r->Ok_0;
                &&& ke1.wf()
                &&& st.wf()
                &&& !st.used
                &&& st.password@ == password@
                &&& st.ke1.request.data@ == ke1.request.data@
                &&& st.ke1.client_nonce@ == ke1.client_nonce@
                &&& st.ke1.client_keyshare@ == ke1.client_keyshare@
                &&& ke1.request.data@ == spec_blinded_element(password@, st.blind@)
                &&& spec_point_valid(ke1.request.data@)
                &&& spec_point_valid(spec_oprf_input_element(password@))
                &&& spec_mul_commutes_at(st.blind@, spec_oprf_input_element(password@))
                &&& ke1.client_keyshare@ == spec_base_mul(st.client_secret@)
                &&& spec_point_valid(ke1.client_keyshare@)
                &&& spec_dh_commutes(st.client_secret@, ke1.client_keyshare@)
            }),
            r is Err ==> r->Err_0 == OpaqueError::RngFailure,
    {
        let (b, m) = match blind(password) {
            Ok(v) => v,
            Err(e) => {
                return Err(e);
            },
        };
        let client_nonce = match random_bytes(32) {
            Ok(v) => v,
            Err(e) => {
                return Err(e);
            },
        };
        let client_secret = match nonzero_random_scalar() {
            Ok(v) => v,
            Err(e) => {
                return Err(e);
            },
        };
        let client_keyshare = scalar_base_mult(client_secret.as_slice());
        let ke1 = KE1 { request: CredentialRequest { data: m }, client_nonce, client_keyshare };
        let ke1_copy = KE1 {
            request: CredentialRequest {
                data: vstd::slice::slice_to_vec(ke1.request.data.as_slice()),
            },
            client_nonce: vstd::slice::slice_to_vec(ke1.client_nonce.as_slice()),
            client_keyshare: vstd::slice::slice_to_vec(ke1.client_keyshare.as_slice()),
        };
        let st = ClientState {
            blind: b,
            client_secret,
            ke1: ke1_copy,
            password: vstd::slice::slice_to_vec(password),
            used: false,
        };
        Ok((ke1, st))
    }

    /// Finish a login on the client.  Unblinds the server's evaluation,
    /// unmasks and opens the envelope, recomputes the transcript and
    /// verifies the server MAC, and derives the session and export keys.
    /// Consumes the state: any further call returns `UsageError`.
    pub fn client_finish(
        &mut self,
        ke2: &KE2,
        mode: EnvelopeMode,
        client_identity: &Option<Vec<u8>>,
        server_identity: &Option<Vec<u8>>,
    ) -> (r: Result<(KE3, Vec<u8>, Vec<u8>), OpaqueError>)
        requires
            old(self).wf(),
            ke2.wf(mode),
            client_identity is Some ==> client_identity->0@.len() < 65536,
            server_identity is Some ==> server_identity->0@.len() < 65536,
        ensures
            final(self).used,
            old(self).used ==> r is Err && r->Err_0 == OpaqueError::UsageError && *final(self)
                == *old(self),
            !old(self).used ==> ({
                let st = *old(self);
                let ci = spec_opt_view(*client_identity);
                let si = spec_opt_view(*server_identity);
                &&& (r is Ok <==> spec_cf_ok(st, *ke2, mode, ci, si))
                &&& (r is Ok ==> ({
                    let (ke3, session_key, export_key) = r->Ok_0;
                    &&& ke3.wf()
                    &&& ke3.client_mac@ == spec_client_mac_tag(
                        spec_cf_ikm(st, *ke2, mode),
                        spec_cf_preamble(st, *ke2, mode, ci, si),
                    )
                    &&& session_key@ == spec_session_key(
                        spec_cf_ikm(st, *ke2, mode),
                        spec_cf_preamble(st, *ke2, mode, ci, si),
                    )
                    &&& session_key@.len() == 64
                    &&& export_key@ == spec_export_key(
                        spec_cf_rp(st, *ke2),
                        spec_cf_env_nonce(st, *ke2, mode),
                    )
                    &&& export_key@.len() == 64
                    &&& spec_unblinds_evaluated(spec_scalar_invert(st.blind@), st.blind@)
                }))
                &&& (r is Err ==> r->Err_0 == OpaqueError::DeserializationError || r->Err_0
                    == OpaqueError::EnvelopeRecoveryError || r->Err_0
                    == OpaqueError::HandshakeError)
                &&& (st.password@.len() < 65536 ==> spec_unblinds_evaluated(
                    spec_scalar_invert(st.blind@),
                    st.blind@,
                ))
            }),
    {
        if self.used {
            return Err(OpaqueError::UsageError);
        }
        self.used = true;
        let (client_sk, server_pk, export_key) = match ke2.inner_ke2.response.recover_credentials(
            self.password.as_slice(),
            self.blind.as_slice(),
            mode,
            server_identity,
            client_identity,
        ) {
            Ok(v) => v,
            Err(e) => {
                return Err(e);
            },
        };
        let t1 = match scalar_mul_point(
            self.client_secret.as_slice(),
            ke2.inner_ke2.server_keyshare.as_slice(),
        ) {
            Some(v) => v,
            None => {
                return Err(OpaqueError::DeserializationError);
            },
        };
        let t2 = match scalar_mul_point(self.client_secret.as_slice(), server_pk.as_slice()) {
            Some(v) => v,
            None => {
                return Err(OpaqueError::DeserializationError);
            },
        };
        let t3 = match scalar_mul_point(
            client_sk.as_slice(),
            ke2.inner_ke2.server_keyshare.as_slice(),
        ) {
            Some(v) => v,
            None => {
                proof {
                    assert(false);
                }
                return Err(OpaqueError::DeserializationError);
            },
        };
        let mut ikm = bytes_concat(t1.as_slice(), t2.as_slice());
        ikm = bytes_concat(ikm.as_slice(), t3.as_slice());
        let client_pk = scalar_base_mult(client_sk.as_slice());
        let ci_chosen: Vec<u8> = match client_identity {
            Some(v) => vstd::slice::slice_to_vec(v.as_slice()),
            None => client_pk,
        };
        let si_chosen: Vec<u8> = match server_identity {
            Some(v) => vstd::slice::slice_to_vec(v.as_slice()),
            None => vstd::slice::slice_to_vec(server_pk.as_slice()),
        };
        let ke1_ser = self.ke1.serialize();
        let inner_ser = ke2.inner_ke2.serialize();
        let preamble = build_preamble(
            ci_chosen.as_slice(),
            ke1_ser.as_slice(),
            si_chosen.as_slice(),
            inner_ser.as_slice(),
        );
        let (km2, km3, session_key) = derive_keys(ikm.as_slice(), preamble.as_slice());
        let ph = sha512(preamble.as_slice());
        let expected_server_mac = hmac_sha512(km2.as_slice(), ph.as_slice());
        if !ct_equal(ke2.server_mac.as_slice(), expected_server_mac.as_slice()) {
            return Err(OpaqueError::HandshakeError);
        }
        let transcript2 = bytes_concat(preamble.as_slice(), expected_server_mac.as_slice());
        let ph2 = sha512(transcript2.as_slice());
        let client_mac = hmac_sha512(km3.as_slice(), ph2.as_slice());
        Ok((KE3 { client_mac }, session_key, export_key))
    }
}

/// The randomized password `client_finish` works from.
pub open spec fn spec_cf_rp(st: ClientState, ke2: KE2) -> Seq<u8> {
    spec_client_rp(st.password@, st.blind@, ke2.inner_ke2.response.data@)
}

/// What the masked response unmasks to under the client's randomized
/// password.
pub open spec fn spec_cf_unm(st: ClientState, ke2: KE2, mode: EnvelopeMode) -> Seq<u8> {
    spec_unmask(
        mode,
        spec_cf_rp(st, ke2),
        ke2.inner_ke2.response.masking_nonce@,
        ke2.inner_ke2.response.masked_response@,
    )
}

/// The server public key recovered from the unmasked response.
pub open spec fn spec_cf_spk(st: ClientState, ke2: KE2, mode: EnvelopeMode) -> Seq<u8> {
    spec_cf_unm(st, ke2, mode).subrange(0, 32)
}

/// The envelope nonce recovered from the unmasked response.
pub open spec fn spec_cf_env_nonce(st: ClientState, ke2: KE2, mode: EnvelopeMode) -> Seq<u8> {
    spec_cf_unm(st, ke2, mode).subrange(32, 64)
}

/// The inner-envelope octets recovered from the unmasked response.
pub open spec fn spec_cf_inner(st: ClientState, ke2: KE2, mode: EnvelopeMode) -> Seq<u8> {
    spec_cf_unm(st, ke2, mode).subrange(64, 64 + (spec_envelope_size(mode) - 96))
}

/// The envelope tag recovered from the unmasked response.
pub open spec fn spec_cf_env_tag(st: ClientState, ke2: KE2, mode: EnvelopeMode) -> Seq<u8> {
    spec_cf_unm(st, ke2, mode).subrange(
        32 + spec_envelope_size(mode) - 64,
        (32 + spec_envelope_size(mode)) as int,
    )
}

/// The client private key recovered from the envelope.
pub open spec fn spec_cf_csk(st: ClientState, ke2: KE2, mode: EnvelopeMode) -> Seq<u8> {
    spec_recovered_sk(
        mode,
        spec_cf_rp(st, ke2),
        spec_cf_env_nonce(st, ke2, mode),
        spec_cf_inner(st, ke2, mode),
    )
}

/// The client public key recovered from the envelope.
pub open spec fn spec_cf_cpk(st: ClientState, ke2: KE2, mode: EnvelopeMode) -> Seq<u8> {
    spec_recovered_pk(
        mode,
        spec_cf_rp(st, ke2),
        spec_cf_env_nonce(st, ke2, mode),
        spec_cf_inner(st, ke2, mode),
    )
}

/// The transcript preamble as the client reconstructs it.
pub open spec fn spec_cf_preamble(
    st: ClientState,
    ke2: KE2,
    mode: EnvelopeMode,
    ci: Option<Seq<u8>>,
    si: Option<Seq<u8>>,
) -> Seq<u8> {
    spec_preamble(
        spec_or_default(ci, spec_cf_cpk(st, ke2, mode)),
        st.ke1.spec_serialize(),
        spec_or_default(si, spec_cf_spk(st, ke2, mode)),
        ke2.inner_ke2.spec_serialize(),
    )
}

/// The client's triple-DH input key material:
/// `ec*es_pk || ec*ss_pk || cs*es_pk`.
pub open spec fn spec_cf_ikm(st: ClientState, ke2: KE2, mode: EnvelopeMode) -> Seq<u8> {
    spec_scalar_mul(st.client_secret@, ke2.inner_ke2.server_keyshare@) + spec_scalar_mul(
        st.client_secret@,
        spec_cf_spk(st, ke2, mode),
    ) + spec_scalar_mul(spec_cf_csk(st, ke2, mode), ke2.inner_ke2.server_keyshare@)
}

/// Exactly when `client_finish` succeeds: the password unblinds and opens
/// the envelope, all points are canonical, and the server MAC verifies.
pub open spec fn spec_cf_ok(
    st: ClientState,
    ke2: KE2,
    mode: EnvelopeMode,
    ci: Option<Seq<u8>>,
    si: Option<Seq<u8>>,
) -> bool {
    &&& st.password@.len() < 65536
    &&& spec_point_valid(ke2.inner_ke2.response.data@)
    &&& (mode is External || spec_internal_sk(
        spec_cf_rp(st, ke2),
        spec_cf_env_nonce(st, ke2, mode),
    ) is Some)
    &&& spec_cf_env_tag(st, ke2, mode) == spec_envelope_tag(
        spec_cf_rp(st, ke2),
        spec_cf_env_nonce(st, ke2, mode),
        spec_cf_inner(st, ke2, mode),
        spec_cf_spk(st, ke2, mode),
        spec_or_default(si, spec_cf_spk(st, ke2, mode)),
        spec_or_default(ci, spec_cf_cpk(st, ke2, mode)),
    )
    &&& spec_point_valid(ke2.inner_ke2.server_keyshare@)
    &&& spec_point_valid(spec_cf_spk(st, ke2, mode))
    &&& ke2.server_mac@ == spec_server_mac_tag(
        spec_cf_ikm(st, ke2, mode),
        spec_cf_preamble(st, ke2, mode, ci, si),
    )
}

/// The server's per-session state, created by `server_init` and consumed by
/// `server_finish`.
pub struct ServerState {
    /// The client MAC the server expects in KE3.
    pub expected_client_mac: Vec<u8>,
    /// The session key released once KE3 verifies.
    pub session_key: Vec<u8>,
    /// Whether the state was already consumed.
    pub used: bool,
    /// The ephemeral secret share, kept only for specification.
    pub eph: Ghost<Seq<u8>>,
}

/// The transcript preamble as the server constructs it.
pub open spec fn spec_si_preamble(
    ke1: KE1,
    inner_ke2: InnerKE2,
    record_cpk: Seq<u8>,
    spk: Seq<u8>,
    ci: Option<Seq<u8>>,
    si: Option<Seq<u8>>,
) -> Seq<u8> {
    spec_preamble(
        spec_or_default(ci, record_cpk),
        ke1.spec_serialize(),
        spec_or_default(si, spk),
        inner_ke2.spec_serialize(),
    )
}

/// The server's triple-DH input key material:
/// `es*ec_pk || ss*ec_pk || es*cs_pk`.
pub open spec fn spec_si_ikm(
    eph: Seq<u8>,
    server_pri_key: Seq<u8>,
    client_keyshare: Seq<u8>,
    record_cpk: Seq<u8>,
) -> Seq<u8> {
    spec_scalar_mul(eph, client_keyshare) + spec_scalar_mul(server_pri_key, client_keyshare)
        + spec_scalar_mul(eph, record_cpk)
}

impl ServerState {
    /// Answer KE1: evaluate the OPRF, mask the stored record, draw the
    /// server nonce and ephemeral share, run the key schedule over the
    /// transcript, and MAC it.  For an unknown credential identifier the
    /// caller passes `RegistrationUpload::fake`.
    pub fn server_init(
        server_pri_key: &[u8],
        server_pub_key: &[u8],
        record: &RegistrationUpload,
        mode: EnvelopeMode,
        credential_identifier: &[u8],
        oprf_seed: &[u8],
        ke1: &KE1,
        client_identity: &Option<Vec<u8>>,
        server_identity: &Option<Vec<u8>>,
    ) -> (r: Result<(KE2, ServerState), OpaqueError>)
        requires
            server_pri_key@.len() == 32,
            server_pub_key@.len() == 32,
            record.wf(mode),
            oprf_seed@.len() == 64,
            ke1.wf(),
            client_identity is Some ==> client_identity->0@.len() < 65536,
            server_identity is Some ==> server_identity->0@.len() < 65536,
        ensures
            r is Ok ==> ({
                let (ke2, st) = r->Ok_0;
                let key = spec_oprf_key(oprf_seed@, credential_identifier@)->0;
                let preamble = spec_si_preamble(
                    *ke1,
                    ke2.inner_ke2,
                    record.client_pub_key@,
                    server_pub_key@,
                    spec_opt_view(*client_identity),
                    spec_opt_view(*server_identity),
                );
                let ikm = spec_si_ikm(
                    st.eph@,
                    server_pri_key@,
                    ke1.client_keyshare@,
                    record.client_pub_key@,
                );
                &&& ke2.wf(mode)
                &&& !st.used
                &&& ke2.inner_ke2.response.data@ == spec_scalar_mul(key, ke1.request.data@)
                &&& spec_point_valid(ke2.inner_ke2.response.data@)
                &&& spec_mul_commutes_at(key, ke1.request.data@)
                &&& ke2.inner_ke2.response.masked_response@ == crate::common::spec_xor(
                    crate::messages::credential::spec_cred_pad(
                        record.masking_key@,
                        ke2.inner_ke2.response.masking_nonce@,
                        mode,
                    ),
                    server_pub_key@ + record.envelope.spec_serialize(),
                )
                &&& st.eph@.len() == 32
                &&& ke2.inner_ke2.server_keyshare@ == spec_base_mul(st.eph@)
                &&& spec_point_valid(ke2.inner_ke2.server_keyshare@)
                &&& spec_dh_commutes(st.eph@, ke2.inner_ke2.server_keyshare@)
                &&& ke2.server_mac@ == spec_server_mac_tag(ikm, preamble)
                &&& st.expected_client_mac@ == spec_client_mac_tag(ikm, preamble)
                &&& st.expected_client_mac@.len() == 64
                &&& st.session_key@ == spec_session_key(ikm, preamble)
                &&& st.session_key@.len() == 64
            }),
            r is Ok ==> spec_oprf_key(oprf_seed@, credential_identifier@) is Some
                && spec_point_valid(ke1.request.data@) && spec_point_valid(ke1.client_keyshare@)
                && spec_point_valid(record.client_pub_key@),
            r is Err ==> r->Err_0 == OpaqueError::DeserializationError || r->Err_0
                == OpaqueError::RngFailure,
            !(spec_oprf_key(oprf_seed@, credential_identifier@) is Some && spec_point_valid(
                ke1.request.data@,
            )) ==> r is Err && r->Err_0 == OpaqueError::DeserializationError,
    {
        let response = match CredentialResponse::create_credential_response(
            &ke1.request,
            server_pub_key,
            record,
            mode,
            credential_identifier,
            oprf_seed,
        ) {
            Ok(v) => v,
            Err(e) => {
                return Err(e);
            },
        };
        let server_nonce = match random_bytes(32) {
            Ok(v) => v,
            Err(e) => {
                return Err(e);
            },
        };
        let eph_secret = match nonzero_random_scalar() {
            Ok(v) => v,
            Err(e) => {
                return Err(e);
            },
        };
        let server_keyshare = scalar_base_mult(eph_secret.as_slice());
        let t1 = match scalar_mul_point(eph_secret.as_slice(), ke1.client_keyshare.as_slice()) {
            Some(v) => v,
            None => {
                return Err(OpaqueError::DeserializationError);
            },
        };
        let t2 = match scalar_mul_point(server_pri_key, ke1.client_keyshare.as_slice()) {
            Some(v) => v,
            None => {
                proof {
                    assert(false);
                }
                return Err(OpaqueError::DeserializationError);
            },
        };
        let t3 = match scalar_mul_point(eph_secret.as_slice(), record.client_pub_key.as_slice()) {
            Some(v) => v,
            None => {
                return Err(OpaqueError::DeserializationError);
            },
        };
        let mut ikm = bytes_concat(t1.as_slice(), t2.as_slice());
        ikm = bytes_concat(ikm.as_slice(), t3.as_slice());
        let inner_ke2 = InnerKE2 { response, server_nonce, server_keyshare };
        let ci_chosen: Vec<u8> = match client_identity {
            Some(v) => vstd::slice::slice_to_vec(v.as_slice()),
            None => vstd::slice::slice_to_vec(record.client_pub_key.as_slice()),
        };
        let si_chosen: Vec<u8> = match server_identity {
            Some(v) => vstd::slice::slice_to_vec(v.as_slice()),
            None => vstd::slice::slice_to_vec(server_pub_key),
        };
        let ke1_ser = ke1.serialize();
        let inner_ser = inner_ke2.serialize();
        let preamble = build_preamble(
            ci_chosen.as_slice(),
            ke1_ser.as_slice(),
            si_chosen.as_slice(),
            inner_ser.as_slice(),
        );
        let (km2, km3, session_key) = derive_keys(ikm.as_slice(), preamble.as_slice());
        let ph = sha512(preamble.as_slice());
        let server_mac = hmac_sha512(km2.as_slice(), ph.as_slice());
        let transcript2 = bytes_concat(preamble.as_slice(), server_mac.as_slice());
        let ph2 = sha512(transcript2.as_slice());
        let expected_client_mac = hmac_sha512(km3.as_slice(), ph2.as_slice());
        let ghost eph_view = eph_secret@;
        let st = ServerState {
            expected_client_mac,
            session_key,
            used: false,
            eph: Ghost(eph_view),
        };
        let ke2 = KE2 { inner_ke2, server_mac };
        Ok((ke2, st))
    }

    /// Verify KE3 and release the session key.  The comparison is
    /// constant-time, and the state is consumed: any further call returns
    /// `UsageError`.
    pub fn server_finish(&mut self, ke3: &KE3) -> (r: Result<Vec<u8>, OpaqueError>)
        ensures
            final(self).used,
            old(self).used ==> r is Err && r->Err_0 == OpaqueError::UsageError && *final(self)
                == *old(self),
            !old(self).used ==> ({
                &&& (r is Ok <==> ke3.client_mac@ == old(self).expected_client_mac@)
                &&& (r is Ok ==> r->Ok_0@ == old(self).session_key@)
                &&& (r is Err ==> r->Err_0 == OpaqueError::HandshakeError)
            }),
    {
        if self.used {
            return Err(OpaqueError::UsageError);
        }
        self.used = true;
        if !ct_equal(ke3.client_mac.as_slice(), self.expected_client_mac.as_slice()) {
            return Err(OpaqueError::HandshakeError);
        }
        Ok(vstd::slice::slice_to_vec(self.session_key.as_slice()))
    }
}

/// The outputs both parties hold after a full registration followed by a
/// login with the same password and configuration.
pub struct ProtocolRun {
    /// The record the server stored at registration.
    pub record: RegistrationUpload,
    /// The export key the client derived at registration.
    pub export_key_register: Vec<u8>,
    /// The export key the client derived at login.
    pub export_key_login: Vec<u8>,
    /// The session key the client derived.
    pub client_session_key: Vec<u8>,
    /// The session key the server derived.
    pub server_session_key: Vec<u8>,
}

/// End-to-end agreement: a full registration followed by a login with the
/// matching password and configuration yields the same session key on both
/// sides, and the same export key at login as at registration.  This holds
/// for every password, credential identifier, OPRF seed, server key seed,
/// identity choice, envelope mode and random draw.  The only failures are a
/// random-source failure and the practically unreachable rejection of a key
/// derivation whose every resampling attempt is the zero scalar.
pub fn register_and_login(
    password: &[u8],
    credential_identifier: &[u8],
    oprf_seed: &[u8],
    server_key_seed: &[u8],
    mode: EnvelopeMode,
    client_private_key: &Option<Vec<u8>>,
    client_identity: &Option<Vec<u8>>,
    server_identity: &Option<Vec<u8>>,
) -> (r: Result<ProtocolRun, OpaqueError>)
    requires
        password@.len() < 65536,
        oprf_seed@.len() == 64,
        mode is External <==> client_private_key is Some,
        client_private_key is Some ==> client_private_key->0@.len() == 32,
        client_identity is Some ==> client_identity->0@.len() < 65536,
        server_identity is Some ==> server_identity->0@.len() < 65536,
    ensures
        r is Ok ==> ({
            let run = r->Ok_0;
            &&& run.client_session_key@ == run.server_session_key@
            &&& run.client_session_key@.len() == 64
            &&& run.export_key_login@ == run.export_key_register@
            &&& run.export_key_register@.len() == 64
            &&& run.record.wf(mode)
            &&& run.record.spec_serialize().len() == 96 + spec_envelope_size(mode)
        }),
        r is Err ==> r->Err_0 == OpaqueError::RngFailure || r->Err_0
            == OpaqueError::DeserializationError,
{
    let kp = match EnvelopeMode::derive_auth_keypair(server_key_seed) {
        Ok(v) => v,
        Err(e) => {
            return Err(e);
        },
    };
    let (reg_request, blind_reg) = match RegistrationRequest::create_registration_request(
        password,
    ) {
        Ok(v) => v,
        Err(e) => {
            return Err(e);
        },
    };
    let reg_response = match RegistrationResponse::create_registration_response(
        &reg_request,
        kp.pub_k.as_slice(),
        credential_identifier,
        oprf_seed,
    ) {
        Ok(v) => v,
        Err(e) => {
            return Err(e);
        },
    };
    let (record, export_key_register) = match RegistrationUpload::finalize_request(
        password,
        blind_reg.as_slice(),
        &reg_response,
        mode,
        client_private_key,
        server_identity,
        client_identity,
    ) {
        Ok(v) => v,
        Err(e) => {
            return Err(e);
        },
    };
    let (ke1, mut cstate) = match ClientState::client_init(password) {
        Ok(v) => v,
        Err(e) => {
            return Err(e);
        },
    };
    let (ke2, mut sstate) = match ServerState::server_init(
        kp.pri_k.as_slice(),
        kp.pub_k.as_slice(),
        &record,
        mode,
        credential_identifier,
        oprf_seed,
        &ke1,
        client_identity,
        server_identity,
    ) {
        Ok(v) => v,
        Err(e) => {
            return Err(e);
        },
    };
    let ghost st = cstate;
    let ghost ss = sstate;
    let cf = cstate.client_finish(&ke2, mode, client_identity, server_identity);
    proof {
        let pwd = password@;
        let ci = spec_opt_view(*client_identity);
        let si = spec_opt_view(*server_identity);
        let pp = spec_oprf_input_element(pwd);
        let k = spec_oprf_key(oprf_seed@, credential_identifier@)->0;
        let b_reg = blind_reg@;
        let z_reg = reg_response.data@;
        let rp = spec_client_rp(pwd, b_reg, z_reg);
        let nonce_reg = record.envelope.nonce@;
        let inner_reg = spec_inner_bytes(record.envelope.inner_env);
        let b_log = st.blind@;
        let z_log = ke2.inner_ke2.response.data@;
        let rp_log = spec_cf_rp(st, ke2);

        // Both runs of the OPRF unblind to the same element, k * P.
        assert(z_reg == spec_scalar_mul(k, spec_scalar_mul(b_reg, pp)));
        assert(spec_scalar_mul(spec_scalar_invert(b_reg), spec_scalar_mul(
            k,
            spec_scalar_mul(b_reg, pp),
        )) == spec_scalar_mul(k, pp));
        assert(z_log == spec_scalar_mul(k, spec_scalar_mul(b_log, pp)));
        assert(spec_scalar_mul(spec_scalar_invert(b_log), spec_scalar_mul(
            k,
            spec_scalar_mul(b_log, pp),
        )) == spec_scalar_mul(k, pp));
        assert(rp_log == rp);

        // The client unmasks exactly what the server masked.
        let masking_nonce = ke2.inner_ke2.response.masking_nonce@;
        let pad = spec_cred_pad(record.masking_key@, masking_nonce, mode);
        let env_ser = record.envelope.spec_serialize();
        let plain = kp.pub_k@ + env_ser;
        if mode is Internal {
            assert(spec_inner_bytes(record.envelope.inner_env).len() == 0);
        }
        assert(env_ser.len() == spec_envelope_size(mode));
        assert(plain.len() == 32 + spec_envelope_size(mode));
        assert(ke2.inner_ke2.response.masked_response@ == spec_xor(pad, plain));
        assert(pad.len() == 32 + spec_envelope_size(mode));
        assert(spec_masking_key(rp_log) == record.masking_key@);
        assert(spec_cf_unm(st, ke2, mode) == spec_xor(pad, spec_xor(pad, plain)));
        lemma_xor_unmask_left(plain, pad);
        let unm = spec_cf_unm(st, ke2, mode);
        assert(unm == plain);

        // The unmasked pieces are the registered server key and envelope.
        assert(spec_cf_spk(st, ke2, mode) =~= kp.pub_k@);
        assert(spec_cf_env_nonce(st, ke2, mode) =~= nonce_reg);
        assert(spec_cf_inner(st, ke2, mode) =~= inner_reg);
        assert(spec_cf_env_tag(st, ke2, mode) =~= record.envelope.auth_tag@);

        // The recovered client keys are the registered ones.
        let csk = spec_cf_csk(st, ke2, mode);
        let cpk = spec_cf_cpk(st, ke2, mode);
        if mode is Internal {
            assert(spec_internal_sk(rp_log, spec_cf_env_nonce(st, ke2, mode)) is Some);
            assert(csk.len() == 32);
            assert(cpk == record.client_pub_key@);
            assert(spec_base_mul(csk) == record.client_pub_key@);
        } else {
            let sk_in = client_private_key->0@;
            assert(inner_reg == spec_xor(sk_in, spec_external_pad(rp, nonce_reg)));
            lemma_xor_unmask(sk_in, spec_external_pad(rp, nonce_reg));
            assert(csk == sk_in);
            assert(csk.len() == 32);
            assert(cpk == spec_base_mul(sk_in));
            assert(cpk == record.client_pub_key@);
            assert(spec_base_mul(csk) == record.client_pub_key@);
        }

        // The recomputed envelope tag is the registered one.
        assert(record.envelope.auth_tag@ == spec_envelope_tag(
            rp,
            nonce_reg,
            inner_reg,
            kp.pub_k@,
            spec_or_default(si, kp.pub_k@),
            spec_or_default(ci, record.client_pub_key@),
        ));
        assert(spec_cf_env_tag(st, ke2, mode) == spec_envelope_tag(
            spec_cf_rp(st, ke2),
            spec_cf_env_nonce(st, ke2, mode),
            spec_cf_inner(st, ke2, mode),
            spec_cf_spk(st, ke2, mode),
            spec_or_default(si, spec_cf_spk(st, ke2, mode)),
            spec_or_default(ci, spec_cf_cpk(st, ke2, mode)),
        ));

        // Both sides build the same transcript preamble.
        assert(st.ke1.spec_serialize() =~= ke1.spec_serialize());
        assert(spec_cf_preamble(st, ke2, mode, ci, si) == spec_si_preamble(
            ke1,
            ke2.inner_ke2,
            record.client_pub_key@,
            kp.pub_k@,
            ci,
            si,
        ));

        // The three Diffie-Hellman products agree.
        let es = ss.eph@;
        let es_pk = ke2.inner_ke2.server_keyshare@;
        let ec = st.client_secret@;
        assert(spec_scalar_mul(ec, es_pk) == spec_scalar_mul(es, ke1.client_keyshare@));
        assert(spec_scalar_mul(ec, kp.pub_k@) == spec_scalar_mul(
            kp.pri_k@,
            ke1.client_keyshare@,
        ));
        assert(spec_scalar_mul(csk, es_pk) == spec_scalar_mul(es, record.client_pub_key@));
        assert(spec_cf_ikm(st, ke2, mode) == spec_si_ikm(
            es,
            kp.pri_k@,
            ke1.client_keyshare@,
            record.client_pub_key@,
        ));

        // Hence the client accepts the server MAC and both sides derive the
        // same keys.
        assert(spec_cf_ok(st, ke2, mode, ci, si));
    }
    let (ke3, client_session_key, export_key_login) = match cf {
        Ok(v) => v,
        Err(_) => {
            proof {
                assert(false);
            }
            return Err(OpaqueError::RngFailure);
        },
    };
    let sf = sstate.server_finish(&ke3);
    let server_session_key = match sf {
        Ok(v) => v,
        Err(_) => {
            proof {
                assert(false);
            }
            return Err(OpaqueError::RngFailure);
        },
    };
    proof {
        if mode is Internal {
            assert(spec_inner_bytes(record.envelope.inner_env).len() == 0);
        }
        assert(record.envelope.spec_serialize().len() == spec_envelope_size(mode));
        assert(record.spec_serialize().len() == 96 + spec_envelope_size(mode));
    }
    Ok(
        ProtocolRun {
            record,
            export_key_register,
            export_key_login,
            client_session_key,
            server_session_key,
        },
    )
}

} // verus!
