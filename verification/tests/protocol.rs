//! End-to-end tests of registration and login: agreement, rejection of
//! wrong passwords, tampered records, mismatched keys and identities,
//! replay, and single-use states.

use opaque_core::ake::{register_and_login, ClientState, ServerState};
use opaque_core::envelope::EnvelopeMode;
use opaque_core::messages::credential::CredentialResponse;
use opaque_core::messages::{
    RegistrationRequest, RegistrationResponse, RegistrationUpload,
};
use opaque_core::keys::KeyPair;
use opaque_core::OpaqueError;

const PASSWORD: &[u8] = b"correct horse battery staple";
const CRED_ID: &[u8] = b"alice@example.com";

fn oprf_seed() -> Vec<u8> {
    vec![0u8; 64]
}

fn server_keys() -> KeyPair {
    let mut seed = vec![0u8; 32];
    seed[0] = 0x01;
    EnvelopeMode::derive_auth_keypair(&seed).unwrap()
}

fn register(
    password: &[u8],
    kp: &KeyPair,
    mode: EnvelopeMode,
    client_sk: &Option<Vec<u8>>,
    server_identity: &Option<Vec<u8>>,
    client_identity: &Option<Vec<u8>>,
) -> (RegistrationUpload, Vec<u8>) {
    let (request, blind) = RegistrationRequest::create_registration_request(password).unwrap();
    let response = RegistrationResponse::create_registration_response(
        &request,
        &kp.pub_k,
        CRED_ID,
        &oprf_seed(),
    )
    .unwrap();
    RegistrationUpload::finalize_request(
        password,
        &blind,
        &response,
        mode,
        client_sk,
        server_identity,
        client_identity,
    )
    .unwrap()
}

fn login(
    password: &[u8],
    kp: &KeyPair,
    record: &RegistrationUpload,
    mode: EnvelopeMode,
    client_identity: &Option<Vec<u8>>,
    server_identity: &Option<Vec<u8>>,
) -> Result<(Vec<u8>, Vec<u8>, Vec<u8>), OpaqueError> {
    let (ke1, mut cstate) = ClientState::client_init(password).unwrap();
    let (ke2, mut sstate) = ServerState::server_init(
        &kp.pri_k,
        &kp.pub_k,
        record,
        mode,
        CRED_ID,
        &oprf_seed(),
        &ke1,
        client_identity,
        server_identity,
    )?;
    let (ke3, client_session_key, export_key) =
        cstate.client_finish(&ke2, mode, client_identity, server_identity)?;
    let server_session_key = sstate.server_finish(&ke3)?;
    Ok((client_session_key, server_session_key, export_key))
}

#[test]
fn internal_mode_end_to_end() {
    let kp = server_keys();
    let (record, export_register) =
        register(PASSWORD, &kp, EnvelopeMode::Internal, &None, &None, &None);
    assert_eq!(record.serialize().len(), 192);
    assert_eq!(export_register.len(), 64);
    let (client_sk, server_sk, export_login) =
        login(PASSWORD, &kp, &record, EnvelopeMode::Internal, &None, &None).unwrap();
    assert_eq!(client_sk, server_sk);
    assert_eq!(client_sk.len(), 64);
    assert_eq!(export_login, export_register);
}

#[test]
fn end_to_end_with_identities() {
    let kp = server_keys();
    let ci = Some(b"alice".to_vec());
    let si = Some(b"example.com".to_vec());
    let (record, export_register) =
        register(PASSWORD, &kp, EnvelopeMode::Internal, &None, &si, &ci);
    let (client_sk, server_sk, export_login) =
        login(PASSWORD, &kp, &record, EnvelopeMode::Internal, &ci, &si).unwrap();
    assert_eq!(client_sk, server_sk);
    assert_eq!(export_login, export_register);
}

#[test]
fn wrong_password_rejected() {
    let kp = server_keys();
    let (record, _) = register(PASSWORD, &kp, EnvelopeMode::Internal, &None, &None, &None);
    let err = login(b"wrong", &kp, &record, EnvelopeMode::Internal, &None, &None).unwrap_err();
    assert_eq!(err, OpaqueError::EnvelopeRecoveryError);
}

#[test]
fn password_differing_in_one_byte_rejected() {
    let kp = server_keys();
    let (record, _) = register(PASSWORD, &kp, EnvelopeMode::Internal, &None, &None, &None);
    let mut close = PASSWORD.to_vec();
    close[0] ^= 0x01;
    let err = login(&close, &kp, &record, EnvelopeMode::Internal, &None, &None).unwrap_err();
    assert!(err == OpaqueError::EnvelopeRecoveryError || err == OpaqueError::HandshakeError);
}

#[test]
fn external_mode_round_trip() {
    let kp = server_keys();
    let mut sk_seed = vec![0u8; 32];
    sk_seed[0] = 0x02;
    let client_pair = EnvelopeMode::derive_auth_keypair(&sk_seed).unwrap();
    let client_sk = Some(client_pair.pri_k.clone());
    let (record, export_register) =
        register(PASSWORD, &kp, EnvelopeMode::External, &client_sk, &None, &None);
    assert_eq!(record.serialize().len(), 224);
    let (c, s, export_login) =
        login(PASSWORD, &kp, &record, EnvelopeMode::External, &None, &None).unwrap();
    assert_eq!(c, s);
    assert_eq!(export_login, export_register);
    // The stored envelope decrypts back to exactly the imported private key.
    let (request, blind) = RegistrationRequest::create_registration_request(PASSWORD).unwrap();
    let response = CredentialResponse::create_credential_response(
        &opaque_core::messages::credential::CredentialRequest { data: request.data },
        &kp.pub_k,
        &record,
        EnvelopeMode::External,
        CRED_ID,
        &oprf_seed(),
    )
    .unwrap();
    let (recovered_sk, recovered_spk, _) = response
        .recover_credentials(PASSWORD, &blind, EnvelopeMode::External, &None, &None)
        .unwrap();
    assert_eq!(recovered_sk, client_pair.pri_k);
    assert_eq!(recovered_spk, kp.pub_k);
}

#[test]
fn record_tamper_fails_login() {
    let kp = server_keys();
    let (record, _) = register(PASSWORD, &kp, EnvelopeMode::Internal, &None, &None, &None);

    let mut tampered = RegistrationUpload::deserialize(
        EnvelopeMode::Internal,
        &record.serialize(),
    )
    .unwrap();
    tampered.client_pub_key[7] ^= 0x20;
    assert!(login(PASSWORD, &kp, &tampered, EnvelopeMode::Internal, &None, &None).is_err());

    let mut tampered = RegistrationUpload::deserialize(
        EnvelopeMode::Internal,
        &record.serialize(),
    )
    .unwrap();
    tampered.masking_key[0] ^= 0x80;
    assert!(login(PASSWORD, &kp, &tampered, EnvelopeMode::Internal, &None, &None).is_err());

    let mut tampered = RegistrationUpload::deserialize(
        EnvelopeMode::Internal,
        &record.serialize(),
    )
    .unwrap();
    tampered.envelope.auth_tag[63] ^= 0x01;
    let err = login(PASSWORD, &kp, &tampered, EnvelopeMode::Internal, &None, &None).unwrap_err();
    assert_eq!(err, OpaqueError::EnvelopeRecoveryError);

    let mut tampered = RegistrationUpload::deserialize(
        EnvelopeMode::Internal,
        &record.serialize(),
    )
    .unwrap();
    tampered.envelope.nonce[0] ^= 0x02;
    assert!(login(PASSWORD, &kp, &tampered, EnvelopeMode::Internal, &None, &None).is_err());
}

#[test]
fn server_key_mismatch_fails() {
    let kp = server_keys();
    let (record, _) = register(PASSWORD, &kp, EnvelopeMode::Internal, &None, &None, &None);
    let mut other_seed = vec![0u8; 32];
    other_seed[0] = 0x03;
    let other = EnvelopeMode::derive_auth_keypair(&other_seed).unwrap();
    let err = login(PASSWORD, &other, &record, EnvelopeMode::Internal, &None, &None).unwrap_err();
    assert_eq!(err, OpaqueError::EnvelopeRecoveryError);
}

#[test]
fn identity_change_fails() {
    let kp = server_keys();
    let ci = Some(b"alice".to_vec());
    let si = Some(b"example.com".to_vec());
    let (record, _) = register(PASSWORD, &kp, EnvelopeMode::Internal, &None, &si, &ci);
    let err = login(
        PASSWORD,
        &kp,
        &record,
        EnvelopeMode::Internal,
        &Some(b"mallory".to_vec()),
        &si,
    )
    .unwrap_err();
    assert_eq!(err, OpaqueError::EnvelopeRecoveryError);
    let err = login(
        PASSWORD,
        &kp,
        &record,
        EnvelopeMode::Internal,
        &ci,
        &Some(b"evil.example.com".to_vec()),
    )
    .unwrap_err();
    assert_eq!(err, OpaqueError::EnvelopeRecoveryError);
}

#[test]
fn replay_of_old_ke2_fails() {
    let kp = server_keys();
    let (record, _) = register(PASSWORD, &kp, EnvelopeMode::Internal, &None, &None, &None);
    // An old session whose transcript pieces an attacker replays later.
    let (ke1_old, _cstate_old) = ClientState::client_init(PASSWORD).unwrap();
    let (ke2_old, _sstate_old) = ServerState::server_init(
        &kp.pri_k,
        &kp.pub_k,
        &record,
        EnvelopeMode::Internal,
        CRED_ID,
        &oprf_seed(),
        &ke1_old,
        &None,
        &None,
    )
    .unwrap();
    // A fresh session.
    let (ke1_new, mut cstate_new) = ClientState::client_init(PASSWORD).unwrap();
    let (ke2_new, _sstate_new) = ServerState::server_init(
        &kp.pri_k,
        &kp.pub_k,
        &record,
        EnvelopeMode::Internal,
        CRED_ID,
        &oprf_seed(),
        &ke1_new,
        &None,
        &None,
    )
    .unwrap();
    // Splice the old nonce, key share and MAC over the fresh credential
    // response: the envelope still opens, but the transcript MAC covers the
    // wrong nonces and must be rejected.
    let mut ke2_replayed = ke2_new;
    ke2_replayed.inner_ke2.server_nonce = ke2_old.inner_ke2.server_nonce.clone();
    ke2_replayed.inner_ke2.server_keyshare = ke2_old.inner_ke2.server_keyshare.clone();
    ke2_replayed.server_mac = ke2_old.server_mac.clone();
    let err = cstate_new
        .client_finish(&ke2_replayed, EnvelopeMode::Internal, &None, &None)
        .unwrap_err();
    assert_eq!(err, OpaqueError::HandshakeError);
    // Replaying the old KE2 wholesale fails as well: its credential
    // response does not match the fresh blinding, so recovery aborts.
    let (_ke1, mut cstate) = ClientState::client_init(PASSWORD).unwrap();
    let err = cstate
        .client_finish(&ke2_old, EnvelopeMode::Internal, &None, &None)
        .unwrap_err();
    assert_eq!(err, OpaqueError::EnvelopeRecoveryError);
}

#[test]
fn state_single_use() {
    let kp = server_keys();
    let (record, _) = register(PASSWORD, &kp, EnvelopeMode::Internal, &None, &None, &None);
    let (ke1, mut cstate) = ClientState::client_init(PASSWORD).unwrap();
    let (ke2, mut sstate) = ServerState::server_init(
        &kp.pri_k,
        &kp.pub_k,
        &record,
        EnvelopeMode::Internal,
        CRED_ID,
        &oprf_seed(),
        &ke1,
        &None,
        &None,
    )
    .unwrap();
    let (ke3, _, _) = cstate
        .client_finish(&ke2, EnvelopeMode::Internal, &None, &None)
        .unwrap();
    assert_eq!(
        cstate
            .client_finish(&ke2, EnvelopeMode::Internal, &None, &None)
            .unwrap_err(),
        OpaqueError::UsageError
    );
    sstate.server_finish(&ke3).unwrap();
    assert_eq!(sstate.server_finish(&ke3).unwrap_err(), OpaqueError::UsageError);
}

#[test]
fn missing_record_response_has_same_shape() {
    let kp = server_keys();
    let (record, _) = register(PASSWORD, &kp, EnvelopeMode::Internal, &None, &None, &None);
    let (ke1, _cstate) = ClientState::client_init(PASSWORD).unwrap();
    let real = CredentialResponse::create_credential_response(
        &ke1.request,
        &kp.pub_k,
        &record,
        EnvelopeMode::Internal,
        CRED_ID,
        &oprf_seed(),
    )
    .unwrap();
    let fake_record = RegistrationUpload::fake(EnvelopeMode::Internal, &oprf_seed(), b"nobody");
    let fake = CredentialResponse::create_credential_response(
        &ke1.request,
        &kp.pub_k,
        &fake_record,
        EnvelopeMode::Internal,
        b"nobody",
        &oprf_seed(),
    )
    .unwrap();
    assert_eq!(real.serialize().len(), fake.serialize().len());
    assert_eq!(real.serialize().len(), 192);
    // A login against the stand-in record fails without revealing why.
    let err = login(PASSWORD, &kp, &fake_record, EnvelopeMode::Internal, &None, &None)
        .unwrap_err();
    assert!(err == OpaqueError::EnvelopeRecoveryError || err == OpaqueError::DeserializationError);
}

#[test]
fn register_and_login_agreement() {
    let out = register_and_login(
        PASSWORD,
        CRED_ID,
        &oprf_seed(),
        b"another server key seed, any length works",
        EnvelopeMode::Internal,
        &None,
        &None,
        &None,
    )
    .unwrap();
    assert_eq!(out.client_session_key, out.server_session_key);
    assert_eq!(out.client_session_key.len(), 64);
    assert_eq!(out.export_key_login, out.export_key_register);
    assert_eq!(out.record.serialize().len(), 192);
}

#[test]
fn register_and_login_agreement_external() {
    let mut sk_seed = vec![0u8; 32];
    sk_seed[0] = 0x02;
    let client_pair = EnvelopeMode::derive_auth_keypair(&sk_seed).unwrap();
    let out = register_and_login(
        PASSWORD,
        CRED_ID,
        &oprf_seed(),
        b"server key seed",
        EnvelopeMode::External,
        &Some(client_pair.pri_k),
        &Some(b"alice".to_vec()),
        &Some(b"example.com".to_vec()),
    )
    .unwrap();
    assert_eq!(out.client_session_key, out.server_session_key);
    assert_eq!(out.export_key_login, out.export_key_register);
    assert_eq!(out.record.serialize().len(), 224);
}
