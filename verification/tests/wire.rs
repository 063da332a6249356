//! Tests of the wire formats: serialization round trips and length checks.

use opaque_core::envelope::{Envelope, EnvelopeMode, InnerEnvelope};
use opaque_core::messages::ake::{InnerKE2, KE1, KE2, KE3};
use opaque_core::messages::credential::{CredentialRequest, CredentialResponse};
use opaque_core::messages::{RegistrationRequest, RegistrationResponse, RegistrationUpload};
use opaque_core::OpaqueError;

fn bytes(n: usize, seed: u8) -> Vec<u8> {
    (0..n).map(|i| seed.wrapping_add(i as u8)).collect()
}

#[test]
fn registration_request_round_trip() {
    let req = RegistrationRequest { data: bytes(32, 1) };
    let ser = req.serialize();
    assert_eq!(ser.len(), 32);
    let back = RegistrationRequest::deserialize(&ser).unwrap();
    assert_eq!(back.data, req.data);
    assert_eq!(
        RegistrationRequest::deserialize(&ser[..31]).unwrap_err(),
        OpaqueError::DeserializationError
    );
}

#[test]
fn registration_response_round_trip() {
    let resp = RegistrationResponse { data: bytes(32, 3), server_pub_key: bytes(32, 7) };
    let ser = resp.serialize();
    assert_eq!(ser.len(), 64);
    let back = RegistrationResponse::deserialize(&ser).unwrap();
    assert_eq!(back.data, resp.data);
    assert_eq!(back.server_pub_key, resp.server_pub_key);
    assert!(RegistrationResponse::deserialize(&ser[..63]).is_err());
}

#[test]
fn envelope_round_trip_internal() {
    let env = Envelope { nonce: bytes(32, 5), inner_env: None, auth_tag: bytes(64, 9) };
    let ser = env.serialize();
    assert_eq!(ser.len(), 96);
    let back = Envelope::deserialize(EnvelopeMode::Internal, &ser).unwrap();
    assert_eq!(back.nonce, env.nonce);
    assert!(back.inner_env.is_none());
    assert_eq!(back.auth_tag, env.auth_tag);
    assert!(Envelope::deserialize(EnvelopeMode::External, &ser).is_err());
}

#[test]
fn envelope_round_trip_external() {
    let env = Envelope {
        nonce: bytes(32, 5),
        inner_env: Some(InnerEnvelope { credentials: bytes(32, 11) }),
        auth_tag: bytes(64, 9),
    };
    let ser = env.serialize();
    assert_eq!(ser.len(), 128);
    let back = Envelope::deserialize(EnvelopeMode::External, &ser).unwrap();
    assert_eq!(back.nonce, env.nonce);
    assert_eq!(back.inner_env.unwrap().credentials, bytes(32, 11));
    assert_eq!(back.auth_tag, env.auth_tag);
    assert!(Envelope::deserialize(EnvelopeMode::Internal, &ser).is_err());
}

#[test]
fn registration_upload_round_trip() {
    let env = Envelope { nonce: bytes(32, 5), inner_env: None, auth_tag: bytes(64, 9) };
    let up = RegistrationUpload {
        client_pub_key: bytes(32, 13),
        masking_key: bytes(64, 17),
        envelope: env,
    };
    let ser = up.serialize();
    assert_eq!(ser.len(), 192);
    let back = RegistrationUpload::deserialize(EnvelopeMode::Internal, &ser).unwrap();
    assert_eq!(back.client_pub_key, up.client_pub_key);
    assert_eq!(back.masking_key, up.masking_key);
    assert_eq!(back.envelope.nonce, up.envelope.nonce);
    assert_eq!(back.envelope.auth_tag, up.envelope.auth_tag);
    assert!(RegistrationUpload::deserialize(EnvelopeMode::Internal, &ser[..191]).is_err());
}

#[test]
fn credential_request_round_trip() {
    let req = CredentialRequest { data: bytes(32, 21) };
    let ser = req.serialize();
    let back = CredentialRequest::deserialize(&ser).unwrap();
    assert_eq!(back.data, req.data);
}

#[test]
fn credential_response_round_trip() {
    let resp = CredentialResponse {
        data: bytes(32, 23),
        masking_nonce: bytes(32, 29),
        masked_response: bytes(128, 31),
    };
    let ser = resp.serialize();
    assert_eq!(ser.len(), 192);
    let back = CredentialResponse::deserialize(EnvelopeMode::Internal, &ser).unwrap();
    assert_eq!(back.data, resp.data);
    assert_eq!(back.masking_nonce, resp.masking_nonce);
    assert_eq!(back.masked_response, resp.masked_response);
}

#[test]
fn credential_response_truncated_is_rejected() {
    let resp = CredentialResponse {
        data: bytes(32, 23),
        masking_nonce: bytes(32, 29),
        masked_response: bytes(128, 31),
    };
    let ser = resp.serialize();
    let truncated = &ser[..95];
    assert_eq!(
        CredentialResponse::deserialize(EnvelopeMode::Internal, truncated).unwrap_err(),
        OpaqueError::DeserializationError
    );
}

#[test]
fn ke_messages_round_trip() {
    let ke1 = KE1 {
        request: CredentialRequest { data: bytes(32, 1) },
        client_nonce: bytes(32, 2),
        client_keyshare: bytes(32, 3),
    };
    let ser1 = ke1.serialize();
    assert_eq!(ser1.len(), 96);
    let back1 = KE1::deserialize(&ser1).unwrap();
    assert_eq!(back1.request.data, ke1.request.data);
    assert_eq!(back1.client_nonce, ke1.client_nonce);
    assert_eq!(back1.client_keyshare, ke1.client_keyshare);
    assert!(KE1::deserialize(&ser1[..95]).is_err());

    let ke2 = KE2 {
        inner_ke2: InnerKE2 {
            response: CredentialResponse {
                data: bytes(32, 4),
                masking_nonce: bytes(32, 5),
                masked_response: bytes(128, 6),
            },
            server_nonce: bytes(32, 7),
            server_keyshare: bytes(32, 8),
        },
        server_mac: bytes(64, 9),
    };
    let ser2 = ke2.serialize();
    assert_eq!(ser2.len(), 320);
    let back2 = KE2::deserialize(EnvelopeMode::Internal, &ser2).unwrap();
    assert_eq!(back2.inner_ke2.response.data, ke2.inner_ke2.response.data);
    assert_eq!(back2.inner_ke2.server_nonce, ke2.inner_ke2.server_nonce);
    assert_eq!(back2.inner_ke2.server_keyshare, ke2.inner_ke2.server_keyshare);
    assert_eq!(back2.server_mac, ke2.server_mac);
    assert!(KE2::deserialize(EnvelopeMode::Internal, &ser2[..319]).is_err());

    let ke3 = KE3 { client_mac: bytes(64, 10) };
    let ser3 = ke3.serialize();
    assert_eq!(ser3.len(), 64);
    assert_eq!(KE3::deserialize(&ser3).unwrap().client_mac, ke3.client_mac);
    assert!(KE3::deserialize(&ser3[..63]).is_err());
}
