//! Tests of key derivation, the group-facing helpers, and the envelope.

use opaque_core::envelope::{CleartextCredentials, Envelope, EnvelopeMode};
use opaque_core::group::{map_to_curve, nonzero_random_scalar};
use opaque_core::keys::{derive_keypair, hash_to_scalar, oprf_key_from_seed};
use opaque_core::messages::{RegistrationRequest, RegistrationResponse, RegistrationUpload};
use opaque_core::OpaqueError;

#[test]
fn derive_keypair_is_deterministic() {
    let a = derive_keypair(b"seed one").unwrap();
    let b = derive_keypair(b"seed one").unwrap();
    let c = derive_keypair(b"seed two").unwrap();
    assert_eq!(a.pri_k, b.pri_k);
    assert_eq!(a.pub_k, b.pub_k);
    assert_ne!(a.pri_k, c.pri_k);
    assert_ne!(a.pub_k, c.pub_k);
    assert_eq!(a.pri_k.len(), 32);
    assert_eq!(a.pub_k.len(), 32);
    assert_ne!(a.pub_k, a.pri_k);
    assert_ne!(a.pri_k, vec![0u8; 32]);
}

#[test]
fn hash_to_scalar_nonzero() {
    let s = hash_to_scalar(b"anything").unwrap();
    assert_eq!(s.len(), 32);
    assert_ne!(s, vec![0u8; 32]);
    assert_eq!(s, hash_to_scalar(b"anything").unwrap());
}

#[test]
fn oprf_key_depends_on_seed_and_identifier() {
    let seed_a = vec![0u8; 64];
    let mut seed_b = vec![0u8; 64];
    seed_b[0] = 1;
    let k1 = oprf_key_from_seed(&seed_a, b"alice").unwrap();
    let k2 = oprf_key_from_seed(&seed_a, b"alice").unwrap();
    let k3 = oprf_key_from_seed(&seed_a, b"bob").unwrap();
    let k4 = oprf_key_from_seed(&seed_b, b"alice").unwrap();
    assert_eq!(k1, k2);
    assert_ne!(k1, k3);
    assert_ne!(k1, k4);
    assert_eq!(k1.len(), 32);
}

#[test]
fn evaluation_depends_on_oprf_key() {
    let (request, _blind) = RegistrationRequest::create_registration_request(b"pw").unwrap();
    let kp = derive_keypair(b"server").unwrap();
    let seed_a = vec![0u8; 64];
    let mut seed_b = vec![0u8; 64];
    seed_b[63] = 7;
    let ra = RegistrationResponse::create_registration_response(
        &request, &kp.pub_k, b"id", &seed_a,
    )
    .unwrap();
    let rb = RegistrationResponse::create_registration_response(
        &request, &kp.pub_k, b"id", &seed_b,
    )
    .unwrap();
    assert_ne!(ra.data, rb.data);
    assert_ne!(ra.data, request.data);
    assert_eq!(ra.server_pub_key, kp.pub_k);
}

#[test]
fn nonzero_random_scalar_draws() {
    let a = nonzero_random_scalar().unwrap();
    let b = nonzero_random_scalar().unwrap();
    assert_eq!(a.len(), 32);
    assert_ne!(a, vec![0u8; 32]);
    assert_ne!(a, b);
}

#[test]
fn map_to_curve_is_deterministic() {
    let p = map_to_curve(b"input", b"DST");
    let q = map_to_curve(b"input", b"DST");
    let r = map_to_curve(b"other", b"DST");
    let s = map_to_curve(b"input", b"DST2");
    assert_eq!(p, q);
    assert_ne!(p, r);
    assert_ne!(p, s);
    assert_eq!(p.len(), 32);
}

#[test]
fn cleartext_credentials_defaults() {
    let spk = vec![1u8; 32];
    let cpk = vec![2u8; 32];
    let c = CleartextCredentials::new(spk.clone(), cpk.clone(), None, None);
    assert_eq!(c.server_public_key, spk);
    assert_eq!(c.server_identity, spk);
    assert_eq!(c.client_identity, cpk);
    let c = CleartextCredentials::new(
        spk.clone(),
        cpk.clone(),
        Some(b"srv".to_vec()),
        Some(b"cli".to_vec()),
    );
    assert_eq!(c.server_identity, b"srv".to_vec());
    assert_eq!(c.client_identity, b"cli".to_vec());
}

#[test]
fn envelope_create_recover_round_trip() {
    let rp = vec![0x42u8; 64];
    let spk = derive_keypair(b"server").unwrap().pub_k;
    let (env, cpk, masking_key, export_key) = Envelope::create(
        EnvelopeMode::Internal,
        &rp,
        &spk,
        &None,
        &None,
        &None,
    )
    .unwrap();
    assert_eq!(cpk.len(), 32);
    assert_eq!(masking_key.len(), 64);
    assert_eq!(export_key.len(), 64);
    let (sk, export_again) = env
        .recover(EnvelopeMode::Internal, &rp, &spk, &None, &None)
        .unwrap();
    assert_eq!(export_again, export_key);
    assert_eq!(sk.len(), 32);
    // Rebuilding the inner envelope from the same inputs yields the same
    // client public key as the one sealed into the record.
    let pair = EnvelopeMode::Internal
        .build_inner_envelope(&rp, &env.nonce, &None)
        .unwrap();
    assert_eq!(pair.1, cpk);
}

#[test]
fn envelope_recover_rejects_tamper_and_wrong_inputs() {
    let rp = vec![0x42u8; 64];
    let spk = derive_keypair(b"server").unwrap().pub_k;
    let (mut env, _cpk, _mk, _ek) = Envelope::create(
        EnvelopeMode::Internal,
        &rp,
        &spk,
        &None,
        &None,
        &None,
    )
    .unwrap();
    let other_rp = vec![0x43u8; 64];
    assert_eq!(
        env.recover(EnvelopeMode::Internal, &other_rp, &spk, &None, &None)
            .unwrap_err(),
        OpaqueError::EnvelopeRecoveryError
    );
    let other_spk = derive_keypair(b"other server").unwrap().pub_k;
    assert_eq!(
        env.recover(EnvelopeMode::Internal, &rp, &other_spk, &None, &None)
            .unwrap_err(),
        OpaqueError::EnvelopeRecoveryError
    );
    env.auth_tag[0] ^= 1;
    assert_eq!(
        env.recover(EnvelopeMode::Internal, &rp, &spk, &None, &None)
            .unwrap_err(),
        OpaqueError::EnvelopeRecoveryError
    );
}

#[test]
fn recover_keys_returns_derived_pair() {
    let rp = vec![9u8; 64];
    let nonce = vec![7u8; 32];
    let mode = EnvelopeMode::Internal;
    let (inner, cpk) = mode.build_inner_envelope(&rp, &nonce, &None).unwrap();
    assert!(inner.is_none());
    let (sk, pk) = mode.recover_keys(&rp, &nonce, &inner).unwrap();
    assert_eq!(pk, cpk);
    assert_eq!(sk.len(), 32);
}

#[test]
fn external_inner_envelope_hides_key() {
    let rp = vec![9u8; 64];
    let nonce = vec![7u8; 32];
    let sk = derive_keypair(b"client").unwrap().pri_k;
    let mode = EnvelopeMode::External;
    let (inner, cpk) = mode.build_inner_envelope(&rp, &nonce, &Some(sk.clone())).unwrap();
    let stored = inner.as_ref().unwrap().credentials.clone();
    assert_ne!(stored, sk);
    let (sk_back, pk_back) = mode.recover_keys(&rp, &nonce, &inner).unwrap();
    assert_eq!(sk_back, sk);
    assert_eq!(pk_back, cpk);
    // Missing imported key is a usage error.
    match mode.build_inner_envelope(&rp, &nonce, &None) {
        Err(e) => assert_eq!(e, OpaqueError::UsageError),
        Ok(_) => panic!("missing client key must be rejected"),
    }
}

#[test]
fn fake_record_is_deterministic_and_zeroed() {
    let seed = vec![0u8; 64];
    let a = RegistrationUpload::fake(EnvelopeMode::Internal, &seed, b"ghost");
    let b = RegistrationUpload::fake(EnvelopeMode::Internal, &seed, b"ghost");
    let c = RegistrationUpload::fake(EnvelopeMode::Internal, &seed, b"phantom");
    assert_eq!(a.masking_key, b.masking_key);
    assert_ne!(a.masking_key, c.masking_key);
    assert_eq!(a.client_pub_key, vec![0u8; 32]);
    assert_eq!(a.envelope.nonce, vec![0u8; 32]);
    assert_eq!(a.envelope.auth_tag, vec![0u8; 64]);
    assert!(a.envelope.inner_env.is_none());
}
