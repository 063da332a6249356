//! Tests of the byte-string and hash primitives.

use opaque_core::common::{byte_repeat, ct_equal, i2osp, i2osp_serialize, os2ip, xor};
use opaque_core::hash::{
    expand_message_xmd, hkdf_expand, hkdf_extract, hmac_sha512, randomized_pwd,
};
use opaque_core::{hello_world, OpaqueError};

fn from_hex(s: &str) -> Vec<u8> {
    assert!(s.len() % 2 == 0);
    (0..s.len() / 2)
        .map(|i| u8::from_str_radix(&s[2 * i..2 * i + 2], 16).unwrap())
        .collect()
}

#[test]
fn hello_world_says_hello() {
    assert_eq!(hello_world(), "Hello, world!");
}

#[test]
fn i2osp_concrete() {
    assert_eq!(i2osp(0, 2), vec![0u8, 0]);
    assert_eq!(i2osp(0x0102, 2), vec![1u8, 2]);
    assert_eq!(i2osp(255, 1), vec![255u8]);
    assert_eq!(i2osp(1, 4), vec![0u8, 0, 0, 1]);
    assert_eq!(i2osp(0x0a0b0c, 10), vec![0u8, 0, 0, 0, 0, 0, 0, 0x0a, 0x0b, 0x0c]);
}

#[test]
fn i2osp_os2ip_round_trip() {
    assert_eq!(os2ip(&i2osp(0x123456, 4)), 0x123456);
    assert_eq!(os2ip(&i2osp(0, 3)), 0);
    assert_eq!(os2ip(&i2osp(65535, 2)), 65535);
    assert_eq!(i2osp(os2ip(&[9, 8, 7]), 3), vec![9u8, 8, 7]);
    assert_eq!(i2osp(os2ip(&[0, 0, 1]), 3), vec![0u8, 0, 1]);
    assert_eq!(os2ip(&[]), 0);
}

#[test]
fn xor_involution() {
    let a = vec![1u8, 2, 3, 250, 0, 77];
    let b = vec![9u8, 9, 9, 9, 9, 9];
    let m = xor(&a, &b).unwrap();
    assert_ne!(m, a);
    assert_eq!(xor(&m, &b).unwrap(), a);
}

#[test]
fn xor_length_mismatch_is_usage_error() {
    assert_eq!(xor(&[1u8, 2], &[1u8]).unwrap_err(), OpaqueError::UsageError);
}

#[test]
fn ct_equal_all_mismatch_positions() {
    let a = vec![7u8; 64];
    assert!(ct_equal(&a, &a));
    for pos in 0..64 {
        let mut b = a.clone();
        b[pos] ^= 0x01;
        assert!(!ct_equal(&a, &b), "mismatch at {} not detected", pos);
    }
    assert!(!ct_equal(&a, &a[..63]));
    assert!(ct_equal(&[], &[]));
}

#[test]
fn ct_equal_timing_smoke() {
    // The comparison must not exit early: the time to reject a mismatch in
    // the first octet and in the last octet of a long buffer must be of the
    // same order.  This is a coarse smoke test with a generous margin, not
    // a side-channel measurement.
    let a = vec![0xaau8; 4096];
    let mut early = a.clone();
    early[0] ^= 1;
    let mut late = a.clone();
    late[4095] ^= 1;
    for _ in 0..500 {
        std::hint::black_box(ct_equal(std::hint::black_box(&a), std::hint::black_box(&early)));
        std::hint::black_box(ct_equal(std::hint::black_box(&a), std::hint::black_box(&late)));
    }
    let n = 4000;
    let t0 = std::time::Instant::now();
    for _ in 0..n {
        std::hint::black_box(ct_equal(std::hint::black_box(&a), std::hint::black_box(&early)));
    }
    let d_early = t0.elapsed().as_nanos().max(1);
    let t1 = std::time::Instant::now();
    for _ in 0..n {
        std::hint::black_box(ct_equal(std::hint::black_box(&a), std::hint::black_box(&late)));
    }
    let d_late = t1.elapsed().as_nanos().max(1);
    let ratio = d_early as f64 / d_late as f64;
    assert!(ratio > 0.2 && ratio < 5.0, "timing ratio {}", ratio);
}

#[test]
fn i2osp_serialize_prefixes_length() {
    assert_eq!(i2osp_serialize(b"abc", 2), vec![0u8, 3, b'a', b'b', b'c']);
    assert_eq!(i2osp_serialize(b"", 2), vec![0u8, 0]);
}

#[test]
fn byte_repeat_fills() {
    assert_eq!(byte_repeat(0x36, 3), vec![0x36u8, 0x36, 0x36]);
    assert_eq!(byte_repeat(0, 0), Vec::<u8>::new());
}

#[test]
fn hmac_sha512_rfc_vector() {
    // RFC 4231, test case 1.
    let key = vec![0x0bu8; 20];
    let tag = hmac_sha512(&key, b"Hi There");
    assert_eq!(
        tag,
        from_hex(
            "87aa7cdea5ef619d4ff0b4241a1d6cb02379f4e2ce4ec2787ad0b30545e17cde\
             daa833b7d6b8a702038b274eaea3f4e4be9d914eeb61f1702e696c203a126854"
        )
    );
}

#[test]
fn hkdf_expand_vector() {
    let prk: Vec<u8> = (0u8..64).collect();
    let okm = hkdf_expand(&prk, b"info", 100).unwrap();
    assert_eq!(
        okm,
        from_hex(
            "3cb647d2d2c424e185201a85c73a729ca9496b114c8f3752d6819f60b1bd5da0\
             3e3834c1728ebce89f8f9d40c6838a86aed857389ea8cb24aedbb87b66a27fd8\
             0dcebd3b0738fe78268087c46ea29193641823aa89b268495cc9dbe521981d91\
             260dea86"
        )
    );
}

#[test]
fn hkdf_expand_too_large() {
    let prk = vec![0u8; 64];
    assert_eq!(
        hkdf_expand(&prk, b"x", 255 * 64 + 1).unwrap_err(),
        OpaqueError::ExpandTooLarge
    );
    assert_eq!(hkdf_expand(&prk, b"x", 255 * 64).unwrap().len(), 255 * 64);
    assert_eq!(hkdf_expand(&prk, b"x", 0).unwrap(), Vec::<u8>::new());
}

#[test]
fn hkdf_extract_is_hmac() {
    let salt = vec![1u8; 13];
    let ikm = b"input keying material";
    assert_eq!(hkdf_extract(&salt, ikm), hmac_sha512(&salt, ikm));
    assert_eq!(hkdf_extract(&salt, ikm).len(), 64);
}

#[test]
fn expand_message_xmd_vector() {
    let out = expand_message_xmd(b"abc", b"TESTDST", 77).unwrap();
    assert_eq!(
        out,
        from_hex(
            "4941fd1590bf32babd8ab8392dae4c00688f9d1fa8c82558b0104a6010e4f967\
             8beacfb3cc9ff6c6c792a989553e96a8f6ab02af69c6b5f1aa500accb545d60b\
             52b6fc93a3d06cd1e4a657fd2e"
        )
    );
}

#[test]
fn expand_message_xmd_too_large() {
    assert_eq!(
        expand_message_xmd(b"m", b"d", 255 * 64 + 1).unwrap_err(),
        OpaqueError::ExpandTooLarge
    );
}

#[test]
fn randomized_pwd_matches_extract_of_identity_harden() {
    let y = vec![0xa5u8; 64];
    assert_eq!(randomized_pwd(&y), hkdf_extract(&[], &y));
}
