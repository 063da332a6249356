//! The hash and key-derivation layer of the fixed suite: SHA-512,
//! HMAC-SHA-512, HKDF-Extract/Expand (RFC 5869) and `expand_message_xmd`
//! (hash-to-curve).  Everything except the digest call itself is implemented
//! and verified here.

use vstd::prelude::*;

use crate::OpaqueError;
use crate::common::{
    bytes_concat, byte_repeat, i2osp, spec_i2osp, spec_repeat, spec_xor, spec_zeros, xor_fixed,
};

verus! {

/// Output size of the suite hash (SHA-512) in octets.
pub const HASH_OUTPUT_SIZE: usize = 64;

/// Internal block size of the suite hash (SHA-512) in octets.
pub const HASH_BLOCK_SIZE: usize = 128;

/// The SHA-512 digest of an octet string, a function of the input alone.
pub uninterp spec fn sha512_of(input: Seq<u8>) -> Seq<u8>;

/// Relies on `sha2::Sha512::digest` (through the `digest::Digest` trait):
/// the 64-octet SHA-512 digest of the input, depending on the input octets
/// alone.
#[verifier::external_body]
pub(crate) fn sha512(input: &[u8]) -> (r: Vec<u8>)
    ensures
        r@ == sha512_of(input@),
        r@.len() == 64,
{
    let d = <sha2::Sha512 as sha2::Digest>::digest(input);
    d.as_slice().to_vec()
}

/// Marker type for the suite hash, SHA-512.
pub struct SuiteHash;

/// The two size parameters of the suite hash.
pub trait HashSizing {
    fn output_size_usize() -> (r: usize)
        ensures
            r == 64,
    ;

    fn block_size_usize() -> (r: usize)
        ensures
            r == 128,
    ;
}

impl HashSizing for SuiteHash {
    fn output_size_usize() -> (r: usize) {
        HASH_OUTPUT_SIZE
    }

    fn block_size_usize() -> (r: usize) {
        HASH_BLOCK_SIZE
    }
}

/// The HMAC key padded with zeros to the hash block size.  The suite never
/// uses keys above the block size, so no pre-hashing step is needed.
pub open spec fn spec_hmac_key_block(key: Seq<u8>) -> Seq<u8> {
    key + spec_zeros((128 - key.len()) as nat)
}

/// HMAC-SHA-512 per RFC 2104, for keys of at most one hash block.
pub open spec fn spec_hmac(key: Seq<u8>, msg: Seq<u8>) -> Seq<u8> {
    let kb = spec_hmac_key_block(key);
    sha512_of(spec_xor(kb, spec_repeat(0x5cu8, 128)) + sha512_of(
        spec_xor(kb, spec_repeat(0x36u8, 128)) + msg,
    ))
}

/// HMAC-SHA-512 tag over `msg` under `key`.
pub fn hmac_sha512(key: &[u8], msg: &[u8]) -> (r: Vec<u8>)
    requires
        key@.len() <= 128,
    ensures
        r@ == spec_hmac(key@, msg@),
        r@.len() == 64,
{
    let pad = byte_repeat(0u8, 128 - key.len());
    let kb = bytes_concat(key, pad.as_slice());
    let ipad = byte_repeat(0x36u8, 128);
    let opad = byte_repeat(0x5cu8, 128);
    let ikey = xor_fixed(kb.as_slice(), ipad.as_slice());
    let inner_input = bytes_concat(ikey.as_slice(), msg);
    let inner = sha512(inner_input.as_slice());
    let okey = xor_fixed(kb.as_slice(), opad.as_slice());
    let outer_input = bytes_concat(okey.as_slice(), inner.as_slice());
    sha512(outer_input.as_slice())
}

/// HKDF-Extract per RFC 5869: a pseudo-random key drawn from the input key
/// material under the given salt.
pub open spec fn spec_hkdf_extract(salt: Seq<u8>, ikm: Seq<u8>) -> Seq<u8> {
    spec_hmac(salt, ikm)
}

/// HKDF-Extract(salt, ikm) = HMAC-SHA-512(salt, ikm).  An absent salt is the
/// empty string, which HMAC pads with zeros to the block size exactly as RFC
/// 5869 prescribes.
pub fn hkdf_extract(salt: &[u8], ikm: &[u8]) -> (r: Vec<u8>)
    requires
        salt@.len() <= 128,
    ensures
        r@ == spec_hkdf_extract(salt@, ikm@),
        r@.len() == 64,
{
    hmac_sha512(salt, ikm)
}

/// Block `T(i)` of HKDF-Expand: `T(0)` is empty and
/// `T(i) = HMAC(prk, T(i-1) || info || I2OSP(i, 1))`.
pub open spec fn spec_hkdf_t(prk: Seq<u8>, info: Seq<u8>, i: nat) -> Seq<u8>
    decreases i,
{
    if i == 0 {
        Seq::empty()
    } else {
        spec_hmac(prk, spec_hkdf_t(prk, info, (i - 1) as nat) + info + spec_i2osp(i, 1))
    }
}

/// The concatenation `T(1) || ... || T(n)` of HKDF-Expand blocks.
pub open spec fn spec_hkdf_blocks(prk: Seq<u8>, info: Seq<u8>, n: nat) -> Seq<u8>
    decreases n,
{
    if n == 0 {
        Seq::empty()
    } else {
        spec_hkdf_blocks(prk, info, (n - 1) as nat) + spec_hkdf_t(prk, info, n)
    }
}

/// Facts about the block count `ceil(l / 64)` used by the two expanders.
proof fn lemma_ceil_div64(l: nat)
    ensures
        64 * ((l + 63) / 64) >= l,
        ((l + 63) / 64 <= 255) <==> (l <= 255 * 64),
{
    vstd::arithmetic::div_mod::lemma_remainder((l + 63) as int, 64);
    assert(64 * ((l + 63) / 64) >= l && (((l + 63) / 64 <= 255) <==> (l <= 255 * 64)))
        by (nonlinear_arith)
        requires
            0 <= ((l + 63) as int) - (((l + 63) as int) / 64) * 64 < 64,
    ;
}

/// The first `l` octets of the HKDF-Expand block stream.
pub open spec fn spec_hkdf_expand(prk: Seq<u8>, info: Seq<u8>, l: nat) -> Seq<u8> {
    spec_hkdf_blocks(prk, info, ((l + 63) / 64) as nat).take(l as int)
}

/// HKDF-Expand per RFC 5869: `l` octets of output key material drawn from
/// `prk` and the context string `info`.  Fails only when more than 255 hash
/// blocks would be needed.
pub fn hkdf_expand(prk: &[u8], info: &[u8], l: usize) -> (r: Result<Vec<u8>, OpaqueError>)
    requires
        prk@.len() <= 128,
    ensures
        r is Ok <==> l <= 255 * 64,
        r is Ok ==> r->Ok_0@ == spec_hkdf_expand(prk@, info@, l as nat) && r->Ok_0@.len() == l,
        r is Err ==> r->Err_0 == OpaqueError::ExpandTooLarge,
{
    proof {
        lemma_ceil_div64(l as nat);
        crate::common::lemma_pow256_small();
    }
    if l > 255 * 64 {
        return Err(OpaqueError::ExpandTooLarge);
    }
    let n: usize = (l + 63) / 64;
    let mut out: Vec<u8> = Vec::new();
    let mut t: Vec<u8> = Vec::new();
    let mut i: usize = 0;
    proof {
        assert(out@ =~= spec_hkdf_blocks(prk@, info@, 0));
        assert(t@ =~= spec_hkdf_t(prk@, info@, 0));
    }
    while i < n
        invariant
            i <= n,
            n <= 255,
            prk@.len() <= 128,
            out@ == spec_hkdf_blocks(prk@, info@, i as nat),
            out@.len() == 64 * i,
            t@ == spec_hkdf_t(prk@, info@, i as nat),
        decreases n - i,
    {
        proof {
            crate::common::lemma_pow256_small();
        }
        let idx = i2osp(i + 1, 1);
        let mut input = bytes_concat(t.as_slice(), info);
        input = bytes_concat(input.as_slice(), idx.as_slice());
        proof {
            assert(input@ =~= spec_hkdf_t(prk@, info@, i as nat) + info@ + spec_i2osp(
                (i + 1) as nat,
                1,
            ));
        }
        t = hmac_sha512(prk, input.as_slice());
        out = bytes_concat(out.as_slice(), t.as_slice());
        i += 1;
    }
    proof {
        assert(out@.len() == 64 * n && l <= 64 * n);
    }
    out.truncate(l);
    proof {
        assert(out@ =~= spec_hkdf_blocks(prk@, info@, n as nat).take(l as int));
    }
    Ok(out)
}

/// The memory-hard stretching (`Harden`) applied to the OPRF output before
/// key derivation.  The fixed suite uses the identity function; a production
/// deployment substitutes Argon2id or scrypt with parameters agreed by both
/// parties, outside this core.
pub open spec fn spec_harden(y: Seq<u8>) -> Seq<u8> {
    y
}

pub fn harden(y: &[u8]) -> (r: Vec<u8>)
    ensures
        r@ == spec_harden(y@),
{
    vstd::slice::slice_to_vec(y)
}

/// `randomized_pwd = HKDF-Extract("", Harden(oprf_output))`.
pub open spec fn spec_randomized_pwd(y: Seq<u8>) -> Seq<u8> {
    spec_hkdf_extract(Seq::empty(), spec_harden(y))
}

pub fn randomized_pwd(y: &[u8]) -> (r: Vec<u8>)
    ensures
        r@ == spec_randomized_pwd(y@),
        r@.len() == 64,
{
    let hardened = harden(y);
    let salt: Vec<u8> = Vec::new();
    hkdf_extract(salt.as_slice(), hardened.as_slice())
}

/// The domain-separation tag with its one-octet length appended:
/// `DST' = DST || I2OSP(|DST|, 1)`.
pub open spec fn spec_xmd_dst_prime(dst: Seq<u8>) -> Seq<u8> {
    dst + spec_i2osp(dst.len(), 1)
}

/// `b_0` of `expand_message_xmd`: the digest of the zero-padded message.
pub open spec fn spec_xmd_b0(msg: Seq<u8>, dst: Seq<u8>, l: nat) -> Seq<u8> {
    sha512_of(
        spec_zeros(128) + msg + spec_i2osp(l, 2) + spec_i2osp(0, 1) + spec_xmd_dst_prime(dst),
    )
}

/// `b_i` of `expand_message_xmd` for `i >= 1`.
pub open spec fn spec_xmd_b(msg: Seq<u8>, dst: Seq<u8>, l: nat, i: nat) -> Seq<u8>
    decreases i,
{
    if i <= 1 {
        sha512_of(spec_xmd_b0(msg, dst, l) + spec_i2osp(1, 1) + spec_xmd_dst_prime(dst))
    } else {
        sha512_of(
            spec_xor(spec_xmd_b0(msg, dst, l), spec_xmd_b(msg, dst, l, (i - 1) as nat))
                + spec_i2osp(i, 1) + spec_xmd_dst_prime(dst),
        )
    }
}

/// The concatenation `b_1 || ... || b_n` of `expand_message_xmd` blocks.
pub open spec fn spec_xmd_blocks(msg: Seq<u8>, dst: Seq<u8>, l: nat, n: nat) -> Seq<u8>
    decreases n,
{
    if n == 0 {
        Seq::empty()
    } else {
        spec_xmd_blocks(msg, dst, l, (n - 1) as nat) + spec_xmd_b(msg, dst, l, n)
    }
}

/// The first `l` octets of the `expand_message_xmd` block stream.
pub open spec fn spec_expand_message_xmd(msg: Seq<u8>, dst: Seq<u8>, l: nat) -> Seq<u8> {
    spec_xmd_blocks(msg, dst, l, ((l + 63) / 64) as nat).take(l as int)
}

/// `expand_message_xmd` per hash-to-curve, with SHA-512 (`b_bytes = 64`,
/// `r_bytes = 128`): `len_bytes` uniform octets derived from `msg` under the
/// domain-separation tag `dst`.  Fails only when more than 255 blocks would
/// be needed.
pub fn expand_message_xmd(msg: &[u8], dst: &[u8], len_bytes: usize) -> (r: Result<
    Vec<u8>,
    OpaqueError,
>)
    requires
        dst@.len() < 256,
        len_bytes < 65536,
    ensures
        r is Ok <==> len_bytes <= 255 * 64,
        r is Ok ==> r->Ok_0@ == spec_expand_message_xmd(msg@, dst@, len_bytes as nat)
            && r->Ok_0@.len() == len_bytes,
        r is Err ==> r->Err_0 == OpaqueError::ExpandTooLarge,
{
    proof {
        lemma_ceil_div64(len_bytes as nat);
        crate::common::lemma_pow256_small();
    }
    if len_bytes > 255 * 64 {
        return Err(OpaqueError::ExpandTooLarge);
    }
    let ell: usize = (len_bytes + 63) / 64;
    let dst_len = i2osp(dst.len(), 1);
    let dst_prime = bytes_concat(dst, dst_len.as_slice());
    let z_pad = byte_repeat(0u8, 128);
    let l_i_b = i2osp(len_bytes, 2);
    let zero_octet = i2osp(0, 1);
    let mut msg_prime = bytes_concat(z_pad.as_slice(), msg);
    msg_prime = bytes_concat(msg_prime.as_slice(), l_i_b.as_slice());
    msg_prime = bytes_concat(msg_prime.as_slice(), zero_octet.as_slice());
    msg_prime = bytes_concat(msg_prime.as_slice(), dst_prime.as_slice());
    let b0 = sha512(msg_prime.as_slice());

    let mut out: Vec<u8> = Vec::new();
    let mut prev: Vec<u8> = Vec::new();
    let mut i: usize = 0;
    proof {
        assert(out@ =~= spec_xmd_blocks(msg@, dst@, len_bytes as nat, 0));
    }
    while i < ell
        invariant
            i <= ell,
            ell <= 255,
            dst@.len() < 256,
            len_bytes < 65536,
            dst_prime@ == spec_xmd_dst_prime(dst@),
            b0@ == spec_xmd_b0(msg@, dst@, len_bytes as nat),
            b0@.len() == 64,
            out@ == spec_xmd_blocks(msg@, dst@, len_bytes as nat, i as nat),
            out@.len() == 64 * i,
            i > 0 ==> prev@ == spec_xmd_b(msg@, dst@, len_bytes as nat, i as nat)
                && prev@.len() == 64,
        decreases ell - i,
    {
        let idx = i2osp(i + 1, 1);
        let head: Vec<u8> = if i == 0 {
            vstd::slice::slice_to_vec(b0.as_slice())
        } else {
            xor_fixed(b0.as_slice(), prev.as_slice())
        };
        let mut input = bytes_concat(head.as_slice(), idx.as_slice());
        input = bytes_concat(input.as_slice(), dst_prime.as_slice());
        let b = sha512(input.as_slice());
        proof {
            if i == 0 {
                assert(head@ + spec_i2osp(1, 1) + spec_xmd_dst_prime(dst@) =~= (head@
                    + spec_i2osp(1, 1)) + spec_xmd_dst_prime(dst@));
            } else {
                assert(head@ + spec_i2osp((i + 1) as nat, 1) + spec_xmd_dst_prime(dst@) =~= (
                head@ + spec_i2osp((i + 1) as nat, 1)) + spec_xmd_dst_prime(dst@));
            }
        }
        out = bytes_concat(out.as_slice(), b.as_slice());
        prev = b;
        i += 1;
    }
    out.truncate(len_bytes);
    proof {
        assert(64 * ell >= len_bytes);
        assert(out@ =~= spec_xmd_blocks(msg@, dst@, len_bytes as nat, ell as nat).take(
            len_bytes as int,
        ));
    }
    Ok(out)
}

} // verus!
