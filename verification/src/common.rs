//! Byte-string primitives shared by every layer of the protocol:
//! `i2osp`/`os2ip` integer encoding, constant-time `xor` and equality, and
//! length-prefixed serialization.

use vstd::prelude::*;

use crate::OpaqueError;

verus! {

/// `256^len`, the number of octet strings of length `len`.
pub open spec fn pow256(len: nat) -> nat
    decreases len,
{
    if len == 0 {
        1
    } else {
        256 * pow256((len - 1) as nat)
    }
}

/// Big-endian encoding of `n` into exactly `len` octets (low octet last).
pub open spec fn spec_i2osp(n: nat, len: nat) -> Seq<u8>
    decreases len,
{
    if len == 0 {
        Seq::empty()
    } else {
        spec_i2osp(n / 256, (len - 1) as nat) + seq![(n % 256) as u8]
    }
}

/// The integer denoted by a big-endian octet string.
pub open spec fn spec_os2ip(s: Seq<u8>) -> nat
    decreases s.len(),
{
    if s.len() == 0 {
        0
    } else {
        (spec_os2ip(s.drop_last()) * 256 + s.last()) as nat
    }
}

/// Octet-wise exclusive or of two equal-length strings.
pub open spec fn spec_xor(a: Seq<u8>, b: Seq<u8>) -> Seq<u8> {
    Seq::new(a.len(), |i: int| a[i] ^ b[i])
}

/// `I2OSP(len(s), max_bytes) || s`: the length-prefixed form of `s`.
pub open spec fn spec_i2osp_serialize(s: Seq<u8>, max_bytes: nat) -> Seq<u8> {
    spec_i2osp(s.len(), max_bytes) + s
}

pub proof fn lemma_i2osp_len(n: nat, len: nat)
    ensures
        spec_i2osp(n, len).len() == len,
    decreases len,
{
    if len > 0 {
        lemma_i2osp_len(n / 256, (len - 1) as nat);
    }
}

/// Decoding inverts encoding: any integer small enough to fit in `len`
/// octets is recovered exactly by `os2ip` after `i2osp`.
pub proof fn lemma_os2ip_of_i2osp(n: nat, len: nat)
    requires
        n < pow256(len),
    ensures
        spec_os2ip(spec_i2osp(n, len)) == n,
    decreases len,
{
    if len == 0 {
    } else {
        let head = spec_i2osp(n / 256, (len - 1) as nat);
        let e = spec_i2osp(n, len);
        lemma_i2osp_len(n / 256, (len - 1) as nat);
        assert(e.drop_last() =~= head);
        assert(n / 256 < pow256((len - 1) as nat)) by (nonlinear_arith)
            requires
                n < 256 * pow256((len - 1) as nat),
        ;
        lemma_os2ip_of_i2osp(n / 256, (len - 1) as nat);
        assert(n / 256 * 256 + n % 256 == n) by (nonlinear_arith);
    }
}

pub proof fn lemma_os2ip_bound(s: Seq<u8>)
    ensures
        spec_os2ip(s) < pow256(s.len()),
    decreases s.len(),
{
    if s.len() > 0 {
        lemma_os2ip_bound(s.drop_last());
        assert(spec_os2ip(s.drop_last()) * 256 + s.last() < 256 * pow256((s.len() - 1) as nat))
            by (nonlinear_arith)
            requires
                spec_os2ip(s.drop_last()) < pow256((s.len() - 1) as nat),
                s.last() < 256,
        ;
    }
}

/// Encoding inverts decoding: every octet string is recovered exactly by
/// `i2osp` after `os2ip`, at its own length.
pub proof fn lemma_i2osp_of_os2ip(s: Seq<u8>)
    ensures
        spec_i2osp(spec_os2ip(s), s.len()) == s,
    decreases s.len(),
{
    if s.len() > 0 {
        let n = spec_os2ip(s);
        let h = spec_os2ip(s.drop_last());
        lemma_i2osp_of_os2ip(s.drop_last());
        assert(n == h * 256 + s.last());
        assert(n / 256 == h && n % 256 == s.last()) by (nonlinear_arith)
            requires
                n == h * 256 + s.last(),
                s.last() < 256,
        ;
        assert(spec_i2osp(n, s.len()) =~= s);
    }
}

/// Applying the same mask twice restores the original string.
pub proof fn lemma_xor_involutive(a: Seq<u8>, b: Seq<u8>)
    requires
        a.len() == b.len(),
    ensures
        spec_xor(spec_xor(a, b), b) == a,
{
    assert forall|i: int| 0 <= i < a.len() implies spec_xor(spec_xor(a, b), b)[i] == a[i] by {
        let x: u8 = a[i];
        let y: u8 = b[i];
        assert((x ^ y) ^ y == x) by (bit_vector);
    }
    assert(spec_xor(spec_xor(a, b), b) =~= a);
}

/// Masking with `b` twice restores the original string.  No length
/// condition is needed: `spec_xor` takes its length from its first operand,
/// and each mask octet cancels itself wherever it is read.
pub proof fn lemma_xor_unmask(a: Seq<u8>, b: Seq<u8>)
    ensures
        spec_xor(spec_xor(a, b), b) == a,
{
    assert forall|i: int| 0 <= i < a.len() implies spec_xor(spec_xor(a, b), b)[i] == a[i] by {
        let x: u8 = a[i];
        let y: u8 = b[i];
        assert((x ^ y) ^ y == x) by (bit_vector);
    }
    assert(spec_xor(spec_xor(a, b), b) =~= a);
}

/// Masking with `b` twice from the left restores the original string, when
/// the mask has the string's length.
pub proof fn lemma_xor_unmask_left(a: Seq<u8>, b: Seq<u8>)
    requires
        b.len() == a.len(),
    ensures
        spec_xor(b, spec_xor(b, a)) == a,
{
    assert forall|i: int| 0 <= i < a.len() implies spec_xor(b, spec_xor(b, a))[i] == a[i] by {
        let x: u8 = a[i];
        let y: u8 = b[i];
        assert(y ^ (y ^ x) == x) by (bit_vector);
    }
    assert(spec_xor(b, spec_xor(b, a)) =~= a);
}

/// Integer to octet-string primitive: big-endian encoding of `input` into
/// exactly `length` octets.  The caller guarantees that the value fits.
pub fn i2osp(input: usize, length: usize) -> (r: Vec<u8>)
    requires
        (input as nat) < pow256(length as nat),
    ensures
        r@ == spec_i2osp(input as nat, length as nat),
        r@.len() == length,
{
    let mut out: Vec<u8> = Vec::new();
    let mut k: usize = 0;
    while k < length
        invariant
            k <= length,
            out@.len() == k,
        decreases length - k,
    {
        out.push(0u8);
        k += 1;
    }
    let mut v: usize = input;
    let mut i: usize = length;
    proof {
        lemma_i2osp_len(input as nat, length as nat);
        assert(spec_i2osp(input as nat, length as nat) + out@.subrange(
            length as int,
            length as int,
        ) =~= spec_i2osp(input as nat, length as nat));
    }
    while i > 0
        invariant
            i <= length,
            out@.len() == length,
            (v as nat) < pow256(i as nat),
            spec_i2osp(v as nat, i as nat) + out@.subrange(i as int, length as int) == spec_i2osp(
                input as nat,
                length as nat,
            ),
        decreases i,
    {
        let b: u8 = (v % 256) as u8;
        let ghost prev = out@;
        let ghost vn = v as nat;
        out.set(i - 1, b);
        v = v / 256;
        i = i - 1;
        proof {
            assert(pow256((i + 1) as nat) == 256 * pow256(i as nat));
            assert(vn / 256 < pow256(i as nat)) by (nonlinear_arith)
                requires
                    vn < 256 * pow256(i as nat),
            ;
            assert(out@.subrange(i as int, length as int) =~= seq![b] + prev.subrange(
                i + 1,
                length as int,
            ));
            assert(spec_i2osp(vn, (i + 1) as nat) == spec_i2osp(vn / 256, i as nat) + seq![b]);
            assert(spec_i2osp(v as nat, i as nat) + out@.subrange(i as int, length as int)
                =~= spec_i2osp(vn, (i + 1) as nat) + prev.subrange(i + 1, length as int));
        }
    }
    proof {
        assert(out@.subrange(0, length as int) =~= out@);
    }
    out
}

/// Splitting an octet string at `j` splits its value: the prefix carries
/// weight `256^(len-j)`.
pub proof fn lemma_os2ip_split(s: Seq<u8>, j: int)
    requires
        0 <= j <= s.len(),
    ensures
        spec_os2ip(s) == spec_os2ip(s.subrange(0, j)) * pow256((s.len() - j) as nat) + spec_os2ip(
            s.subrange(j, s.len() as int),
        ),
    decreases s.len(),
{
    if j == s.len() {
        assert(s.subrange(0, j) =~= s);
        assert(s.subrange(j, s.len() as int) =~= Seq::<u8>::empty());
        assert(spec_os2ip(s.subrange(j, s.len() as int)) == 0);
        assert(pow256((s.len() - j) as nat) == 1);
        assert(spec_os2ip(s) == spec_os2ip(s.subrange(0, j)) * pow256((s.len() - j) as nat)
            + spec_os2ip(s.subrange(j, s.len() as int)));
    } else {
        let sdl = s.drop_last();
        lemma_os2ip_split(sdl, j);
        assert(sdl.subrange(0, j) =~= s.subrange(0, j));
        assert(sdl.subrange(j, sdl.len() as int) =~= s.subrange(j, s.len() as int).drop_last());
        let p = spec_os2ip(s.subrange(0, j));
        let q = spec_os2ip(s.subrange(j, s.len() as int).drop_last());
        let w = pow256((s.len() - j - 1) as nat);
        let b = s.last();
        assert(s.subrange(j, s.len() as int).last() == b);
        assert(spec_os2ip(s) == (p * w + q) * 256 + b);
        assert(spec_os2ip(s.subrange(j, s.len() as int)) == q * 256 + b);
        assert(pow256((s.len() - j) as nat) == 256 * w);
        assert(spec_os2ip(s) == p * (256 * w) + (q * 256 + b)) by (nonlinear_arith)
            requires
                spec_os2ip(s) == (p * w + q) * 256 + b,
        ;
        assert(p * (256 * w) == p * pow256((s.len() - j) as nat)) by (nonlinear_arith)
            requires
                256 * w == pow256((s.len() - j) as nat),
        ;
    }
}

/// The value of a prefix never exceeds the value of the whole string.
pub proof fn lemma_os2ip_prefix_le(s: Seq<u8>, j: int)
    requires
        0 <= j <= s.len(),
    ensures
        spec_os2ip(s.subrange(0, j)) <= spec_os2ip(s),
{
    lemma_os2ip_split(s, j);
    lemma_pow256_pos((s.len() - j) as nat);
    assert(spec_os2ip(s.subrange(0, j)) <= spec_os2ip(s.subrange(0, j)) * pow256(
        (s.len() - j) as nat,
    )) by (nonlinear_arith)
        requires
            pow256((s.len() - j) as nat) >= 1,
    ;
}

/// The small powers of 256 that length prefixes use.
pub proof fn lemma_pow256_small()
    ensures
        pow256(0) == 1,
        pow256(1) == 256,
        pow256(2) == 0x10000,
        pow256(4) == 0x1_0000_0000,
        pow256(8) == 0x1_0000_0000_0000_0000,
{
    assert(pow256(0) == 1);
    assert(pow256(1) == 256);
    assert(pow256(2) == 0x10000);
    assert(pow256(3) == 0x100_0000);
    assert(pow256(4) == 0x1_0000_0000);
    assert(pow256(5) == 0x100_0000_0000);
    assert(pow256(6) == 0x1_0000_0000_0000);
    assert(pow256(7) == 0x100_0000_0000_0000);
    assert(pow256(8) == 0x1_0000_0000_0000_0000);
}

pub proof fn lemma_pow256_pos(len: nat)
    ensures
        pow256(len) >= 1,
    decreases len,
{
    if len > 0 {
        lemma_pow256_pos((len - 1) as nat);
    }
}

/// Octet string to integer primitive: the big-endian value of `s`.
/// The caller guarantees that the value fits in a machine word.
pub fn os2ip(s: &[u8]) -> (r: usize)
    requires
        spec_os2ip(s@) <= usize::MAX,
    ensures
        r as nat == spec_os2ip(s@),
{
    let mut acc: usize = 0;
    let mut i: usize = 0;
    proof {
        assert(s@.subrange(0, 0) =~= Seq::<u8>::empty());
    }
    while i < s.len()
        invariant
            i <= s@.len(),
            acc as nat == spec_os2ip(s@.subrange(0, i as int)),
        decreases s@.len() - i,
    {
        proof {
            lemma_os2ip_prefix_le(s@, i + 1);
            assert(s@.subrange(0, i + 1).drop_last() =~= s@.subrange(0, i as int));
            assert(spec_os2ip(s@.subrange(0, i + 1)) == (acc as nat) * 256 + s@[i as int]);
        }
        acc = acc * 256 + (s[i] as usize);
        i += 1;
    }
    proof {
        assert(s@.subrange(0, s@.len() as int) =~= s@);
    }
    acc
}

/// Octet-wise exclusive or.  The two strings must have the same length;
/// a mismatch is a usage error.
pub fn xor(x: &[u8], y: &[u8]) -> (r: Result<Vec<u8>, OpaqueError>)
    ensures
        x@.len() == y@.len() <==> r is Ok,
        r is Ok ==> r->Ok_0@ == spec_xor(x@, y@),
        r is Err ==> r->Err_0 == OpaqueError::UsageError,
{
    if x.len() != y.len() {
        return Err(OpaqueError::UsageError);
    }
    Ok(xor_fixed(x, y))
}

/// Octet-wise exclusive or of two strings already known to have equal length.
pub fn xor_fixed(x: &[u8], y: &[u8]) -> (r: Vec<u8>)
    requires
        x@.len() == y@.len(),
    ensures
        r@ == spec_xor(x@, y@),
        r@.len() == x@.len(),
{
    let mut out: Vec<u8> = Vec::new();
    let mut i: usize = 0;
    proof {
        assert(out@ =~= spec_xor(x@, y@).subrange(0, 0));
    }
    while i < x.len()
        invariant
            i <= x@.len(),
            x@.len() == y@.len(),
            out@ == spec_xor(x@, y@).subrange(0, i as int),
        decreases x@.len() - i,
    {
        out.push(x[i] ^ y[i]);
        i += 1;
        proof {
            assert(spec_xor(x@, y@).subrange(0, i as int) =~= spec_xor(x@, y@).subrange(
                0,
                i - 1,
            ).push(spec_xor(x@, y@)[i - 1]));
        }
    }
    proof {
        assert(spec_xor(x@, y@).subrange(0, x@.len() as int) =~= spec_xor(x@, y@));
    }
    out
}

/// `n` copies of the octet `b`.
pub open spec fn spec_repeat(b: u8, n: nat) -> Seq<u8> {
    Seq::new(n, |i: int| b)
}

/// `n` zero octets.
pub open spec fn spec_zeros(n: nat) -> Seq<u8> {
    spec_repeat(0u8, n)
}

/// A fresh vector of `n` copies of the octet `b`.
pub fn byte_repeat(b: u8, n: usize) -> (r: Vec<u8>)
    ensures
        r@ == spec_repeat(b, n as nat),
        r@.len() == n,
{
    let mut out: Vec<u8> = Vec::new();
    let mut i: usize = 0;
    proof {
        assert(out@ =~= spec_repeat(b, 0));
    }
    while i < n
        invariant
            i <= n,
            out@ == spec_repeat(b, i as nat),
        decreases n - i,
    {
        out.push(b);
        i += 1;
        proof {
            assert(spec_repeat(b, i as nat) =~= spec_repeat(b, (i - 1) as nat).push(b));
        }
    }
    out
}

/// Constant-time equality over equal-length strings: no early exit on the
/// first differing octet.  Strings of different lengths compare unequal.
pub fn ct_equal(x: &[u8], y: &[u8]) -> (r: bool)
    ensures
        r <==> x@ == y@,
{
    if x.len() != y.len() {
        proof {
            assert(x@ != y@);
        }
        return false;
    }
    let mut diff: u8 = 0;
    let mut i: usize = 0;
    proof {
        assert(x@.subrange(0, 0) =~= y@.subrange(0, 0));
    }
    while i < x.len()
        invariant
            i <= x@.len(),
            x@.len() == y@.len(),
            (diff == 0) <==> (x@.subrange(0, i as int) == y@.subrange(0, i as int)),
        decreases x@.len() - i,
    {
        let a: u8 = x[i];
        let b: u8 = y[i];
        proof {
            assert((diff | (a ^ b)) == 0 <==> (diff == 0 && a == b)) by (bit_vector);
            if diff == 0 && a == b {
                assert(x@.subrange(0, i + 1) =~= x@.subrange(0, i as int).push(a));
                assert(y@.subrange(0, i + 1) =~= y@.subrange(0, i as int).push(b));
            }
            if x@.subrange(0, i + 1) == y@.subrange(0, i + 1) {
                assert(x@.subrange(0, i as int) =~= x@.subrange(0, i + 1).subrange(0, i as int));
                assert(y@.subrange(0, i as int) =~= y@.subrange(0, i + 1).subrange(0, i as int));
                assert(a == x@.subrange(0, i + 1)[i as int]);
                assert(b == y@.subrange(0, i + 1)[i as int]);
            }
        }
        diff = diff | (a ^ b);
        i += 1;
    }
    proof {
        assert(x@.subrange(0, x@.len() as int) =~= x@);
        assert(y@.subrange(0, y@.len() as int) =~= y@);
    }
    diff == 0
}

/// The concatenation `a || b` as a fresh vector.
pub fn bytes_concat(a: &[u8], b: &[u8]) -> (r: Vec<u8>)
    ensures
        r@ == a@ + b@,
{
    let mut out: Vec<u8> = vstd::slice::slice_to_vec(a);
    let mut i: usize = 0;
    proof {
        assert(a@ + b@.subrange(0, 0) =~= a@);
    }
    while i < b.len()
        invariant
            i <= b@.len(),
            out@ == a@ + b@.subrange(0, i as int),
        decreases b@.len() - i,
    {
        out.push(b[i]);
        i += 1;
        proof {
            assert(a@ + b@.subrange(0, i as int) =~= (a@ + b@.subrange(0, i - 1)).push(
                b@[i - 1],
            ));
        }
    }
    proof {
        assert(b@.subrange(0, b@.len() as int) =~= b@);
    }
    out
}

/// `I2OSP(len(input), max_bytes) || input`.
pub fn i2osp_serialize(input: &[u8], max_bytes: usize) -> (r: Vec<u8>)
    requires
        (input@.len() as nat) < pow256(max_bytes as nat),
    ensures
        r@ == spec_i2osp_serialize(input@, max_bytes as nat),
{
    let prefix = i2osp(input.len(), max_bytes);
    bytes_concat(prefix.as_slice(), input)
}

} // verus!
