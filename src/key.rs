//! Cache-key derivation: a SHA-256 digest over the source path, its
//! modification time and the requested size, written as lowercase hex.
use sha2::{Digest, Sha256};
use vstd::prelude::*;
use vstd::utf8::encode_utf8;

verus! {

/// What SHA-256 yields for the given message.
pub uninterp spec fn sha256_of(message: Seq<u8>) -> Seq<u8>;

/// Relies on sha2's `Sha256::digest`: the 32-byte SHA-256 digest of `data`,
/// a function of the bytes alone.
#[verifier::external_body]
fn sha256(data: &[u8]) -> (r: Vec<u8>)
    ensures
        r@ == sha256_of(data@),
        r@.len() == 32,
{
    Sha256::digest(data).to_vec()
}

/// `k` bytes of `n`, least significant first.
pub open spec fn le_bytes(n: nat, k: nat) -> Seq<u8>
    decreases k,
{
    if k == 0 {
        seq![]
    } else {
        seq![(n % 256) as u8] + le_bytes(n / 256, (k - 1) as nat)
    }
}

/// The number that a little-endian byte sequence denotes.
pub open spec fn le_value(s: Seq<u8>) -> nat
    decreases s.len(),
{
    if s.len() == 0 {
        0
    } else {
        s[0] as nat + 256 * le_value(s.drop_first())
    }
}

/// 256 to the power `k`.
pub open spec fn byte_bound(k: nat) -> nat
    decreases k,
{
    if k == 0 {
        1
    } else {
        256 * byte_bound((k - 1) as nat)
    }
}

/// The digest input: the path's UTF-8 bytes, then the modification time in
/// 16 little-endian bytes, then the size in 4 little-endian bytes.
pub open spec fn key_material(path: Seq<char>, modified_millis: u128, max_dimension: u32) -> Seq<u8> {
    encode_utf8(path) + le_bytes(modified_millis as nat, 16) + le_bytes(max_dimension as nat, 4)
}

/// The lowercase hexadecimal digit for `d < 16`.
pub open spec fn hex_digit(d: nat) -> char {
    if d < 10 {
        ((d + 48) as u8) as char
    } else {
        ((d + 87) as u8) as char
    }
}

/// Two lowercase hex digits per byte, most significant digit first.
pub open spec fn hex_of(bytes: Seq<u8>) -> Seq<char>
    decreases bytes.len(),
{
    if bytes.len() == 0 {
        seq![]
    } else {
        hex_of(bytes.drop_last()) + seq![
            hex_digit(bytes.last() as nat / 16),
            hex_digit(bytes.last() as nat % 16),
        ]
    }
}

/// The cache key of a source at `path`, last modified at `modified_millis`,
/// rendered within `max_dimension` pixels.
pub open spec fn cache_key(path: Seq<char>, modified_millis: u128, max_dimension: u32) -> Seq<char> {
    hex_of(sha256_of(key_material(path, modified_millis, max_dimension)))
}

proof fn lemma_le_value_of_bytes(n: nat, k: nat)
    requires
        n < byte_bound(k),
    ensures
        le_value(le_bytes(n, k)) == n,
        le_bytes(n, k).len() == k,
    decreases k,
{
    if k > 0 {
        let b = byte_bound((k - 1) as nat);
        assert(n / 256 < b) by (nonlinear_arith)
            requires
                n < 256 * b,
        ;
        lemma_le_value_of_bytes(n / 256, (k - 1) as nat);
        let s = le_bytes(n, k);
        assert(s.drop_first() =~= le_bytes(n / 256, (k - 1) as nat));
        assert(n == n % 256 + 256 * (n / 256)) by (nonlinear_arith);
    }
}

proof fn lemma_byte_bounds()
    ensures
        byte_bound(4) == 0x1_0000_0000,
        byte_bound(16) == 0x1_0000_0000_0000_0000_0000_0000_0000_0000,
{
    reveal_with_fuel(byte_bound, 17);
}

/// Appends the `k` low-order bytes of `n` to `out`, least significant first.
fn push_le_bytes(out: &mut Vec<u8>, n: u128, k: usize)
    requires
        k <= 16,
    ensures
        final(out)@ == old(out)@ + le_bytes(n as nat, k as nat),
{
    let mut x: u128 = n;
    let mut i: usize = 0;
    while i < k
        invariant
            i <= k,
            out@ + le_bytes(x as nat, (k - i) as nat) == old(out)@ + le_bytes(n as nat, k as nat),
        decreases k - i,
    {
        let ghost before = out@;
        out.push((x % 256) as u8);
        assert(le_bytes(x as nat, (k - i) as nat) == seq![(x % 256) as u8] + le_bytes(
            (x / 256) as nat,
            (k - i - 1) as nat,
        ));
        assert(out@ + le_bytes((x / 256) as nat, (k - i - 1) as nat) =~= before + le_bytes(
            x as nat,
            (k - i) as nat,
        ));
        x = x / 256;
        i = i + 1;
    }
    assert(le_bytes(x as nat, 0) =~= seq![]);
    assert(out@ =~= out@ + le_bytes(x as nat, 0));
}

/// The bytes that the digest is taken over.
pub fn key_material_bytes(path: &str, modified_millis: u128, max_dimension: u32) -> (r: Vec<u8>)
    ensures
        r@ == key_material(path@, modified_millis, max_dimension),
{
    let mut out = path.as_bytes_vec();
    push_le_bytes(&mut out, modified_millis, 16);
    push_le_bytes(&mut out, max_dimension as u128, 4);
    out
}


/// The lowercase hex digit for `d`, as a one-character string.
fn hex_digit_str(d: u8) -> (r: &'static str)
    requires
        d < 16,
    ensures
        r@ == seq![hex_digit(d as nat)],
{
    proof {
        reveal_strlit("0123456789abcdef");
    }
    let digits: &'static str = "0123456789abcdef";
    let r = digits.substring_char(d as usize, d as usize + 1);
    assert(r@ =~= seq![digits@[d as int]]);
    r
}

/// Writes `bytes` as lowercase hex, two digits per byte.
pub fn to_hex(bytes: &[u8]) -> (r: String)
    ensures
        r@ == hex_of(bytes@),
{
    let mut out = String::new();
    let mut i: usize = 0;
    while i < bytes.len()
        invariant
            i <= bytes@.len(),
            out@ == hex_of(bytes@.subrange(0, i as int)),
        decreases bytes@.len() - i,
    {
        let b = bytes[i];
        out.append(hex_digit_str(b / 16));
        out.append(hex_digit_str(b % 16));
        let ghost next = bytes@.subrange(0, i + 1);
        assert(next.drop_last() =~= bytes@.subrange(0, i as int));
        i = i + 1;
    }
    assert(bytes@.subrange(0, i as int) =~= bytes@);
    out
}

/// Derives the cache key for a source at `path`, last modified at
/// `modified_millis` (milliseconds since the epoch), rendered within
/// `max_dimension` pixels: 64 lowercase hex digits.
pub fn derive(path: &str, modified_millis: u128, max_dimension: u32) -> (r: String)
    ensures
        r@ == cache_key(path@, modified_millis, max_dimension),
        r@.len() == 64,
{
    let material = key_material_bytes(path, modified_millis, max_dimension);
    let digest = sha256(material.as_slice());
    proof {
        lemma_hex_len(digest@);
    }
    to_hex(digest.as_slice())
}

proof fn lemma_hex_len(bytes: Seq<u8>)
    ensures
        hex_of(bytes).len() == 2 * bytes.len(),
    decreases bytes.len(),
{
    if bytes.len() > 0 {
        lemma_hex_len(bytes.drop_last());
    }
}

/// A key depends on nothing but its three inputs: equal inputs give equal
/// keys, in any process.
pub proof fn lemma_key_deterministic(
    path1: Seq<char>,
    modified1: u128,
    size1: u32,
    path2: Seq<char>,
    modified2: u128,
    size2: u32,
)
    requires
        path1 == path2,
        modified1 == modified2,
        size1 == size2,
    ensures
        cache_key(path1, modified1, size1) == cache_key(path2, modified2, size2),
{
}

/// Distinct (path, modification time, size) triples are fed to the digest as
/// distinct messages, so two keys can agree only by a SHA-256 collision.
pub proof fn lemma_key_material_injective(
    path1: Seq<char>,
    modified1: u128,
    size1: u32,
    path2: Seq<char>,
    modified2: u128,
    size2: u32,
)
    requires
        path1 != path2 || modified1 != modified2 || size1 != size2,
    ensures
        key_material(path1, modified1, size1) != key_material(path2, modified2, size2),
{
    if key_material(path1, modified1, size1) == key_material(path2, modified2, size2) {
        lemma_byte_bounds();
        lemma_le_value_of_bytes(modified1 as nat, 16);
        lemma_le_value_of_bytes(modified2 as nat, 16);
        lemma_le_value_of_bytes(size1 as nat, 4);
        lemma_le_value_of_bytes(size2 as nat, 4);
        let m1 = key_material(path1, modified1, size1);
        let e1 = encode_utf8(path1);
        let e2 = encode_utf8(path2);
        let n = m1.len() as int;
        assert(e1.len() == e2.len());
        assert(e1 =~= m1.subrange(0, e1.len() as int));
        assert(e2 =~= m1.subrange(0, e1.len() as int));
        assert(le_bytes(modified1 as nat, 16) =~= m1.subrange(n - 20, n - 4));
        assert(le_bytes(modified2 as nat, 16) =~= m1.subrange(n - 20, n - 4));
        assert(le_bytes(size1 as nat, 4) =~= m1.subrange(n - 4, n));
        assert(le_bytes(size2 as nat, 4) =~= m1.subrange(n - 4, n));
        vstd::utf8::encode_utf8_decode_utf8(path1);
        vstd::utf8::encode_utf8_decode_utf8(path2);
    }
}

} // verus!
