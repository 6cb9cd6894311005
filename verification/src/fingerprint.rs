//! The fingerprint encoder: a deterministic, URL-safe token derived from a
//! message string.
//!
//! The token is the URL-safe, unpadded base64 rendering of the 8-byte
//! big-endian serialization of a 64-bit hash of the message's UTF-8 bytes.
//! The hash is 64-bit FNV-1a, chosen as the fixed algorithm because it is
//! simple, stable across processes and machines, and free of per-process
//! seeding; every producer of these tokens must use the same algorithm so
//! that identical messages correlate across independent runs.

use vstd::prelude::*;

verus! {

/// The FNV-1a offset basis for 64-bit hashes.
pub const FNV_OFFSET_BASIS: u64 = 0xcbf2_9ce4_8422_2325;

/// The FNV-1a prime for 64-bit hashes.
pub const FNV_PRIME: u64 = 0x0000_0100_0000_01b3;

/// One step of the 64-bit FNV-1a hash: fold one byte into the state.
pub open spec fn fnv1a_step(state: u64, byte: u8) -> u64 {
    (state ^ (byte as u64)).wrapping_mul(FNV_PRIME)
}

/// The 64-bit FNV-1a hash of the first `n` bytes of `bytes`.
pub open spec fn fnv1a_prefix(bytes: Seq<u8>, n: int) -> u64
    decreases n,
{
    if n <= 0 {
        FNV_OFFSET_BASIS
    } else {
        fnv1a_step(fnv1a_prefix(bytes, n - 1), bytes[n - 1])
    }
}

/// The 64-bit FNV-1a hash of a byte sequence.
pub open spec fn fnv1a(bytes: Seq<u8>) -> u64 {
    fnv1a_prefix(bytes, bytes.len() as int)
}

/// Computes the 64-bit FNV-1a hash of a byte slice.
pub fn fnv1a_hash(bytes: &[u8]) -> (h: u64)
    ensures
        h == fnv1a(bytes@),
{
    let mut state: u64 = FNV_OFFSET_BASIS;
    let mut i: usize = 0;
    while i < bytes.len()
        invariant
            i <= bytes@.len(),
            state == fnv1a_prefix(bytes@, i as int),
        decreases bytes@.len() - i,
    {
        state = (state ^ (bytes[i] as u64)).wrapping_mul(FNV_PRIME);
        i = i + 1;
    }
    state
}

/// Byte `i` (0 = most significant) of the big-endian serialization of `x`.
pub open spec fn be_byte(x: u64, i: int) -> u8 {
    (x >> ((56 - 8 * i) as u64)) as u8
}

/// The 8-byte big-endian serialization of a 64-bit value.
pub open spec fn be_bytes_of(x: u64) -> Seq<u8> {
    Seq::new(8, |i: int| be_byte(x, i))
}

/// Serializes a 64-bit value as 8 bytes, most significant first.
pub fn u64_to_be_bytes(x: u64) -> (v: Vec<u8>)
    ensures
        v@ == be_bytes_of(x),
{
    let mut v: Vec<u8> = Vec::new();
    v.push((x >> 56u64) as u8);
    v.push((x >> 48u64) as u8);
    v.push((x >> 40u64) as u8);
    v.push((x >> 32u64) as u8);
    v.push((x >> 24u64) as u8);
    v.push((x >> 16u64) as u8);
    v.push((x >> 8u64) as u8);
    v.push(x as u8);
    proof {
        assert(((x >> 0u64) as u8) == x as u8) by (bit_vector);
        assert(v@ =~= be_bytes_of(x));
    }
    v
}

/// The 64 characters of the URL-safe base64 alphabet, in order of value.
pub open spec fn b64_alphabet() -> Seq<char> {
    "ABCDEFGHIJKLMNOPQRSTUVWXYZabcdefghijklmnopqrstuvwxyz0123456789-_"@
}

/// Whether `c` belongs to the URL-safe base64 alphabet.
pub open spec fn is_base64url_char(c: char) -> bool {
    b64_alphabet().contains(c)
}

/// The length of the unpadded base64 rendering of `n` bytes.
pub open spec fn b64_len(n: int) -> int {
    (4 * n + 2) / 3
}

/// Bit `k` of the byte sequence read as a bit stream, most significant bit
/// of each byte first; bits past the end of the stream are zero.
pub open spec fn stream_bit(bytes: Seq<u8>, k: int) -> int {
    if 0 <= k < 8 * bytes.len() {
        ((bytes[k / 8] >> ((7 - (k % 8)) as u8)) & 1) as int
    } else {
        0
    }
}

/// The value of the `j`-th 6-bit group of the bit stream.
pub open spec fn b64_group(bytes: Seq<u8>, j: int) -> int {
    32 * stream_bit(bytes, 6 * j) + 16 * stream_bit(bytes, 6 * j + 1) + 8 * stream_bit(
        bytes,
        6 * j + 2,
    ) + 4 * stream_bit(bytes, 6 * j + 3) + 2 * stream_bit(bytes, 6 * j + 4) + stream_bit(
        bytes,
        6 * j + 5,
    )
}

/// The URL-safe, unpadded base64 rendering of a byte sequence: each output
/// character encodes one 6-bit group of the input bit stream.
pub open spec fn base64url_nopad(bytes: Seq<u8>) -> Seq<char> {
    Seq::new(b64_len(bytes.len() as int) as nat, |j: int| b64_alphabet()[b64_group(bytes, j)])
}

/// Relies on base64's `Engine::encode` with the `URL_SAFE_NO_PAD` engine:
/// the RFC 4648 base64url rendering of the input bytes, without padding.
#[verifier::external_body]
fn encode_base64url_nopad(bytes: &[u8]) -> (token: String)
    ensures
        token@ == base64url_nopad(bytes@),
{
    base64::Engine::encode(&base64::engine::general_purpose::URL_SAFE_NO_PAD, bytes)
}

/// The fingerprint token of a message: URL-safe, unpadded base64 of the
/// big-endian bytes of the 64-bit FNV-1a hash of the message's UTF-8 bytes.
pub open spec fn fingerprint_of(msg: Seq<char>) -> Seq<char> {
    base64url_nopad(be_bytes_of(fnv1a(vstd::utf8::encode_utf8(msg))))
}

/// Computes the fingerprint token of a message.
pub fn fingerprint(msg: &str) -> (token: String)
    ensures
        token@ == fingerprint_of(msg@),
        token@.len() == 11,
{
    let bytes = msg.as_bytes();
    let h = fnv1a_hash(bytes);
    let be = u64_to_be_bytes(h);
    encode_base64url_nopad(be.as_slice())
}

/// Each bit of the stream is 0 or 1.
proof fn lemma_stream_bit_01(bytes: Seq<u8>, k: int)
    ensures
        0 <= stream_bit(bytes, k) <= 1,
{
    if 0 <= k < 8 * bytes.len() {
        let b = bytes[k / 8];
        let s = (7 - (k % 8)) as u8;
        assert(((b >> s) & 1) <= 1) by (bit_vector);
    }
}

/// Each 6-bit group is a valid index into the base64 alphabet.
proof fn lemma_b64_group_in_range(bytes: Seq<u8>, j: int)
    ensures
        0 <= b64_group(bytes, j) < 64,
{
    lemma_stream_bit_01(bytes, 6 * j);
    lemma_stream_bit_01(bytes, 6 * j + 1);
    lemma_stream_bit_01(bytes, 6 * j + 2);
    lemma_stream_bit_01(bytes, 6 * j + 3);
    lemma_stream_bit_01(bytes, 6 * j + 4);
    lemma_stream_bit_01(bytes, 6 * j + 5);
}

/// Law: the fingerprint token is always 11 characters long and is drawn
/// entirely from the URL-safe base64 alphabet, with no `=` padding
/// character.
pub proof fn lemma_fingerprint_shape(msg: Seq<char>)
    ensures
        fingerprint_of(msg).len() == 11,
        forall|j: int|
            0 <= j < fingerprint_of(msg).len() ==> is_base64url_char(
                #[trigger] fingerprint_of(msg)[j],
            ),
        forall|j: int| 0 <= j < fingerprint_of(msg).len() ==> #[trigger] fingerprint_of(msg)[j]
            != '=',
{
    let bytes = be_bytes_of(fnv1a(vstd::utf8::encode_utf8(msg)));
    assert forall|j: int| 0 <= j < fingerprint_of(msg).len() implies is_base64url_char(
        fingerprint_of(msg)[j],
    ) && fingerprint_of(msg)[j] != '=' by {
        lemma_b64_group_in_range(bytes, j);
        reveal_strlit("ABCDEFGHIJKLMNOPQRSTUVWXYZabcdefghijklmnopqrstuvwxyz0123456789-_");
        let g = b64_group(bytes, j);
        assert(b64_alphabet()[g] == fingerprint_of(msg)[j]);
        assert(b64_alphabet()[g] != '=');
    }
}

/// Law: the fingerprint is deterministic, a pure function of the message
/// alone; two renderings of the same message, in any two processes, carry
/// the same token.
pub proof fn lemma_fingerprint_deterministic(msg1: Seq<char>, msg2: Seq<char>)
    requires
        msg1 == msg2,
    ensures
        fingerprint_of(msg1) == fingerprint_of(msg2),
{
}

} // verus!
