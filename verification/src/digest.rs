use vstd::prelude::*;

verus! {

/// The lowercase hexadecimal digit for a value in `0..16`.
pub open spec fn hex_digit(nibble: int) -> char {
    if nibble < 10 {
        (nibble + 48) as char
    } else {
        (nibble + 87) as char
    }
}

/// Lowercase hexadecimal text of a byte sequence: two digits per byte, the
/// high nibble first.
pub open spec fn hex_lower(data: Seq<u8>) -> Seq<char> {
    Seq::new(
        2 * data.len(),
        |i: int|
            if i % 2 == 0 {
                hex_digit(data[i / 2] as int / 16)
            } else {
                hex_digit(data[i / 2] as int % 16)
            },
    )
}

proof fn lemma_hex_digit_injective(a: int, b: int)
    requires
        0 <= a < 16,
        0 <= b < 16,
        hex_digit(a) == hex_digit(b),
    ensures
        a == b,
{
}


/// The value of a lowercase hexadecimal digit.
pub open spec fn hex_digit_value(c: char) -> int {
    if '0' <= c && c <= '9' {
        c as int - '0' as int
    } else {
        c as int - 'a' as int + 10
    }
}

/// The hexadecimal text of bytes reads back as those bytes: at `2k` and
/// `2k + 1` stand the high and low digit of byte `k`, each `0`-`9` or `a`-`f`.
pub proof fn lemma_hex_lower_decodes(data: Seq<u8>, k: int)
    requires
        0 <= k < data.len(),
    ensures
        hex_lower(data).len() == 2 * data.len(),
        16 * hex_digit_value(hex_lower(data)[2 * k]) + hex_digit_value(hex_lower(data)[2 * k + 1])
            == data[k] as int,
        ('0' <= hex_lower(data)[2 * k] <= '9') || ('a' <= hex_lower(data)[2 * k] <= 'f'),
        ('0' <= hex_lower(data)[2 * k + 1] <= '9') || ('a' <= hex_lower(data)[2 * k + 1] <= 'f'),
{
    assert((2 * k) % 2 == 0 && (2 * k) / 2 == k);
    assert((2 * k + 1) % 2 == 1 && (2 * k + 1) / 2 == k);
    assert(hex_lower(data)[2 * k] == hex_digit(data[k] as int / 16));
    assert(hex_lower(data)[2 * k + 1] == hex_digit(data[k] as int % 16));
}

/// Two byte sequences of the same length with the same hexadecimal text are
/// equal.
pub proof fn lemma_hex_lower_injective(a: Seq<u8>, b: Seq<u8>)
    requires
        hex_lower(a) == hex_lower(b),
    ensures
        a == b,
{
    assert(hex_lower(a).len() == 2 * a.len());
    assert(hex_lower(b).len() == 2 * b.len());
    assert(a.len() == b.len());
    assert forall|k: int| 0 <= k < a.len() implies a[k] == b[k] by {
        let hi_a = hex_lower(a)[2 * k];
        let hi_b = hex_lower(b)[2 * k];
        let lo_a = hex_lower(a)[2 * k + 1];
        let lo_b = hex_lower(b)[2 * k + 1];
        assert((2 * k) % 2 == 0 && (2 * k) / 2 == k);
        assert((2 * k + 1) % 2 == 1 && (2 * k + 1) / 2 == k);
        assert(0 <= 2 * k < 2 * a.len());
        assert(hi_a == hex_digit(a[k] as int / 16));
        assert(hi_b == hex_digit(b[k] as int / 16));
        assert(lo_a == hex_digit(a[k] as int % 16));
        assert(lo_b == hex_digit(b[k] as int % 16));
        lemma_hex_digit_injective(a[k] as int / 16, b[k] as int / 16);
        lemma_hex_digit_injective(a[k] as int % 16, b[k] as int % 16);
    }
    assert(a =~= b);
}

/// What `blake3::hash` returns for an input: its 32-byte BLAKE3 digest.
pub uninterp spec fn blake3_digest(input: Seq<u8>) -> Seq<u8>;

/// Calls `blake3::hash`, the one-shot BLAKE3 hash, and returns its 32 bytes.
/// Trusted: the result is the named digest of the input bytes; nothing else
/// about BLAKE3 is stated.
#[verifier::external_body]
fn blake3_hash(input: &[u8]) -> (digest: [u8; 32])
    ensures
        digest@ == blake3_digest(input@),
{
    blake3::hash(input).into()
}

/// Calls `hex::encode`, which writes each byte as two lowercase hexadecimal
/// digits, the high nibble first. Trusted: the result is `hex_lower` of the
/// bytes, as the crate's documentation and source state.
#[verifier::external_body]
fn hex_encode(data: &[u8; 32]) -> (text: String)
    ensures
        text@ == hex_lower(data@),
{
    hex::encode(data)
}

/// The BLAKE3 digest of a file's contents, as the cache records it.
pub fn hash_file_contents(contents: &[u8]) -> (digest: [u8; 32])
    ensures
        digest@ == blake3_digest(contents@),
{
    blake3_hash(contents)
}

/// The lowercase hexadecimal text of a digest (64 characters).
pub fn hash_hex(digest: &[u8; 32]) -> (text: String)
    ensures
        text@ == hex_lower(digest@),
        text@.len() == 64,
{
    hex_encode(digest)
}

} // verus!
