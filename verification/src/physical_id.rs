//! Derivation of the default physical resource id: a SHA-256 digest of the
//! stack id and the logical resource id, rendered as lowercase hexadecimal.
//! The id must be non-empty and stable across every request that names the
//! same logical resource.
use crate::json::hex_digit_char;
use vstd::prelude::*;
use vstd::string::StrSliceExecFns;
use vstd::utf8::encode_utf8;

verus! {

/// The SHA-256 digest of a byte sequence. What `sha256_digest` returns.
pub uninterp spec fn sha256_of(bytes: Seq<u8>) -> Seq<u8>;

/// Relies on `ring::digest::digest` with `ring::digest::SHA256`: the digest is
/// 32 bytes long and depends on the input bytes alone. `digest` panics when
/// the input is longer than SHA-256 admits (2^64 - 1 bits), so inputs of
/// 2^61 bytes and over are excluded.
#[verifier::external_body]
fn sha256_digest(input: &Vec<u8>) -> (r: Vec<u8>)
    requires
        input@.len() < 0x2000000000000000,
    ensures
        r@ == sha256_of(input@),
        r@.len() == 32,
{
    ring::digest::digest(&ring::digest::SHA256, input.as_slice()).as_ref().to_vec()
}

/// The lowercase hexadecimal rendering of a byte sequence: two digits for
/// each byte, high digit first.
pub open spec fn hex_of(bytes: Seq<u8>) -> Seq<char>
    decreases bytes.len(),
{
    if bytes.len() == 0 {
        Seq::empty()
    } else {
        seq![
            hex_digit_char((bytes[0] / 16) as nat),
            hex_digit_char((bytes[0] % 16) as nat),
        ] + hex_of(bytes.drop_first())
    }
}

/// A hexadecimal rendering is exactly twice as long as its bytes.
pub proof fn lemma_hex_of_len(bytes: Seq<u8>)
    ensures
        hex_of(bytes).len() == 2 * bytes.len(),
    decreases bytes.len(),
{
    if bytes.len() > 0 {
        lemma_hex_of_len(bytes.drop_first());
    }
}

proof fn lemma_hex_of_push(bytes: Seq<u8>, b: u8)
    ensures
        hex_of(bytes.push(b)) == hex_of(bytes) + seq![
            hex_digit_char((b / 16) as nat),
            hex_digit_char((b % 16) as nat),
        ],
    decreases bytes.len(),
{
    if bytes.len() == 0 {
        assert(bytes.push(b).drop_first() =~= bytes);
        assert(hex_of(bytes.push(b)) =~= hex_of(bytes) + seq![
            hex_digit_char((b / 16) as nat),
            hex_digit_char((b % 16) as nat),
        ]);
    } else {
        lemma_hex_of_push(bytes.drop_first(), b);
        assert(bytes.push(b).drop_first() =~= bytes.drop_first().push(b));
        assert(hex_of(bytes.push(b)) =~= hex_of(bytes) + seq![
            hex_digit_char((b / 16) as nat),
            hex_digit_char((b % 16) as nat),
        ]);
    }
}

/// Appends the lowercase hexadecimal rendering of `bytes` to `out`.
fn push_hex(bytes: &Vec<u8>, out: &mut Vec<char>)
    ensures
        final(out)@ == old(out)@ + hex_of(bytes@),
{
    let n = bytes.len();
    let mut i: usize = 0;
    while i < n
        invariant
            i <= n,
            n == bytes@.len(),
            out@ == old(out)@ + hex_of(bytes@.take(i as int)),
        decreases n - i,
    {
        let b = bytes[i];
        out.push(crate::json::hex_digit_to_char(b / 16));
        out.push(crate::json::hex_digit_to_char(b % 16));
        proof {
            assert(bytes@.take(i as int).push(b) =~= bytes@.take(i + 1 as int));
            lemma_hex_of_push(bytes@.take(i as int), b);
            assert(out@ =~= old(out)@ + hex_of(bytes@.take(i + 1 as int)));
        }
        i = i + 1;
    }
    assert(bytes@.take(n as int) =~= bytes@);
}

/// A character encodes to at most four bytes.
proof fn lemma_encode_utf8_len(s: Seq<char>)
    ensures
        encode_utf8(s).len() <= 4 * s.len(),
    decreases s.len(),
{
    if s.len() > 0 {
        lemma_encode_utf8_len(s.drop_first());
    }
}

/// Whether the two ids together fit SHA-256's input length bound; every pair
/// of ids that occurs in practice does.
pub open spec fn digestible(stack_id: Seq<char>, logical_resource_id: Seq<char>) -> bool {
    stack_id.len() + logical_resource_id.len() < 0x800000000000000
}

/// The derived physical resource id: the lowercase hexadecimal SHA-256
/// digest of the stack id's bytes followed by the logical resource id's bytes.
pub open spec fn derived_id(stack_id: Seq<char>, logical_resource_id: Seq<char>) -> Seq<char> {
    hex_of(sha256_of(encode_utf8(stack_id) + encode_utf8(logical_resource_id)))
}

/// Derives the default physical resource id for a resource. Deterministic in
/// its two arguments and collision-resistant across distinct pairs; 64
/// characters long, so never empty.
pub fn build_physical_resource_id(stack_id: String, logical_resource_id: String) -> (r: String)
    requires
        digestible(stack_id@, logical_resource_id@),
    ensures
        r@ == derived_id(stack_id@, logical_resource_id@),
        r@.len() == 64,
{
    let mut buf: Vec<u8> = stack_id.as_str().as_bytes_vec();
    let mut rest: Vec<u8> = logical_resource_id.as_str().as_bytes_vec();
    buf.append(&mut rest);
    proof {
        lemma_encode_utf8_len(stack_id@);
        lemma_encode_utf8_len(logical_resource_id@);
    }
    let digest = sha256_digest(&buf);
    let mut out: Vec<char> = Vec::new();
    push_hex(&digest, &mut out);
    proof {
        lemma_hex_of_len(digest@);
    }
    crate::json::chars_to_string(&out)
}

/// Deriving a physical resource id is deterministic: equal stack ids and
/// equal logical resource ids always give the same derived id, however often
/// and wherever the derivation is repeated.
pub proof fn lemma_derived_id_deterministic(
    stack_a: Seq<char>,
    logical_a: Seq<char>,
    stack_b: Seq<char>,
    logical_b: Seq<char>,
)
    requires
        stack_a == stack_b,
        logical_a == logical_b,
    ensures
        derived_id(stack_a, logical_a) == derived_id(stack_b, logical_b),
{
}

} // verus!
