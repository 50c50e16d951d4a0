//! Digest computation and checksum-payload handling for the verification
//! gate of the download pipeline.
//!
//! The SHA-512 digest itself is computed by the `sha2` crate; everything
//! around it (hex encoding, parsing the published checksum payload, the
//! comparison) is verified code.

use vstd::prelude::*;
use sha2::Digest;

verus! {

/// The SHA-512 digest (64 bytes) of a byte sequence, as computed by
/// `sha2::Sha512`. The digest is a function of the input bytes alone.
pub uninterp spec fn sha512_of(data: Seq<u8>) -> Seq<u8>;

/// Relies on `sha2::Sha512::digest` (via the `digest` crate's `Digest`
/// trait): the one-shot SHA-512 of the input, 64 bytes long, a function of
/// the input bytes alone.
#[verifier::external_body]
fn sha512(data: &Vec<u8>) -> (r: Vec<u8>)
    ensures
        r@ == sha512_of(data@),
        r@.len() == 64,
{
    sha2::Sha512::digest(data.as_slice()).to_vec()
}

/// The lowercase hex digit (as an ASCII byte) for a value below 16.
pub open spec fn spec_hex_digit(n: u8) -> u8 {
    if n < 10 {
        (48 + n) as u8
    } else {
        (87 + n) as u8
    }
}

/// The lowercase hex encoding of a byte sequence: two digits per byte,
/// high nibble first.
pub open spec fn spec_hex_bytes(data: Seq<u8>) -> Seq<u8> {
    Seq::new(
        2 * data.len(),
        |i: int|
            if i % 2 == 0 {
                spec_hex_digit((data[i / 2] / 16) as u8)
            } else {
                spec_hex_digit((data[i / 2] % 16) as u8)
            },
    )
}

fn hex_digit(n: u8) -> (r: u8)
    requires
        n < 16,
    ensures
        r == spec_hex_digit(n),
{
    if n < 10 {
        48 + n
    } else {
        87 + n
    }
}

/// Encodes a byte sequence as lowercase hex.
pub fn hex_encode(data: &Vec<u8>) -> (r: Vec<u8>)
    ensures
        r@ == spec_hex_bytes(data@),
{
    let mut r: Vec<u8> = Vec::new();
    let mut i: usize = 0;
    while i < data.len()
        invariant
            0 <= i <= data@.len(),
            r@ =~= spec_hex_bytes(data@.take(i as int)),
        decreases data@.len() - i,
    {
        let b = data[i];
        r.push(hex_digit(b / 16));
        r.push(hex_digit(b % 16));
        i += 1;
        proof {
            assert(r@ =~= spec_hex_bytes(data@.take(i as int)));
        }
    }
    proof {
        assert(data@.take(data@.len() as int) =~= data@);
    }
    r
}

/// Whether a byte is ASCII whitespace as far as checksum files use it:
/// space, tab, line feed or carriage return.
pub open spec fn spec_is_space(b: u8) -> bool {
    b == 32 || b == 9 || b == 10 || b == 13
}

/// The length of the leading whitespace-free token of `data`.
pub open spec fn spec_token_len(data: Seq<u8>) -> int
    decreases data.len(),
{
    if data.len() == 0 {
        0
    } else if spec_is_space(data[0]) {
        0
    } else {
        1 + spec_token_len(data.drop_first())
    }
}

/// The leading whitespace-free token of `data`: for a checksum payload in
/// the usual `sha512sum` format, the hex digest itself.
pub open spec fn spec_first_token(data: Seq<u8>) -> Seq<u8> {
    data.take(spec_token_len(data))
}

proof fn lemma_token_len_at(data: Seq<u8>, i: int)
    requires
        0 <= i <= data.len(),
        forall|j: int| 0 <= j < i ==> !spec_is_space(#[trigger] data[j]),
        i < data.len() ==> spec_is_space(data[i]),
    ensures
        spec_token_len(data) == i,
    decreases i,
{
    if i == 0 {
    } else {
        let rest = data.drop_first();
        assert(forall|j: int| 0 <= j < i - 1 ==> #[trigger] rest[j] == data[j + 1]);
        lemma_token_len_at(rest, i - 1);
    }
}

fn is_space(b: u8) -> (r: bool)
    ensures
        r == spec_is_space(b),
{
    b == 32 || b == 9 || b == 10 || b == 13
}

/// Extracts the leading whitespace-free token of a checksum payload.
pub fn first_token(data: &Vec<u8>) -> (r: Vec<u8>)
    ensures
        r@ == spec_first_token(data@),
{
    let mut i: usize = 0;
    while i < data.len() && !is_space(data[i])
        invariant
            0 <= i <= data@.len(),
            forall|j: int| 0 <= j < i ==> !spec_is_space(#[trigger] data@[j]),
        decreases data@.len() - i,
    {
        i += 1;
    }
    proof {
        lemma_token_len_at(data@, i as int);
    }
    let mut r: Vec<u8> = Vec::new();
    let mut j: usize = 0;
    while j < i
        invariant
            0 <= j <= i <= data@.len(),
            r@ =~= data@.take(j as int),
        decreases i - j,
    {
        r.push(data[j]);
        j += 1;
    }
    proof {
        assert(r@ =~= data@.take(i as int));
    }
    r
}

/// Whether the checksum payload's leading token equals the lowercase hex
/// SHA-512 digest of `data`.
pub open spec fn spec_digest_matches(data: Seq<u8>, payload: Seq<u8>) -> bool {
    spec_first_token(payload) == spec_hex_bytes(sha512_of(data))
}

/// Whether two byte vectors hold the same bytes.
pub fn bytes_eq(a: &Vec<u8>, b: &Vec<u8>) -> (r: bool)
    ensures
        r == (a@ == b@),
{
    if a.len() != b.len() {
        return false;
    }
    let mut i: usize = 0;
    while i < a.len()
        invariant
            a@.len() == b@.len(),
            0 <= i <= a@.len(),
            forall|j: int| 0 <= j < i ==> a@[j] == b@[j],
        decreases a@.len() - i,
    {
        if a[i] != b[i] {
            return false;
        }
        i += 1;
    }
    proof {
        assert(a@ =~= b@);
    }
    true
}

/// The lowercase hex SHA-512 digest of `data`.
pub fn sha512sum(data: &Vec<u8>) -> (r: Vec<u8>)
    ensures
        r@ == spec_hex_bytes(sha512_of(data@)),
{
    let d = sha512(data);
    hex_encode(&d)
}

/// The verification gate: whether the digest published in `payload`
/// matches the archive bytes in `data`.
pub fn hash_check(data: &Vec<u8>, payload: &Vec<u8>) -> (r: bool)
    ensures
        r == spec_digest_matches(data@, payload@),
{
    let digest = sha512sum(data);
    let token = first_token(payload);
    bytes_eq(&token, &digest)
}

} // verus!
