//! Digests and hex stamps used to sign and anchor artifacts.
use vstd::prelude::*;
use vstd::string::StrSliceExecFns;
use vstd::string::StringSliceAdditionalSpecFns;

verus! {

/// The SHA-512 digest of a byte sequence.
pub uninterp spec fn sha512_of(data: Seq<u8>) -> Seq<u8>;

/// Lower-case hex digit of a nibble.
pub open spec fn hex_digit(n: int) -> char {
    if n < 10 {
        (n + 48) as char
    } else {
        (n + 87) as char
    }
}

/// Lower-case hex text of a byte sequence, high nibble first.
pub open spec fn hex_of(b: Seq<u8>) -> Seq<char>
    decreases b.len(),
{
    if b.len() == 0 {
        Seq::empty()
    } else {
        hex_of(b.drop_last()) + seq![hex_digit(b.last() as int / 16), hex_digit(b.last() as int % 16)]
    }
}

/// Inputs shorter than this many bytes have a bit length that fits a `u64`.
pub const MAX_DIGEST_INPUT: u64 = 0x2000_0000_0000_0000;

/// Relies on ring::digest::digest with SHA512: the 64-byte digest of `data`.
/// It panics when the input's bit length overflows a `u64`, hence the bound.
#[verifier::external_body]
fn sha512(data: &[u8]) -> (r: Vec<u8>)
    requires
        data@.len() < MAX_DIGEST_INPUT,
    ensures
        r@ == sha512_of(data@),
        r@.len() == 64,
{
    ring::digest::digest(&ring::digest::SHA512, data).as_ref().to_vec()
}

/// Relies on hex::encode: two lower-case digits per byte, high nibble first.
#[verifier::external_body]
fn hex_encode(b: &[u8]) -> (r: String)
    ensures
        r@ == hex_of(b@),
{
    hex::encode(b)
}

proof fn lemma_hex_len(b: Seq<u8>)
    ensures
        hex_of(b).len() == 2 * b.len(),
    decreases b.len(),
{
    if b.len() > 0 {
        lemma_hex_len(b.drop_last());
    }
}

/// Hex text of the SHA-512 digest of `data`.
pub fn digest_hex(data: &[u8]) -> (r: String)
    requires
        data@.len() < MAX_DIGEST_INPUT,
    ensures
        r@ == hex_of(sha512_of(data@)),
        r@.len() == 128,
{
    let d = sha512(data);
    proof {
        lemma_hex_len(d@);
    }
    hex_encode(d.as_slice())
}

/// `proof` holds at least eight characters and they are the first eight of `check`.
pub open spec fn proof_prefix_matches(check: Seq<char>, proof: Seq<char>) -> bool {
    proof.len() >= 8 && check.len() >= 8 && proof.subrange(0, 8) == check.subrange(0, 8)
}

/// Compares the first eight characters of an authorship proof with the hex
/// text of a digest.
pub fn proof_matches_digest(digest: &[u8], authorship_proof: &str) -> (r: bool)
    ensures
        r == proof_prefix_matches(hex_of(digest@), authorship_proof@),
{
    let check = hex_encode(digest);
    proof {
        lemma_hex_len(digest@);
    }
    let check_s: &str = check.as_str();
    if authorship_proof.unicode_len() < 8 || check_s.unicode_len() < 8 {
        return false;
    }
    let mut i: usize = 0;
    while i < 8
        invariant
            i <= 8,
            authorship_proof@.len() >= 8,
            check_s@.len() >= 8,
            check_s@ == hex_of(digest@),
            forall|j: int| 0 <= j < i ==> authorship_proof@[j] == check_s@[j],
        decreases 8 - i,
    {
        if authorship_proof.get_char(i) != check_s.get_char(i) {
            proof {
                assert(authorship_proof@.subrange(0, 8)[i as int] != check_s@.subrange(0, 8)[i as int]);
            }
            return false;
        }
        i = i + 1;
    }
    proof {
        assert(authorship_proof@.subrange(0, 8) =~= check_s@.subrange(0, 8));
    }
    true
}

/// Checks a repository name against an authorship proof: the proof's first
/// eight characters must open the hex SHA-512 digest of the name's bytes.
/// A proof shorter than eight characters does not match.
pub fn validate_repo_state(repo: &str, authorship_proof: &str) -> (r: bool)
    requires
        repo.spec_bytes().len() < MAX_DIGEST_INPUT,
    ensures
        r == proof_prefix_matches(hex_of(sha512_of(repo.spec_bytes())), authorship_proof@),
        hex_of(sha512_of(repo.spec_bytes())).len() == 128,
{
    let d = sha512(repo.as_bytes());
    proof {
        lemma_hex_len(d@);
    }
    proof_matches_digest(d.as_slice(), authorship_proof)
}

} // verus!
