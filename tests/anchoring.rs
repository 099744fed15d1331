use eco_sys::anchor::{digest_hex, proof_matches_digest, validate_repo_state};
use eco_sys::eco_core::EnergySample;

const ABC_SHA512: &str = "ddaf35a193617abacc417349ae20413112e6fa4e89a97ea20a9eeee64b55d39a2192992a274fc1a836ba3c23a3feebbd454d4423643ce80e2a9ac94fa54ca49f";

#[test]
fn digest_hex_of_abc() {
    assert_eq!(digest_hex(b"abc"), ABC_SHA512);
}

#[test]
fn validate_accepts_matching_prefix() {
    assert!(validate_repo_state("abc", "ddaf35a1-anything"));
    assert!(validate_repo_state("abc", ABC_SHA512));
}

#[test]
fn validate_refuses_other_prefix_or_short_proof() {
    assert!(!validate_repo_state("abc", "ddaf35a2"));
    assert!(!validate_repo_state("abc", "ddaf"));
    assert!(!validate_repo_state("abd", "ddaf35a1"));
}

#[test]
fn proof_compared_with_hex_of_digest() {
    assert!(proof_matches_digest(&[0xde, 0xad, 0xbe, 0xef], "deadbeef"));
    assert!(!proof_matches_digest(&[0xde, 0xad, 0xbe, 0xef], "DEADBEEF"));
    assert!(!proof_matches_digest(&[0xde, 0xad, 0xbe], "deadbe00"));
}

#[test]
fn test_efficiency_flow() {
    let s = EnergySample::new(1_200_000_000, 900_000_000, 700_000);
    assert_eq!(s.compute_efficiency(), 735_000_000);
    assert!(!s.timestamp.is_empty());
}
