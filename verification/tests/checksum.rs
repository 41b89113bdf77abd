use quickosdl::checksum::{feed_chunk, finish_transfer, verification_for, ChecksumVerification};
use quickosdl::download::{compare_digests, DownloadError};

const MD5_EMPTY: &str = "d41d8cd98f00b204e9800998ecf8427e";
const SHA1_ABC: &str = "a9993e364706816aba3e25717850c26c9cd0d89d";
const SHA256_ABC: &str = "ba7816bf8f01cfea414140de5dae2223b00361a396177a9cb410ff61f20015ad";
const SHA512_ABC: &str = "ddaf35a193617abacc417349ae20413112e6fa4e89a97ea20a9eeee64b55d39a2192992a274fc1a836ba3c23a3feebbd454d4423643ce80e2a9ac94fa54ca49f";

#[test]
fn a_digest_of_32_characters_is_checked_with_md5() {
    let verification = ChecksumVerification::new(MD5_EMPTY.to_string()).unwrap();
    assert!(verification.validate().is_ok());
}

#[test]
fn a_digest_of_40_characters_is_checked_with_sha1() {
    let mut verification = ChecksumVerification::new(SHA1_ABC.to_string()).unwrap();
    verification.write_chunk(b"abc");
    assert!(verification.validate().is_ok());
}

#[test]
fn a_digest_of_64_characters_is_checked_with_sha256() {
    let mut verification = ChecksumVerification::new(SHA256_ABC.to_string()).unwrap();
    verification.write_chunk(b"abc");
    assert!(verification.validate().is_ok());
}

#[test]
fn a_digest_of_128_characters_is_checked_with_sha512() {
    let mut verification = ChecksumVerification::new(SHA512_ABC.to_string()).unwrap();
    verification.write_chunk(b"abc");
    assert!(verification.validate().is_ok());
}

#[test]
fn a_digest_of_any_other_length_disables_verification() {
    assert!(ChecksumVerification::new("a".repeat(33)).is_none());
    assert!(ChecksumVerification::new(String::new()).is_none());
    assert!(ChecksumVerification::new("a".repeat(63)).is_none());
    assert!(ChecksumVerification::new("a".repeat(129)).is_none());
}

#[test]
fn chunks_are_hashed_in_the_order_in_which_they_are_written() {
    let mut verification = ChecksumVerification::new(SHA256_ABC.to_string()).unwrap();
    verification.write_chunk(b"a");
    verification.write_chunk(b"");
    verification.write_chunk(b"bc");
    assert!(verification.validate().is_ok());
    let mut swapped = ChecksumVerification::new(SHA256_ABC.to_string()).unwrap();
    swapped.write_chunk(b"bc");
    swapped.write_chunk(b"a");
    assert!(swapped.validate().is_err());
}

#[test]
fn a_mismatch_carries_the_actual_and_the_expected_digest() {
    let expected = "0".repeat(64);
    let mut verification = ChecksumVerification::new(expected.clone()).unwrap();
    verification.write_chunk(b"abc");
    match verification.validate() {
        Err(DownloadError::NonMatchingChecksum(actual, wanted)) => {
            assert_eq!(actual, SHA256_ABC);
            assert_eq!(wanted, expected);
        }
        other => panic!("expected a mismatch, got {:?}", other),
    }
}

#[test]
fn digests_are_compared_case_sensitively() {
    let mut verification = ChecksumVerification::new(SHA256_ABC.to_uppercase()).unwrap();
    verification.write_chunk(b"abc");
    assert!(verification.validate().is_err());
}

#[test]
fn compare_digests_accepts_equal_and_rejects_different_texts() {
    assert!(compare_digests("abc".to_string(), "abc".to_string()).is_ok());
    match compare_digests("abc".to_string(), "abd".to_string()) {
        Err(DownloadError::NonMatchingChecksum(actual, expected)) => {
            assert_eq!(actual, "abc");
            assert_eq!(expected, "abd");
        }
        other => panic!("expected a mismatch, got {:?}", other),
    }
}

#[test]
fn error_messages_are_worded_by_kind() {
    assert_eq!(
        DownloadError::Network("connection reset".to_string()).to_string(),
        "connection reset"
    );
    assert_eq!(
        DownloadError::Filesystem("File exists".to_string()).to_string(),
        "File exists"
    );
    assert_eq!(
        DownloadError::NonMatchingChecksum("aa".to_string(), "bb".to_string()).to_string(),
        "Checksum aa does not match expected value bb"
    );
}

#[test]
fn a_source_without_checksum_is_not_verified() {
    let mut verification = verification_for(None);
    assert!(verification.is_none());
    assert_eq!(feed_chunk(&mut verification, b"abcd"), 4);
    assert!(verification.is_none());
    assert!(finish_transfer(verification).is_ok());
    assert!(verification_for(Some("a".repeat(33))).is_none());
}

#[test]
fn a_transfer_with_checksum_is_verified_chunk_by_chunk() {
    let mut verification = verification_for(Some(SHA1_ABC.to_string()));
    assert!(verification.is_some());
    assert_eq!(feed_chunk(&mut verification, b"ab"), 2);
    assert_eq!(feed_chunk(&mut verification, b"c"), 1);
    assert!(finish_transfer(verification).is_ok());
    let mut short = verification_for(Some(SHA1_ABC.to_string()));
    assert_eq!(feed_chunk(&mut short, b"ab"), 2);
    assert!(matches!(
        finish_transfer(short),
        Err(DownloadError::NonMatchingChecksum(_, _))
    ));
}
