use furrctorio::release::{FModRelease, InfoJSON};
use furrctorio::versions::VersionEncapsulate;
use sha1::Digest;

fn release_with_sha1(sha1: &str) -> FModRelease {
    FModRelease {
        download_url: String::new(),
        file_name: String::new(),
        info_json: InfoJSON::default(),
        released_at: 0,
        version: VersionEncapsulate::of_text("1.0.0"),
        sha1: sha1.to_string(),
    }
}

#[test]
fn digest_of_the_bytes_validates() {
    let data: Vec<u8> = b"hello world".to_vec();
    let digest = format!("{:x}", sha1::Sha1::digest(&data));
    assert_eq!(digest, "2aae6c35c94fcfb415dbe95f408b9ce91ee846ed");
    let rel = release_with_sha1(&digest);
    assert!(rel.validate(&data));
}

#[test]
fn declared_checksum_may_be_uppercase() {
    let data: Vec<u8> = b"hello world".to_vec();
    let rel = release_with_sha1("2AAE6C35C94FCFB415DBE95F408B9CE91EE846ED");
    assert!(rel.validate(&data));
}

#[test]
fn any_flipped_byte_fails_validation() {
    let data: Vec<u8> = b"abc".to_vec();
    let digest = format!("{:x}", sha1::Sha1::digest(&data));
    assert_eq!(digest, "a9993e364706816aba3e25717850c26c9cd0d89d");
    let rel = release_with_sha1(&digest);
    assert!(rel.validate(&data));
    for i in 0..data.len() {
        for bit in 0..8u8 {
            let mut flipped = data.clone();
            flipped[i] ^= 1 << bit;
            assert!(!rel.validate(&flipped));
        }
    }
}

#[test]
fn wrong_checksum_fails_validation() {
    let data: Vec<u8> = b"hello world".to_vec();
    let rel = release_with_sha1("0000000000000000000000000000000000000000");
    assert!(!rel.validate(&data));
}
