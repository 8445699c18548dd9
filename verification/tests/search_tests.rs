//! Tests of the encrypted-search hasher and transliteration.

use recrypt_binding::engine::Api256;
use recrypt_binding::errors::ApiError;
use recrypt_binding::search::EncryptedSearch;

fn sorted(mut v: Vec<u32>) -> Vec<u32> {
    v.sort();
    v
}

#[test]
fn hashes_are_deterministic() {
    let search = EncryptedSearch::new();
    let first = search
        .generateHashesForString("ironcore labs", &vec![1u8, 2, 3], Some("tenant".to_string()))
        .unwrap();
    let second = search
        .generateHashesForString("ironcore labs", &vec![1u8, 2, 3], Some("tenant".to_string()))
        .unwrap();
    assert_eq!(sorted(first), sorted(second));
}

#[test]
fn changing_the_salt_changes_the_hashes() {
    let search = EncryptedSearch::new();
    let first = search.generateHashesForString("ironcore", &vec![1u8], None).unwrap();
    let second = search.generateHashesForString("ironcore", &vec![2u8], None).unwrap();
    assert_ne!(sorted(first), sorted(second));
}

#[test]
fn changing_the_partition_changes_the_hashes() {
    let search = EncryptedSearch::new();
    let first = search
        .generateHashesForString("ironcore", &vec![1u8], Some("left".to_string()))
        .unwrap();
    let second = search
        .generateHashesForString("ironcore", &vec![1u8], Some("right".to_string()))
        .unwrap();
    assert_ne!(sorted(first), sorted(second));
}

#[test]
fn single_trigram_matches_the_prefixed_digest() {
    // One word of three characters yields exactly one trigram, whose hash is
    // the first four bytes, big endian, of sha256(partition ++ salt ++ word).
    let search = EncryptedSearch::new();
    let api = Api256::new();
    let hashes = search
        .generateHashesForString("123", &vec![0u8], Some("foo".to_string()))
        .unwrap();
    let mut preimage: Vec<u8> = Vec::new();
    preimage.extend_from_slice("foo".as_bytes());
    preimage.push(0u8);
    preimage.extend_from_slice("123".as_bytes());
    let digest = api.hash256(&preimage);
    let expected = ((digest[0] as u32) << 24)
        + ((digest[1] as u32) << 16)
        + ((digest[2] as u32) << 8)
        + (digest[3] as u32);
    assert_eq!(hashes, vec![expected]);
}

#[test]
fn padded_hashes_contain_the_real_hashes() {
    let search = EncryptedSearch::new();
    let plain = search
        .generateHashesForString("ironcore labs", &vec![9u8], Some("tenant".to_string()))
        .unwrap();
    let padded = search
        .generateHashesForStringWithPadding(
            "ironcore labs",
            &vec![9u8],
            Some("tenant".to_string()),
        )
        .unwrap();
    for h in plain.iter() {
        assert!(padded.contains(h));
    }
    assert!(padded.len() > plain.len());
}

#[test]
fn padded_hash_sizes_vary_between_calls() {
    let search = EncryptedSearch::new();
    let mut sizes = Vec::new();
    for _ in 0..30 {
        let padded = search
            .generateHashesForStringWithPadding("abc", &vec![0u8], None)
            .unwrap();
        sizes.push(padded.len());
    }
    sizes.sort();
    assert!(sizes[0] < sizes[sizes.len() - 1]);
}

#[test]
fn over_long_input_is_rejected() {
    let search = EncryptedSearch::new();
    let long_input = "a".repeat(201);
    match search.generateHashesForString(&long_input, &vec![0u8], None) {
        Err(ApiError::EngineError { .. }) => {}
        other => panic!("expected an engine error, got ok={}", other.is_ok()),
    }
    let at_limit = "a".repeat(200);
    assert!(search.generateHashesForString(&at_limit, &vec![0u8], None).is_ok());
}

#[test]
fn the_length_limit_counts_bytes_not_characters() {
    // A three-byte character: 67 of them are 201 bytes, one over the limit,
    // while 66 are 198 bytes and accepted.
    let search = EncryptedSearch::new();
    let over = "\u{65e5}".repeat(67);
    assert!(search.generateHashesForString(&over, &vec![0u8], None).is_err());
    let under = "\u{65e5}".repeat(66);
    assert!(search.generateHashesForString(&under, &vec![0u8], None).is_ok());
}

#[test]
fn transliteration_latinizes_and_lowercases() {
    assert_eq!(EncryptedSearch::transliterateString("Gumby, dammit!"), "gumby dammit");
    assert_eq!(EncryptedSearch::transliterateString("\u{c6}neid"), "aeneid");
}

#[test]
fn transliteration_is_idempotent_on_its_results() {
    for input in ["Gumby, dammit!", "\u{c6}neid", "\u{5317}\u{4eb0}", "plain ascii 123"] {
        let once = EncryptedSearch::transliterateString(input);
        let twice = EncryptedSearch::transliterateString(&once);
        assert_eq!(twice, once);
    }
}
