use hello_service::canonical::{
    canonical_line_bool_len, canonical_line_hash_len, canonical_line_str_len, finalize_sha256,
    hash_line_bool, hash_line_hash, hash_line_str, hash_line_u64, sha256_bytes,
    write_canonical_line_bool, write_canonical_line_hash, write_canonical_line_str,
    write_sector_image_bytes, SECTOR_BYTES,
};
use hello_service::sha256::Sha256 as LineHasher;
use sha2::{Digest, Sha256};

fn expected(bytes: &[u8]) -> [u8; 32] {
    Sha256::digest(bytes).into()
}

#[test]
fn hash_line_str_hashes_key_equals_value_newline() {
    let mut hash = LineHasher::new();
    hash_line_str(&mut hash, "schema", "raios.audit_record.v0");
    assert_eq!(finalize_sha256(hash), expected(b"schema=raios.audit_record.v0\n"));
}

#[test]
fn hash_line_bool_hashes_true_and_false_lines() {
    let mut hash = LineHasher::new();
    hash_line_bool(&mut hash, "accepted", true);
    hash_line_bool(&mut hash, "write_attempted", false);
    assert_eq!(
        finalize_sha256(hash),
        expected(b"accepted=true\nwrite_attempted=false\n")
    );
}

#[test]
fn hash_line_u64_hashes_little_endian_bytes() {
    let mut hash = LineHasher::new();
    hash_line_u64(&mut hash, "n", 0x0102_0304_0506_0708);
    assert_eq!(
        finalize_sha256(hash),
        expected(b"n=\x08\x07\x06\x05\x04\x03\x02\x01\n")
    );
}

#[test]
fn hash_line_hash_hashes_raw_digest_bytes() {
    let digest = [0xabu8; 32];
    let mut hash = LineHasher::new();
    hash_line_hash(&mut hash, "payload_sha256", digest);
    let mut stream = b"payload_sha256=".to_vec();
    stream.extend_from_slice(&digest);
    stream.push(b'\n');
    assert_eq!(finalize_sha256(hash), expected(&stream));
}

#[test]
fn sha256_bytes_of_empty_input() {
    assert_eq!(sha256_bytes(&[]), expected(b""));
    assert_eq!(
        sha256_bytes(b"abc")[..4],
        [0xba, 0x78, 0x16, 0xbf]
    );
}

#[test]
fn canonical_line_lengths() {
    assert_eq!(canonical_line_str_len("schema", "raios.audit_record.v0"), 29);
    assert_eq!(canonical_line_hash_len("payload_sha256"), 48);
    assert_eq!(canonical_line_bool_len("write_attempted", false), 22);
    assert_eq!(canonical_line_bool_len("appended", true), 14);
}

#[test]
fn line_lengths_match_written_bytes() {
    let mut image = [0u8; SECTOR_BYTES];
    let mut offset = 0usize;
    write_canonical_line_str(&mut image, &mut offset, "schema", "raios.audit_record.v0");
    assert_eq!(offset as u64, canonical_line_str_len("schema", "raios.audit_record.v0"));
    write_canonical_line_hash(&mut image, &mut offset, "payload_sha256", [7u8; 32]);
    assert_eq!(offset as u64, 29 + canonical_line_hash_len("payload_sha256"));
    write_canonical_line_bool(&mut image, &mut offset, "write_attempted", false);
    assert_eq!(offset, 29 + 48 + 22);
    assert_eq!(&image[..29], b"schema=raios.audit_record.v0\n");
    assert_eq!(&image[29..44], b"payload_sha256=");
    assert_eq!(&image[44..76], &[7u8; 32]);
    assert_eq!(&image[77..99], b"write_attempted=false\n");
    assert!(image[99..].iter().all(|b| *b == 0));
}

#[test]
fn sector_writes_stop_at_the_end_of_the_sector() {
    let mut image = [0u8; SECTOR_BYTES];
    let mut offset = SECTOR_BYTES - 3;
    write_sector_image_bytes(&mut image, &mut offset, b"abcdef");
    assert_eq!(offset, SECTOR_BYTES);
    assert_eq!(&image[SECTOR_BYTES - 3..], b"abc");
    write_sector_image_bytes(&mut image, &mut offset, b"zz");
    assert_eq!(offset, SECTOR_BYTES);
    assert_eq!(&image[SECTOR_BYTES - 3..], b"abc");
}

#[test]
fn sector_write_past_the_end_changes_nothing() {
    let mut image = [1u8; SECTOR_BYTES];
    let mut offset = SECTOR_BYTES + 10;
    write_sector_image_bytes(&mut image, &mut offset, b"abc");
    assert_eq!(offset, SECTOR_BYTES + 10);
    assert!(image.iter().all(|b| *b == 1));
}
