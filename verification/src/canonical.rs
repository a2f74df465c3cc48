//! Canonical `key=value\n` lines: how they are hashed, measured and laid
//! into a sector image.
//!
//! A text line is the key, `=`, the value's UTF-8 bytes and a line feed; a
//! digest line carries the 32 raw digest bytes as its value; a number line
//! carries the eight little-endian bytes of a `u64`; a flag line is the key
//! followed by `=true\n` or `=false\n`.

use vstd::prelude::*;
use vstd::bytes::{spec_u64_to_le_bytes, u64_to_le_bytes};
use vstd::string::StringSliceAdditionalSpecFns;
use crate::sha256::{Sha256, sha256_absorbed, sha256_digest, sha256_finalize, sha256_new, sha256_update};

verus! {

/// Bytes in one logical sector of the rollback target media.
pub const SECTOR_BYTES: usize = 512;

/// The byte of `=`.
pub open spec fn eq_bytes() -> Seq<u8> {
    seq![61u8]
}

/// The byte of a line feed.
pub open spec fn newline_bytes() -> Seq<u8> {
    seq![10u8]
}

/// `=true\n`.
pub open spec fn true_suffix() -> Seq<u8> {
    seq![61u8, 116u8, 114u8, 117u8, 101u8, 10u8]
}

/// `=false\n`.
pub open spec fn false_suffix() -> Seq<u8> {
    seq![61u8, 102u8, 97u8, 108u8, 115u8, 101u8, 10u8]
}

/// `key=value\n` for a text value.
#[verifier::opaque]
pub open spec fn line_str(key: &str, value: &str) -> Seq<u8> {
    key.spec_bytes() + eq_bytes() + value.spec_bytes() + newline_bytes()
}

/// `key=` the raw digest bytes and a line feed.
#[verifier::opaque]
pub open spec fn line_hash(key: &str, value: Seq<u8>) -> Seq<u8> {
    key.spec_bytes() + eq_bytes() + value + newline_bytes()
}

/// `key=true\n` or `key=false\n`.
#[verifier::opaque]
pub open spec fn line_bool(key: &str, value: bool) -> Seq<u8> {
    key.spec_bytes() + if value { true_suffix() } else { false_suffix() }
}

/// `key=` the little-endian bytes of `value` and a line feed.
#[verifier::opaque]
pub open spec fn line_u64(key: &str, value: u64) -> Seq<u8> {
    key.spec_bytes() + eq_bytes() + spec_u64_to_le_bytes(value) + newline_bytes()
}

/// Finishes a SHA-256 computation into a 32-byte array.
pub fn finalize_sha256(hash: Sha256) -> (out: [u8; 32])
    ensures
        out@ == sha256_digest(sha256_absorbed(hash)),
{
    let digest = sha256_finalize(hash);
    let mut out = [0u8; 32];
    let mut i: usize = 0;
    while i < 32
        invariant
            0 <= i <= 32,
            digest@.len() == 32,
            forall|j: int| 0 <= j < i ==> out@[j] == digest@[j],
        decreases 32 - i,
    {
        out[i] = digest[i];
        i = i + 1;
    }
    assert(out@ =~= digest@);
    out
}

/// The SHA-256 digest of `bytes`.
pub fn sha256_bytes(bytes: &[u8]) -> (out: [u8; 32])
    ensures
        out@ == sha256_digest(bytes@),
{
    let mut hash = sha256_new();
    sha256_update(&mut hash, bytes);
    assert(sha256_absorbed(hash) =~= bytes@);
    finalize_sha256(hash)
}

/// Feeds `key=value\n` into the hash.
pub fn hash_line_str(hash: &mut Sha256, key: &'static str, value: &str)
    ensures
        sha256_absorbed(*final(hash)) == sha256_absorbed(*old(hash)) + line_str(key, value),
{
    let eq: [u8; 1] = [61u8];
    let nl: [u8; 1] = [10u8];
    sha256_update(hash, key.as_bytes());
    sha256_update(hash, &eq);
    sha256_update(hash, value.as_bytes());
    sha256_update(hash, &nl);
    reveal(line_str);
    assert(sha256_absorbed(*hash) =~= sha256_absorbed(*old(hash)) + line_str(key, value));
}

/// Feeds `key=` the digest bytes and a line feed into the hash.
pub fn hash_line_hash(hash: &mut Sha256, key: &'static str, value: [u8; 32])
    ensures
        sha256_absorbed(*final(hash)) == sha256_absorbed(*old(hash)) + line_hash(key, value@),
{
    let eq: [u8; 1] = [61u8];
    let nl: [u8; 1] = [10u8];
    sha256_update(hash, key.as_bytes());
    sha256_update(hash, &eq);
    sha256_update(hash, &value);
    sha256_update(hash, &nl);
    reveal(line_hash);
    assert(sha256_absorbed(*hash) =~= sha256_absorbed(*old(hash)) + line_hash(key, value@));
}

/// Feeds `key=true\n` or `key=false\n` into the hash.
pub fn hash_line_bool(hash: &mut Sha256, key: &'static str, value: bool)
    ensures
        sha256_absorbed(*final(hash)) == sha256_absorbed(*old(hash)) + line_bool(key, value),
{
    sha256_update(hash, key.as_bytes());
    if value {
        let suffix: [u8; 6] = [61u8, 116u8, 114u8, 117u8, 101u8, 10u8];
        sha256_update(hash, &suffix);
        assert(suffix@ =~= true_suffix());
    } else {
        let suffix: [u8; 7] = [61u8, 102u8, 97u8, 108u8, 115u8, 101u8, 10u8];
        sha256_update(hash, &suffix);
        assert(suffix@ =~= false_suffix());
    }
    reveal(line_bool);
    assert(sha256_absorbed(*hash) =~= sha256_absorbed(*old(hash)) + line_bool(key, value));
}

/// Feeds `key=` the little-endian bytes of `value` and a line feed into the hash.
pub fn hash_line_u64(hash: &mut Sha256, key: &'static str, value: u64)
    ensures
        sha256_absorbed(*final(hash)) == sha256_absorbed(*old(hash)) + line_u64(key, value),
{
    let eq: [u8; 1] = [61u8];
    let nl: [u8; 1] = [10u8];
    let le = u64_to_le_bytes(value);
    sha256_update(hash, key.as_bytes());
    sha256_update(hash, &eq);
    sha256_update(hash, le.as_slice());
    sha256_update(hash, &nl);
    reveal(line_u64);
    assert(sha256_absorbed(*hash) =~= sha256_absorbed(*old(hash)) + line_u64(key, value));
}

/// The byte length of `key=value\n`.
pub fn canonical_line_str_len(key: &'static str, value: &str) -> (len: u64)
    requires
        key.spec_bytes().len() + value.spec_bytes().len() + 2 <= u64::MAX,
    ensures
        len == line_str(key, value).len(),
        len == key.spec_bytes().len() + value.spec_bytes().len() + 2,
{
    proof {
        reveal(line_str);
    }
    let key_len = key.as_bytes().len();
    let value_len = value.as_bytes().len();
    assert(key_len == key.spec_bytes().len() && value_len == value.spec_bytes().len());
    key_len as u64 + 1 + value_len as u64 + 1
}

/// The byte length of a digest line.
pub fn canonical_line_hash_len(key: &'static str) -> (len: u64)
    requires
        key.spec_bytes().len() + 34 <= u64::MAX,
    ensures
        forall|value: Seq<u8>| value.len() == 32 ==> len == #[trigger] line_hash(key, value).len(),
        len == key.spec_bytes().len() + 34,
{
    proof {
        reveal(line_hash);
    }
    let key_len = key.as_bytes().len();
    assert(key_len == key.spec_bytes().len());
    key_len as u64 + 1 + 32 + 1
}

/// The byte length of a flag line.
pub fn canonical_line_bool_len(key: &'static str, value: bool) -> (len: u64)
    requires
        key.spec_bytes().len() + 7 <= u64::MAX,
    ensures
        len == line_bool(key, value).len(),
        len == key.spec_bytes().len() + if value { 6int } else { 7int },
{
    proof {
        reveal(line_bool);
    }
    let key_len = key.as_bytes().len();
    assert(key_len == key.spec_bytes().len());
    key_len as u64 + 1 + if value {
        4
    } else {
        5
    } + 1
}

/// How many of `len` bytes fit in a sector image from `offset` on.
pub open spec fn copy_count(offset: int, len: int) -> int {
    if offset >= SECTOR_BYTES {
        0
    } else if len <= SECTOR_BYTES - offset {
        len
    } else {
        SECTOR_BYTES - offset
    }
}

/// `image` with as many of `bytes` as fit laid in from `offset` on.
pub open spec fn lay_bytes(image: Seq<u8>, offset: int, bytes: Seq<u8>) -> Seq<u8> {
    Seq::new(
        image.len(),
        |i: int|
            if offset <= i < offset + copy_count(offset, bytes.len() as int) {
                bytes[i - offset]
            } else {
                image[i]
            },
    )
}

/// Laying `a` and then `b` right after it is laying `a + b`.
pub proof fn lemma_lay_bytes_concat(image: Seq<u8>, offset: int, a: Seq<u8>, b: Seq<u8>)
    requires
        image.len() == SECTOR_BYTES,
        0 <= offset,
    ensures
        lay_bytes(lay_bytes(image, offset, a), offset + copy_count(offset, a.len() as int), b)
            == lay_bytes(image, offset, a + b),
        copy_count(offset, a.len() as int) + copy_count(
            offset + copy_count(offset, a.len() as int),
            b.len() as int,
        ) == copy_count(offset, (a + b).len() as int),
{
    let mid = offset + copy_count(offset, a.len() as int);
    let lhs = lay_bytes(lay_bytes(image, offset, a), mid, b);
    let rhs = lay_bytes(image, offset, a + b);
    assert forall|i: int| 0 <= i < image.len() implies lhs[i] == rhs[i] by {
        if offset <= i < mid {
            assert((a + b)[i - offset] == a[i - offset]);
        } else if mid <= i < mid + copy_count(mid, b.len() as int) {
            assert((a + b)[i - offset] == b[i - mid]);
        }
    }
    assert(lhs =~= rhs);
}

/// Copies bytes into the sector image from `offset` on, stopping at the
/// end of the bytes or of the image, and advances `offset` past them.
pub fn write_sector_image_bytes(image: &mut [u8; SECTOR_BYTES], offset: &mut usize, bytes: &[u8])
    ensures
        final(image)@ == lay_bytes(old(image)@, *old(offset) as int, bytes@),
        *final(offset) == *old(offset) + copy_count(*old(offset) as int, bytes@.len() as int),
{
    let ghost start = *offset as int;
    let ghost before = image@;
    let mut idx = 0usize;
    while idx < bytes.len() && *offset < image.len()
        invariant
            image@.len() == SECTOR_BYTES,
            before.len() == SECTOR_BYTES,
            0 <= idx <= bytes@.len(),
            *offset == start + idx,
            idx == 0 || *offset <= SECTOR_BYTES,
            idx <= copy_count(start, bytes@.len() as int),
            forall|i: int|
                0 <= i < SECTOR_BYTES ==> #[trigger] image@[i] == (if start <= i < start + idx {
                    bytes@[i - start]
                } else {
                    before[i]
                }),
        decreases bytes@.len() - idx,
    {
        image[*offset] = bytes[idx];
        *offset += 1;
        idx += 1;
    }
    assert(idx == copy_count(start, bytes@.len() as int));
    assert(image@ =~= lay_bytes(before, start, bytes@));
}

/// Writes `key=value\n` into the sector image.
pub fn write_canonical_line_str(
    image: &mut [u8; SECTOR_BYTES],
    offset: &mut usize,
    key: &'static str,
    value: &str,
)
    ensures
        final(image)@ == lay_bytes(old(image)@, *old(offset) as int, line_str(key, value)),
        *final(offset) == *old(offset) + copy_count(
            *old(offset) as int,
            line_str(key, value).len() as int,
        ),
{
    proof {
        reveal(line_str);
    }
    let eq: [u8; 1] = [61u8];
    let nl: [u8; 1] = [10u8];
    let ghost o0 = *offset as int;
    let ghost i0 = image@;
    write_sector_image_bytes(image, offset, key.as_bytes());
    write_sector_image_bytes(image, offset, &eq);
    proof {
        lemma_lay_bytes_concat(i0, o0, key.spec_bytes(), eq_bytes());
    }
    write_sector_image_bytes(image, offset, value.as_bytes());
    proof {
        lemma_lay_bytes_concat(i0, o0, key.spec_bytes() + eq_bytes(), value.spec_bytes());
    }
    write_sector_image_bytes(image, offset, &nl);
    proof {
        lemma_lay_bytes_concat(
            i0,
            o0,
            key.spec_bytes() + eq_bytes() + value.spec_bytes(),
            newline_bytes(),
        );
    }
}

/// Writes `key=` the digest bytes and a line feed into the sector image.
pub fn write_canonical_line_hash(
    image: &mut [u8; SECTOR_BYTES],
    offset: &mut usize,
    key: &'static str,
    value: [u8; 32],
)
    ensures
        final(image)@ == lay_bytes(old(image)@, *old(offset) as int, line_hash(key, value@)),
        *final(offset) == *old(offset) + copy_count(
            *old(offset) as int,
            line_hash(key, value@).len() as int,
        ),
{
    proof {
        reveal(line_hash);
    }
    let eq: [u8; 1] = [61u8];
    let nl: [u8; 1] = [10u8];
    let ghost o0 = *offset as int;
    let ghost i0 = image@;
    write_sector_image_bytes(image, offset, key.as_bytes());
    write_sector_image_bytes(image, offset, &eq);
    proof {
        lemma_lay_bytes_concat(i0, o0, key.spec_bytes(), eq_bytes());
    }
    write_sector_image_bytes(image, offset, &value);
    proof {
        lemma_lay_bytes_concat(i0, o0, key.spec_bytes() + eq_bytes(), value@);
    }
    write_sector_image_bytes(image, offset, &nl);
    proof {
        lemma_lay_bytes_concat(i0, o0, key.spec_bytes() + eq_bytes() + value@, newline_bytes());
    }
}

/// Writes `key=true\n` or `key=false\n` into the sector image.
pub fn write_canonical_line_bool(
    image: &mut [u8; SECTOR_BYTES],
    offset: &mut usize,
    key: &'static str,
    value: bool,
)
    ensures
        final(image)@ == lay_bytes(old(image)@, *old(offset) as int, line_bool(key, value)),
        *final(offset) == *old(offset) + copy_count(
            *old(offset) as int,
            line_bool(key, value).len() as int,
        ),
{
    proof {
        reveal(line_bool);
    }
    let ghost o0 = *offset as int;
    let ghost i0 = image@;
    write_sector_image_bytes(image, offset, key.as_bytes());
    if value {
        let suffix: [u8; 6] = [61u8, 116u8, 114u8, 117u8, 101u8, 10u8];
        write_sector_image_bytes(image, offset, &suffix);
        assert(suffix@ =~= true_suffix());
    } else {
        let suffix: [u8; 7] = [61u8, 102u8, 97u8, 108u8, 115u8, 101u8, 10u8];
        write_sector_image_bytes(image, offset, &suffix);
        assert(suffix@ =~= false_suffix());
    }
    proof {
        lemma_lay_bytes_concat(
            i0,
            o0,
            key.spec_bytes(),
            if value {
                true_suffix()
            } else {
                false_suffix()
            },
        );
    }
}

} // verus!
