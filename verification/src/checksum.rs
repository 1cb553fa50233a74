//! Checksums as they travel with a snapshot: a file that starts with the
//! digest in hexadecimal, and the comparison of two digests.

use vstd::prelude::*;
use vstd::slice::*;

verus! {

/// Whether `c` is an ASCII hexadecimal digit, in either case.
pub open spec fn is_hex_digit(c: u8) -> bool {
    (0x30 <= c <= 0x39) || (0x41 <= c <= 0x46) || (0x61 <= c <= 0x66)
}

/// The number that the hexadecimal digit `c` stands for.
pub open spec fn hex_digit_value(c: u8) -> int {
    if 0x30 <= c <= 0x39 {
        c - 0x30
    } else if 0x41 <= c <= 0x46 {
        c - 0x41 + 10
    } else {
        c - 0x61 + 10
    }
}

/// Whether every byte before position `n` of `s` is a hexadecimal digit.
pub open spec fn hex_digits_before(s: Seq<u8>, n: int) -> bool {
    forall|i: int| 0 <= i < n ==> is_hex_digit(#[trigger] s[i])
}

/// The bytes that the hexadecimal text `s` spells, two digits to a byte, the
/// high digit first.
pub open spec fn hex_decoded(s: Seq<u8>) -> Seq<u8> {
    Seq::new(
        (s.len() / 2) as nat,
        |i: int| (16 * hex_digit_value(s[2 * i]) + hex_digit_value(s[2 * i + 1])) as u8,
    )
}

/// The sixteen lower-case hexadecimal digits in order.
pub open spec fn hex_alphabet() -> Seq<char> {
    seq!['0', '1', '2', '3', '4', '5', '6', '7', '8', '9', 'a', 'b', 'c', 'd', 'e', 'f']
}

/// The lower-case hexadecimal text of `bytes`, two digits to a byte, the high
/// digit first.
pub open spec fn hex_encoded(bytes: Seq<u8>) -> Seq<char> {
    Seq::new(
        2 * bytes.len(),
        |i: int|
            if i % 2 == 0 {
                hex_alphabet()[(bytes[i / 2] / 16) as int]
            } else {
                hex_alphabet()[(bytes[i / 2] % 16) as int]
            },
    )
}

/// Why hexadecimal text could not be decoded.
#[derive(Debug, Clone, Copy, PartialEq, Eq)]
pub enum HexError {
    /// The byte `c` at position `index` is not a hexadecimal digit.
    InvalidHexCharacter { c: char, index: usize },
    /// The text has an odd number of digits.
    OddLength,
    /// The text does not fill the container it is decoded into.
    InvalidStringLength,
}

/// Why a checksum could not be read or did not match.
#[derive(Debug, Clone, PartialEq, Eq)]
pub enum ChecksumError {
    /// The content holds fewer than two digits for each byte of the digest.
    InvalidContent { content_length: usize, digest_length: usize },
    /// The digits could not be decoded.
    Hex(HexError),
    /// The two digests differ; both are given in hexadecimal.
    Mismatch { actual: String, expected: String },
}

/// What `hex_decode` owes for the text `data` and the outcome `r`.
pub open spec fn hex_decode_outcome(data: Seq<u8>, r: Result<Vec<u8>, HexError>) -> bool {
    match r {
        Ok(bytes) => {
            &&& data.len() % 2 == 0
            &&& hex_digits_before(data, data.len() as int)
            &&& bytes@ == hex_decoded(data)
        },
        Err(HexError::OddLength) => data.len() % 2 != 0,
        Err(HexError::InvalidHexCharacter { c, index }) => {
            &&& data.len() % 2 == 0
            &&& index < data.len()
            &&& hex_digits_before(data, index as int)
            &&& !is_hex_digit(data[index as int])
            &&& c == data[index as int] as char
        },
        Err(HexError::InvalidStringLength) => false,
    }
}

/// `hex::decode` on a byte slice. Text of odd length is refused; otherwise
/// each pair of digits gives one byte, and the first byte that is no digit is
/// reported with its position.
#[verifier::external_body]
fn hex_decode(data: &[u8]) -> (r: Result<Vec<u8>, HexError>)
    ensures
        hex_decode_outcome(data@, r),
{
    match hex::decode(data) {
        Ok(bytes) => Ok(bytes),
        Err(hex::FromHexError::InvalidHexCharacter { c, index }) => {
            Err(HexError::InvalidHexCharacter { c, index })
        },
        Err(hex::FromHexError::OddLength) => Err(HexError::OddLength),
        Err(hex::FromHexError::InvalidStringLength) => Err(HexError::InvalidStringLength),
    }
}

/// `hex::encode` on a byte slice: two lower-case digits for each byte.
#[verifier::external_body]
fn hex_encode(data: &[u8]) -> (r: String)
    ensures
        r@ == hex_encoded(data@),
{
    hex::encode(data)
}

/// What `checksum_from_file` owes for `content`, a digest of `digest_length`
/// bytes and the outcome `r`.
pub open spec fn checksum_from_file_outcome(
    content: Seq<u8>,
    digest_length: usize,
    r: Result<Vec<u8>, ChecksumError>,
) -> bool {
    let wanted = 2 * digest_length;
    match r {
        Ok(digest) => {
            &&& content.len() >= wanted
            &&& hex_digits_before(content, wanted)
            &&& digest@ == hex_decoded(content.subrange(0, wanted))
        },
        Err(ChecksumError::InvalidContent { content_length, digest_length: d }) => {
            &&& content.len() < wanted
            &&& content_length == content.len()
            &&& d == digest_length
        },
        Err(ChecksumError::Hex(HexError::InvalidHexCharacter { c, index })) => {
            &&& content.len() >= wanted
            &&& index < wanted
            &&& hex_digits_before(content, index as int)
            &&& !is_hex_digit(content[index as int])
            &&& c == content[index as int] as char
        },
        Err(_) => false,
    }
}

/// Reads the digest at the start of a checksum file, which holds the digest in
/// hexadecimal and may go on with anything after it (commonly ` -`).
///
/// Only the first `2 * digest_length` bytes are looked at. Shorter content is
/// refused, and so is a byte among them that is no hexadecimal digit.
pub fn checksum_from_file(content: &[u8], digest_length: usize) -> (r: Result<
    Vec<u8>,
    ChecksumError,
>)
    ensures
        checksum_from_file_outcome(content@, digest_length, r),
{
    let too_short = ChecksumError::InvalidContent {
        content_length: content.len(),
        digest_length,
    };
    let wanted: usize = match digest_length.checked_mul(2) {
        Some(w) => w,
        None => {
            return Err(too_short);
        },
    };
    if content.len() < wanted {
        return Err(too_short);
    }
    let checksum_hex = slice_subrange(content, 0, wanted);
    proof {
        assert forall|n: int|
            0 <= n <= wanted && hex_digits_before(checksum_hex@, n) implies #[trigger]
            hex_digits_before(content@, n) by {
            assert forall|i: int| 0 <= i < n implies is_hex_digit(#[trigger] content@[i]) by {
                assert(content@[i] == checksum_hex@[i]);
            }
        }
    }
    match hex_decode(checksum_hex) {
        Ok(digest) => Ok(digest),
        Err(e) => Err(ChecksumError::Hex(e)),
    }
}

/// Whether two byte strings are the same.
pub fn bytes_equal(a: &[u8], b: &[u8]) -> (r: bool)
    ensures
        r == (a@ == b@),
{
    if a.len() != b.len() {
        return false;
    }
    let mut i: usize = 0;
    while i < a.len()
        invariant
            a.len() == b.len(),
            i <= a.len(),
            forall|j: int| 0 <= j < i ==> a@[j] == b@[j],
        decreases a.len() - i,
    {
        if a[i] != b[i] {
            return false;
        }
        i += 1;
    }
    assert(a@ =~= b@);
    true
}

/// What `validate_checksum` owes: success exactly when the two digests are
/// the same, and else an error that holds both in hexadecimal.
pub open spec fn validate_checksum_outcome(
    expected: Seq<u8>,
    actual: Seq<u8>,
    r: Result<(), ChecksumError>,
) -> bool {
    match r {
        Ok(()) => expected == actual,
        Err(ChecksumError::Mismatch { actual: a, expected: e }) => {
            &&& expected != actual
            &&& a@ == hex_encoded(actual)
            &&& e@ == hex_encoded(expected)
        },
        Err(_) => false,
    }
}

/// Checks the digest computed over a download against the one that came with
/// it. On a mismatch the error carries both in hexadecimal.
pub fn validate_checksum(expected_checksum: &[u8], actual_checksum: &[u8]) -> (r: Result<
    (),
    ChecksumError,
>)
    ensures
        validate_checksum_outcome(expected_checksum@, actual_checksum@, r),
{
    if !bytes_equal(actual_checksum, expected_checksum) {
        return Err(
            ChecksumError::Mismatch {
                actual: hex_encode(actual_checksum),
                expected: hex_encode(expected_checksum),
            },
        );
    }
    Ok(())
}

} // verus!
