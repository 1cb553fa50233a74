//! Proof parameter files and the check of their digest.
//!
//! A parameter file is known by the first `PROOF_DIGEST_LEN` bytes of its
//! BLAKE2b digest.

use vstd::prelude::*;
use vstd::slice::*;
use blake2b_simd::State as Blake2b;
use crate::checksum::bytes_equal;

verus! {

/// Number of bytes of the digest that a parameter file is known by.
pub const PROOF_DIGEST_LEN: usize = 16;

/// Name of the directory that holds the parameter files, below the data
/// directory.
pub const PARAM_DIR: &'static str = "filecoin-proof-parameters";

/// What is known of one parameter file.
#[derive(Debug, Clone, PartialEq, Eq)]
pub struct ParameterData {
    /// Content identifier of the file, in its text form.
    pub cid: String,
    /// The start of the file's digest.
    pub digest: [u8; 16],
    /// Size of the sectors that the parameters are for.
    pub sector_size: u64,
}

/// Why a parameter file was not accepted.
#[derive(Debug, Clone, PartialEq, Eq)]
pub enum ParameterError {
    /// The hasher gave fewer bytes than a digest is known by.
    InvalidDigestLength,
    /// The file's digest is not the one on record.
    ChecksumMismatch { actual: Vec<u8>, expected: Vec<u8> },
}

/// `blake2b_simd::State`, a BLAKE2b hasher, carried as a value that only
/// the functions below look into.
#[verifier::external_type_specification]
#[verifier::external_body]
pub struct ExBlake2b(Blake2b);

/// The bytes that a hasher has been fed so far, in order.
pub uninterp spec fn blake2b_absorbed(hasher: Blake2b) -> Seq<u8>;

/// The BLAKE2b digest of `data`, at the full length of 64 bytes and without
/// key, salt or personalisation.
pub uninterp spec fn blake2b_digest(data: Seq<u8>) -> Seq<u8>;

/// `blake2b_simd::State::new`: a hasher with the default parameters that has been fed
/// nothing.
#[verifier::external_body]
fn blake2b_new() -> (hasher: Blake2b)
    ensures
        blake2b_absorbed(hasher) == Seq::<u8>::empty(),
{
    Blake2b::new()
}

/// `blake2b_simd::State::update`: feeds the hasher `chunk`.
#[verifier::external_body]
fn blake2b_update(hasher: &mut Blake2b, chunk: &[u8])
    ensures
        blake2b_absorbed(*final(hasher)) == blake2b_absorbed(*old(hasher)) + chunk@,
{
    hasher.update(chunk);
}

/// `blake2b_simd::State::finalize` with `Hash::as_bytes`: the digest of all that the hasher
/// was fed, 64 bytes long.
#[verifier::external_body]
fn blake2b_finalize(hasher: &Blake2b) -> (digest: Vec<u8>)
    ensures
        digest@ == blake2b_digest(blake2b_absorbed(*hasher)),
        digest@.len() == 64,
{
    hasher.finalize().as_bytes().to_vec()
}

/// Whether a file with the digest `hash` is the file that `expected` is on
/// record for: the first `PROOF_DIGEST_LEN` bytes of `hash` are `expected`.
pub open spec fn digest_matches(expected: Seq<u8>, hash: Seq<u8>) -> bool {
    hash.len() >= PROOF_DIGEST_LEN && hash.subrange(0, PROOF_DIGEST_LEN as int) == expected
}

/// What the check of a digest owes.
pub open spec fn digest_check_outcome(
    expected: Seq<u8>,
    hash: Seq<u8>,
    r: Result<(), ParameterError>,
) -> bool {
    match r {
        Ok(()) => digest_matches(expected, hash),
        Err(ParameterError::InvalidDigestLength) => hash.len() < PROOF_DIGEST_LEN,
        Err(ParameterError::ChecksumMismatch { actual, expected: e }) => {
            &&& hash.len() >= PROOF_DIGEST_LEN
            &&& actual@ == hash.subrange(0, PROOF_DIGEST_LEN as int)
            &&& e@ == expected
            &&& actual@ != expected
        },
    }
}

/// Checks the digest `hash` of a parameter file against the record `info`.
pub fn check_parameter_digest(info: &ParameterData, hash: &[u8]) -> (r: Result<
    (),
    ParameterError,
>)
    ensures
        digest_check_outcome(info.digest@, hash@, r),
{
    if hash.len() < PROOF_DIGEST_LEN {
        return Err(ParameterError::InvalidDigestLength);
    }
    let hash_chunk = slice_subrange(hash, 0, PROOF_DIGEST_LEN);
    if bytes_equal(info.digest.as_slice(), hash_chunk) {
        Ok(())
    } else {
        Err(
            ParameterError::ChecksumMismatch {
                actual: slice_to_vec(hash_chunk),
                expected: slice_to_vec(info.digest.as_slice()),
            },
        )
    }
}

/// The check of a parameter file in progress. The driver feeds it the file
/// chunk by chunk and asks for the verdict at the end.
pub struct ParameterCheck {
    hasher: Blake2b,
}

impl View for ParameterCheck {
    type V = Seq<u8>;

    /// The part of the file read so far.
    closed spec fn view(&self) -> Seq<u8> {
        blake2b_absorbed(self.hasher)
    }
}

impl ParameterCheck {
    /// A check that has read nothing yet.
    pub fn new() -> (c: ParameterCheck)
        ensures
            c@ == Seq::<u8>::empty(),
    {
        ParameterCheck { hasher: blake2b_new() }
    }

    /// Reads the next chunk of the file.
    pub fn absorb(&mut self, chunk: &[u8])
        ensures
            final(self)@ == old(self)@ + chunk@,
    {
        blake2b_update(&mut self.hasher, chunk);
    }

    /// The verdict on the file read: whether its digest is the one that
    /// `info` has on record.
    pub fn finish(&self, info: &ParameterData) -> (r: Result<(), ParameterError>)
        ensures
            digest_check_outcome(info.digest@, blake2b_digest(self@), r),
            !(r is Err && r->Err_0 is InvalidDigestLength),
    {
        let hash = blake2b_finalize(&self.hasher);
        check_parameter_digest(info, hash.as_slice())
    }
}

/// Checks a parameter file that is held in memory against the record `info`.
/// With `trust_params` set the file is taken as it is, which is not for
/// production use.
pub fn check_parameter_bytes(content: &[u8], info: &ParameterData, trust_params: bool) -> (r:
    Result<(), ParameterError>)
    ensures
        trust_params ==> r is Ok,
        !trust_params ==> digest_check_outcome(info.digest@, blake2b_digest(content@), r),
        !trust_params ==> (r is Ok <==> blake2b_digest(content@).subrange(
            0,
            PROOF_DIGEST_LEN as int,
        ) == info.digest@),
{
    if trust_params {
        return Ok(());
    }
    let mut check = ParameterCheck::new();
    check.absorb(content);
    assert(Seq::<u8>::empty() + content@ =~= content@);
    check.finish(info)
}

} // verus!
