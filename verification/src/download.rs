//! A download in progress: how much of it has arrived, and the digest of what
//! has.

use vstd::prelude::*;
use sha2::Sha256;

verus! {

/// A SHA-256 hasher. The hasher's own type is an alias with type-level
/// numbers in it, which the verifier does not take, so it is held here and
/// reached only through the functions below.
#[verifier::external_body]
pub struct Sha256Hasher {
    inner: Sha256,
}

/// The bytes that a hasher has been fed so far, in order.
pub uninterp spec fn sha256_absorbed(hasher: Sha256Hasher) -> Seq<u8>;

/// The SHA-256 digest of `data`.
pub uninterp spec fn sha256_digest(data: Seq<u8>) -> Seq<u8>;

/// `Sha256::new`: a hasher that has been fed nothing.
#[verifier::external_body]
fn sha256_new() -> (hasher: Sha256Hasher)
    ensures
        sha256_absorbed(hasher) == Seq::<u8>::empty(),
{
    Sha256Hasher { inner: <Sha256 as sha2::Digest>::new() }
}

/// `Digest::update` on a `Sha256`: feeds the hasher `chunk`.
#[verifier::external_body]
fn sha256_update(hasher: &mut Sha256Hasher, chunk: &[u8])
    ensures
        sha256_absorbed(*final(hasher)) == sha256_absorbed(*old(hasher)) + chunk@,
{
    sha2::Digest::update(&mut hasher.inner, chunk)
}

/// `Digest::finalize` on a `Sha256`: the digest of all that the hasher was
/// fed, 32 bytes long.
#[verifier::external_body]
fn sha256_finalize(hasher: Sha256Hasher) -> (digest: Vec<u8>)
    ensures
        digest@ == sha256_digest(sha256_absorbed(hasher)),
        digest@.len() == 32,
{
    sha2::Digest::finalize(hasher.inner).to_vec()
}

/// A download over integers and bytes.
pub struct DownloadModel {
    /// Everything received so far.
    pub received: Seq<u8>,
    /// The length that was announced.
    pub total_size: int,
    /// The progress shown: the number of bytes received, but never more than
    /// was announced.
    pub downloaded: int,
}

/// A download in progress. The driver feeds it each chunk as it arrives and
/// asks for the digest at the end.
pub struct Download {
    hasher: Sha256Hasher,
    total_size: u64,
    downloaded: u64,
}

/// The smaller of two integers.
pub open spec fn smaller(a: int, b: int) -> int {
    if a <= b {
        a
    } else {
        b
    }
}

impl View for Download {
    type V = DownloadModel;

    closed spec fn view(&self) -> DownloadModel {
        DownloadModel {
            received: sha256_absorbed(self.hasher),
            total_size: self.total_size as int,
            downloaded: self.downloaded as int,
        }
    }
}

impl Download {
    /// Whether the progress shown is what the bytes received make it: their
    /// number, but never more than was announced. This holds of a new
    /// download and stays true as chunks are taken.
    pub open spec fn wf(&self) -> bool {
        self@.downloaded == smaller(self@.total_size, self@.received.len() as int)
    }

    /// A download of which nothing has arrived.
    pub fn new(total_size: u64) -> (d: Download)
        ensures
            d.wf(),
            d@ == (DownloadModel {
                received: Seq::empty(),
                total_size: total_size as int,
                downloaded: 0,
            }),
    {
        Download { hasher: sha256_new(), total_size, downloaded: 0 }
    }

    /// Takes the next chunk and returns the progress to show.
    pub fn absorb(&mut self, chunk: &[u8]) -> (downloaded: u64)
        ensures
            old(self).wf() ==> final(self).wf(),
            final(self)@.received == old(self)@.received + chunk@,
            final(self)@.total_size == old(self)@.total_size,
            final(self)@.downloaded == smaller(
                old(self)@.total_size,
                old(self)@.downloaded + chunk@.len(),
            ),
            downloaded == final(self)@.downloaded,
    {
        sha256_update(&mut self.hasher, chunk);
        let arrived = chunk.len() as u64;
        self.downloaded = match self.downloaded.checked_add(arrived) {
            Some(sum) => if sum < self.total_size {
                sum
            } else {
                self.total_size
            },
            None => self.total_size,
        };
        self.downloaded
    }

    /// The digest of everything received.
    pub fn finish(self) -> (digest: Vec<u8>)
        ensures
            digest@ == sha256_digest(self@.received),
            digest@.len() == 32,
    {
        sha256_finalize(self.hasher)
    }
}

/// The digest of a download that arrives in the given chunks.
pub fn digest_of_chunks(chunks: &Vec<Vec<u8>>, total_size: u64) -> (digest: Vec<u8>)
    ensures
        digest@ == sha256_digest(chunks@.map_values(|c: Vec<u8>| c@).flatten()),
        digest@.len() == 32,
{
    let mut download = Download::new(total_size);
    let mut i: usize = 0;
    let ghost parts = chunks@.map_values(|c: Vec<u8>| c@);
    proof {
        assert(parts.take(0) =~= Seq::<Seq<u8>>::empty());
    }
    while i < chunks.len()
        invariant
            i <= chunks.len(),
            parts == chunks@.map_values(|c: Vec<u8>| c@),
            download.wf(),
            download@.received == parts.take(i as int).flatten(),
        decreases chunks.len() - i,
    {
        proof {
            let upto = parts.take(i as int);
            assert(parts.take(i + 1) =~= upto.push(parts[i as int]));
            upto.lemma_flatten_push(parts[i as int]);
        }
        download.absorb(chunks[i].as_slice());
        i += 1;
    }
    proof {
        assert(parts.take(i as int) =~= parts);
    }
    download.finish()
}

} // verus!
