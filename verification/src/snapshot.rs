//! Fetching a chain snapshot: where it comes from, what it is called on disk,
//! where its checksum lies, and whether the download matches it.

use vstd::prelude::*;
use vstd::string::*;
use reqwest::Url;
use crate::checksum::{
    checksum_from_file,
    checksum_from_file_outcome,
    hex_decoded,
    hex_digits_before,
    validate_checksum,
    validate_checksum_outcome,
    ChecksumError,
};

verus! {

/// `reqwest::Url`, carried as a value that only the functions below look
/// into.
#[verifier::external_type_specification]
#[verifier::external_body]
pub struct ExUrl(Url);

/// The text of a URL, as `Url::as_str` gives it.
pub uninterp spec fn url_text(url: Url) -> Seq<char>;

/// The path segments of the URL with the given text, as `Url::path_segments`
/// yields them; nothing for a URL whose path does not start with a slash.
pub uninterp spec fn url_path_segments(text: Seq<char>) -> Option<Seq<Seq<char>>>;

/// The text of the URL that comes of the URL with the given text when its
/// last path segment is popped and `name` is pushed in its place.
pub uninterp spec fn url_replacing_last_segment(text: Seq<char>, name: Seq<char>) -> Seq<char>;

/// The texts of the strings of `v`.
pub open spec fn strings_model(v: Seq<String>) -> Seq<Seq<char>> {
    v.map_values(|s: String| s@)
}

/// `Url::path_segments`, gathered into a vector. Where the URL has path
/// segments there is at least one, which may be empty.
#[verifier::external_body]
fn path_segments(url: &Url) -> (r: Option<Vec<String>>)
    ensures
        match r {
            Some(v) => url_path_segments(url_text(*url)) == Some(strings_model(v@)) && v@.len()
                >= 1,
            None => url_path_segments(url_text(*url)) is None,
        },
{
    url.path_segments().map(|segments| segments.map(|s| s.to_owned()).collect())
}

/// `Url::path_segments_mut` with `pop` and `push`: replaces the last path
/// segment of the URL by `name`. Asked only of a URL that has path segments;
/// such a URL can be a base, so the segments can be changed.
#[verifier::external_body]
fn replace_last_segment(url: Url, name: &str) -> (r: Url)
    requires
        url_path_segments(url_text(url)) is Some,
    ensures
        url_text(r) == url_replacing_last_segment(url_text(url), name@),
{
    let mut url = url;
    if let Ok(mut segments) = url.path_segments_mut() {
        segments.pop().push(name);
    }
    url
}

/// Why a URL does not name a file, or not one whose extension can be changed.
#[derive(Debug, Clone, Copy, PartialEq, Eq, Structural)]
pub enum UrlError {
    /// The URL has no path segments.
    NoPathSegments,
    /// The last path segment is empty: the URL names no resource.
    NoFilename,
    /// The last path segment has no dot in it.
    NoExtension,
}

/// The name of the resource that a URL with the given path segments points
/// to: its last segment, unless there is none or it is empty.
pub open spec fn filename_of(segments: Option<Seq<Seq<char>>>) -> Result<Seq<char>, UrlError> {
    match segments {
        None => Err(UrlError::NoPathSegments),
        Some(s) => if s.len() == 0 || s.last().len() == 0 {
            Err(UrlError::NoFilename)
        } else {
            Ok(s.last())
        },
    }
}

/// The texts of the path segments in `segments`, where there are any.
pub open spec fn segments_model(segments: Option<Vec<String>>) -> Option<Seq<Seq<char>>> {
    match segments {
        Some(v) => Some(strings_model(v@)),
        None => None,
    }
}

/// A result with its string replaced by the string's text.
pub open spec fn string_result_model<E>(r: Result<String, E>) -> Result<Seq<char>, E> {
    match r {
        Ok(s) => Ok(s@),
        Err(e) => Err(e),
    }
}

/// A result with its URL replaced by the URL's text.
pub open spec fn url_result_model<E>(r: Result<Url, E>) -> Result<Seq<char>, E> {
    match r {
        Ok(u) => Ok(url_text(u)),
        Err(e) => Err(e),
    }
}

/// Picks the name of the resource out of the path segments of a URL: the
/// last segment. Fails where the URL has no path segments, and where there
/// is no last segment or it is empty.
pub fn filename_from_segments(segments: Option<Vec<String>>) -> (r: Result<String, UrlError>)
    ensures
        string_result_model(r) == filename_of(segments_model(segments)),
{
    let segments = match segments {
        Some(segments) => segments,
        None => {
            return Err(UrlError::NoPathSegments);
        },
    };
    if segments.len() == 0 {
        return Err(UrlError::NoFilename);
    }
    let filename = segments[segments.len() - 1].clone();
    assert(strings_model(segments@).last() == segments@[segments.len() - 1]@);
    if filename.as_str().unicode_len() == 0 {
        Err(UrlError::NoFilename)
    } else {
        Ok(filename)
    }
}

/// Extracts the name of the resource from a URL: its last path segment.
/// Fails where the URL has no path segments or the last one is empty.
pub fn filename_from_url(url: &Url) -> (r: Result<String, UrlError>)
    ensures
        string_result_model(r) == filename_of(url_path_segments(url_text(*url))),
{
    filename_from_segments(path_segments(url))
}

/// Whether position `i` holds the last dot of `name`.
pub open spec fn is_last_dot(name: Seq<char>, i: int) -> bool {
    &&& 0 <= i < name.len()
    &&& name[i] == '.'
    &&& forall|j: int| i < j < name.len() ==> name[j] != '.'
}

/// Whether `name` has a dot in it.
pub open spec fn has_dot(name: Seq<char>) -> bool {
    exists|i: int| 0 <= i < name.len() && name[i] == '.'
}

/// `name` with everything behind position `dot` replaced by `extension`.
pub open spec fn renamed_at(name: Seq<char>, dot: int, extension: Seq<char>) -> Seq<char> {
    name.subrange(0, dot).push('.') + extension
}

/// `name` with what follows its last dot replaced by `extension`; nothing
/// where it has no dot.
pub open spec fn with_extension(name: Seq<char>, extension: Seq<char>) -> Option<Seq<char>> {
    if exists|i: int| is_last_dot(name, i) {
        Some(renamed_at(name, choose|i: int| is_last_dot(name, i), extension))
    } else {
        None
    }
}

/// The text of the URL with another extension, for a URL of the given text.
pub open spec fn extension_replaced(text: Seq<char>, extension: Seq<char>) -> Result<
    Seq<char>,
    UrlError,
> {
    match url_path_segments(text) {
        None => Err(UrlError::NoPathSegments),
        Some(s) => match with_extension(s.last(), extension) {
            None => Err(UrlError::NoExtension),
            Some(name) => Ok(url_replacing_last_segment(text, name)),
        },
    }
}

/// A name has at most one last dot, and has one exactly when it has a dot.
pub proof fn lemma_last_dot(name: Seq<char>)
    ensures
        has_dot(name) <==> exists|i: int| is_last_dot(name, i),
        forall|i: int, j: int| is_last_dot(name, i) && is_last_dot(name, j) ==> i == j,
{
    if has_dot(name) {
        let d = choose|i: int| 0 <= i < name.len() && name[i] == '.';
        lemma_last_dot_from(name, d);
    }
}

/// Behind a dot there is a last dot.
proof fn lemma_last_dot_from(name: Seq<char>, d: int)
    requires
        0 <= d < name.len(),
        name[d] == '.',
    ensures
        exists|i: int| is_last_dot(name, i),
    decreases name.len() - d,
{
    if exists|j: int| d < j < name.len() && name[j] == '.' {
        let j = choose|j: int| d < j < name.len() && name[j] == '.';
        lemma_last_dot_from(name, j);
    } else {
        assert(is_last_dot(name, d));
    }
}

/// Replaces what follows the last dot of `name` by `extension`; nothing where
/// `name` has no dot.
pub fn replace_extension(name: &str, extension: &str) -> (r: Option<String>)
    ensures
        match r {
            Some(s) => with_extension(name@, extension@) == Some(s@),
            None => with_extension(name@, extension@) is None,
        },
{
    proof {
        lemma_last_dot(name@);
    }
    let mut i: usize = name.unicode_len();
    while i > 0
        invariant
            i <= name@.len(),
            forall|j: int| i <= j < name@.len() ==> name@[j] != '.',
        decreases i,
    {
        i -= 1;
        if name.get_char(i) == '.' {
            assert(is_last_dot(name@, i as int));
            let mut renamed = String::from_str(name.substring_char(0, i));
            renamed.append(".");
            renamed.append(extension);
            proof {
                reveal_strlit(".");
                assert("."@ =~= seq!['.']);
                assert(renamed@ =~= renamed_at(name@, i as int, extension@));
            }
            return Some(renamed);
        }
    }
    assert(!has_dot(name@));
    None
}

/// The URL with the extension of its last path segment replaced: what
/// follows the last dot of that segment gives way to `extension`. Fails where
/// the URL has no path segments or the last one has no dot.
pub fn replace_extension_url(url: Url, extension: &str) -> (r: Result<Url, UrlError>)
    ensures
        url_result_model(r) == extension_replaced(url_text(url), extension@),
{
    let segments = match path_segments(&url) {
        Some(segments) => segments,
        None => {
            return Err(UrlError::NoPathSegments);
        },
    };
    assert(strings_model(segments@).last() == segments@[segments.len() - 1]@);
    let new_filename = match replace_extension(segments[segments.len() - 1].as_str(), extension) {
        Some(name) => name,
        None => {
            return Err(UrlError::NoExtension);
        },
    };
    Ok(replace_last_segment(url, new_filename.as_str()))
}

/// Where the snapshot of the main network is fetched from. The address is
/// expected to redirect once, and to have the digest of the snapshot beside
/// it, under the same name with the extension `sha256sum`.
pub const DEFAULT_MAINNET_SNAPSHOT_URL: &'static str =
    "https://fil-chain-snapshots-fallback.s3.amazonaws.com/mainnet/minimal_finality_stateroots_latest.car";

/// Extension of the file that holds a snapshot's digest.
pub const CHECKSUM_EXTENSION: &'static str = "sha256sum";

/// Length of a snapshot's digest in bytes.
pub const SNAPSHOT_DIGEST_LENGTH: usize = 32;

/// The text `s` in lower case, as `str::to_lowercase` gives it.
pub uninterp spec fn lowercased(s: Seq<char>) -> Seq<char>;

/// `str::to_lowercase`.
#[verifier::external_body]
fn lowercase(s: &str) -> (r: String)
    ensures
        r@ == lowercased(s@),
{
    s.to_lowercase()
}

/// Why a snapshot could not be fetched.
#[derive(Debug, Clone, PartialEq, Eq)]
pub enum FetchError {
    /// No snapshot is on offer for the chain of this name.
    UnsupportedChain { name: String },
    /// The server did not say how long the snapshot is.
    MissingContentLength,
    /// The snapshot's address names no file, or none with an extension.
    Url(UrlError),
    /// The digest that came with the snapshot could not be read, or the
    /// download does not match it.
    Checksum(ChecksumError),
}

/// The address of the snapshot for the chain of the given name. Only the
/// main network has one; its name is matched without regard to case.
pub fn snapshot_url_for_chain(chain_name: &str) -> (r: Result<&'static str, FetchError>)
    ensures
        match r {
            Ok(url) => lowercased(chain_name@) == "mainnet"@ && url@
                == DEFAULT_MAINNET_SNAPSHOT_URL@,
            Err(FetchError::UnsupportedChain { name }) => lowercased(chain_name@) != "mainnet"@
                && name@ == chain_name@,
            Err(_) => false,
        },
{
    let lower = lowercase(chain_name);
    if lower == String::from_str("mainnet") {
        Ok(DEFAULT_MAINNET_SNAPSHOT_URL)
    } else {
        Err(FetchError::UnsupportedChain { name: String::from_str(chain_name) })
    }
}

/// What is settled before a download starts.
pub struct DownloadPlan {
    /// Where the snapshot is fetched from.
    pub snapshot_url: Url,
    /// Length of the snapshot in bytes.
    pub total_size: u64,
    /// Name of the file that the snapshot is saved to.
    pub snapshot_name: String,
}

/// Settles a download from the answer to the first request: the snapshot
/// comes from the address that the answer redirects to, where it names one,
/// else from the address asked; the answer must give the length; and the
/// address must name a file.
pub fn plan_download(requested: Url, redirect: Option<Url>, content_length: Option<u64>) -> (r:
    Result<DownloadPlan, FetchError>)
    ensures
        ({
            let source = match redirect {
                Some(to) => to,
                None => requested,
            };
            match r {
                Ok(plan) => {
                    &&& content_length == Some(plan.total_size)
                    &&& plan.snapshot_url == source
                    &&& filename_of(url_path_segments(url_text(source))) == Ok::<
                        Seq<char>,
                        UrlError,
                    >(plan.snapshot_name@)
                },
                Err(FetchError::MissingContentLength) => content_length is None,
                Err(FetchError::Url(e)) => content_length is Some && filename_of(
                    url_path_segments(url_text(source)),
                ) == Err::<Seq<char>, UrlError>(e),
                Err(_) => false,
            }
        }),
{
    let snapshot_url = match redirect {
        Some(to) => to,
        None => requested,
    };
    let total_size = match content_length {
        Some(n) => n,
        None => {
            return Err(FetchError::MissingContentLength);
        },
    };
    let snapshot_name = match filename_from_url(&snapshot_url) {
        Ok(name) => name,
        Err(e) => {
            return Err(FetchError::Url(e));
        },
    };
    Ok(DownloadPlan { snapshot_url, total_size, snapshot_name })
}

/// The address of the digest that belongs to the snapshot at `snapshot_url`.
pub fn checksum_url(snapshot_url: Url) -> (r: Result<Url, FetchError>)
    ensures
        match r {
            Ok(url) => extension_replaced(url_text(snapshot_url), CHECKSUM_EXTENSION@) == Ok::<
                Seq<char>,
                UrlError,
            >(url_text(url)),
            Err(FetchError::Url(e)) => extension_replaced(
                url_text(snapshot_url),
                CHECKSUM_EXTENSION@,
            ) == Err::<Seq<char>, UrlError>(e),
            Err(_) => false,
        },
{
    match replace_extension_url(snapshot_url, CHECKSUM_EXTENSION) {
        Ok(url) => Ok(url),
        Err(e) => Err(FetchError::Url(e)),
    }
}

/// What `verify_snapshot_checksum` owes: the outcome of reading the digest
/// off the checksum file where that fails, else the outcome of holding the
/// digest computed against the one read.
pub open spec fn snapshot_checksum_outcome(
    checksum_file: Seq<u8>,
    snapshot_checksum: Seq<u8>,
    r: Result<(), FetchError>,
) -> bool {
    let wanted = 2 * SNAPSHOT_DIGEST_LENGTH;
    let readable = checksum_file.len() >= wanted && hex_digits_before(checksum_file, wanted);
    match r {
        Ok(()) => readable && hex_decoded(checksum_file.subrange(0, wanted))
            == snapshot_checksum,
        Err(FetchError::Checksum(e)) => if readable {
            validate_checksum_outcome(
                hex_decoded(checksum_file.subrange(0, wanted)),
                snapshot_checksum,
                Err(e),
            )
        } else {
            checksum_from_file_outcome(checksum_file, SNAPSHOT_DIGEST_LENGTH, Err(e))
        },
        Err(_) => false,
    }
}

/// Checks the digest of a download against the checksum file that came with
/// the snapshot: the file must start with a digest of
/// `SNAPSHOT_DIGEST_LENGTH` bytes in hexadecimal, and that digest must be
/// the one computed.
pub fn verify_snapshot_checksum(checksum_file: &[u8], snapshot_checksum: &[u8]) -> (r: Result<
    (),
    FetchError,
>)
    ensures
        snapshot_checksum_outcome(checksum_file@, snapshot_checksum@, r),
{
    let expected = match checksum_from_file(checksum_file, SNAPSHOT_DIGEST_LENGTH) {
        Ok(expected) => expected,
        Err(e) => {
            return Err(FetchError::Checksum(e));
        },
    };
    match validate_checksum(expected.as_slice(), snapshot_checksum) {
        Ok(()) => Ok(()),
        Err(e) => Err(FetchError::Checksum(e)),
    }
}

} // verus!
