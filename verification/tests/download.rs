use gas_engine::checksum::validate_checksum;
use gas_engine::download::{digest_of_chunks, Download};

fn hex(digest: &[u8]) -> String {
    digest.iter().map(|b| format!("{:02x}", b)).collect()
}

#[test]
fn digest_of_nothing() {
    let download = Download::new(0);
    assert_eq!(
        hex(&download.finish()),
        "e3b0c44298fc1c149afbf4c8996fb92427ae41e4649b934ca495991b7852b855"
    );
}

#[test]
fn digest_does_not_depend_on_the_chunking() {
    let abc = "ba7816bf8f01cfea414140de5dae2223b00361a396177a9cb410ff61f20015ad";
    let mut whole = Download::new(3);
    assert_eq!(whole.absorb(b"abc"), 3);
    assert_eq!(hex(&whole.finish()), abc);

    let mut parts = Download::new(3);
    assert_eq!(parts.absorb(b"a"), 1);
    assert_eq!(parts.absorb(b""), 1);
    assert_eq!(parts.absorb(b"bc"), 3);
    assert_eq!(hex(&parts.finish()), abc);

    let chunks = vec![b"ab".to_vec(), Vec::new(), b"c".to_vec()];
    assert_eq!(hex(&digest_of_chunks(&chunks, 3)), abc);
    assert_eq!(digest_of_chunks(&chunks, 3).len(), 32);
    assert_ne!(hex(&digest_of_chunks(&vec![b"ab".to_vec()], 3)), abc);
}

#[test]
fn progress_never_passes_the_announced_length() {
    let mut download = Download::new(5);
    assert_eq!(download.absorb(b"abc"), 3);
    assert_eq!(download.absorb(b"def"), 5);
    assert_eq!(download.absorb(b"ghi"), 5);
    // the digest still covers everything that arrived
    let mut all = Download::new(100);
    assert_eq!(all.absorb(b"abcdefghi"), 9);
    assert!(validate_checksum(&all.finish(), &download.finish()).is_ok());

    let mut full = Download::new(u64::MAX);
    assert_eq!(full.absorb(b"abc"), 3);
    let mut empty = Download::new(0);
    assert_eq!(empty.absorb(b"abc"), 0);
}
