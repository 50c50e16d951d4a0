use libprotonup::apps::AppInstallations;
use libprotonup::digest::{hash_check, sha512sum};
use libprotonup::errors::PipelineError;
use libprotonup::github::Release;
use libprotonup::pipeline::{
    archive_file_name, archive_kind, install, install_guarded, ArchiveKind, Destination,
    DownloadRequest, InstallOutcome, Pipeline, SimSource, Stage,
};
use libprotonup::progress::ProgressState;

fn release(version: &str, url: &str, size: u64) -> Release {
    Release {
        tag_name: version.to_string(),
        version: version.to_string(),
        download_url: url.to_string(),
        checksum_url: format!("{url}.sha512sum"),
        size_bytes: size,
    }
}

fn request(version: &str, url: &str, size: u64) -> DownloadRequest {
    DownloadRequest {
        installation: AppInstallations::Steam,
        release: release(version, url, size),
        destination: "~/.steam/steam/compatibilitytools.d/".to_string(),
    }
}

fn entries(names: &[&str]) -> Vec<String> {
    names.iter().map(|n| n.to_string()).collect()
}

/// A transfer that delivers `data` in two chunks with a matching checksum
/// payload in the usual `sha512sum` format: "<hex digest>  <file name>".
fn good_source(data: &[u8], files: &[&str]) -> SimSource {
    let digest = sha512sum(&data.to_vec());
    let mut payload = digest;
    payload.extend_from_slice(b"  tool.tar.gz\n");
    let mid = data.len() / 2;
    SimSource {
        chunks: vec![data[..mid].to_vec(), data[mid..].to_vec()],
        transport_ok: true,
        checksum: Some(payload),
        entries: entries(files),
        intact: true,
    }
}

#[test]
fn known_sha512_vectors() {
    let abc = sha512sum(&b"abc".to_vec());
    assert_eq!(
        String::from_utf8(abc).unwrap(),
        "ddaf35a193617abacc417349ae20413112e6fa4e89a97ea20a9eeee64b55d39a\
         2192992a274fc1a836ba3c23a3feebbd454d4423643ce80e2a9ac94fa54ca49f"
            .replace(' ', "")
    );
    let empty = sha512sum(&Vec::new());
    assert_eq!(
        String::from_utf8(empty).unwrap(),
        "cf83e1357eefb8bdf1542850d66d8007d620e4050b5715dc83f4a921d36ce9ce\
         47d0d13c5d85f2b0ff8318d2877eec2f63b931bd47417a81a538327af927da3e"
            .replace(' ', "")
    );
}

#[test]
fn hash_check_accepts_matching_payload() {
    let data = b"some archive bytes".to_vec();
    let mut payload = sha512sum(&data);
    payload.extend_from_slice(b"  tool.tar.gz\n");
    assert!(hash_check(&data, &payload));
}

#[test]
fn hash_check_rejects_wrong_payload() {
    let data = b"some archive bytes".to_vec();
    let mut payload = sha512sum(&b"other bytes".to_vec());
    payload.extend_from_slice(b"  tool.tar.gz\n");
    assert!(!hash_check(&data, &payload));
    // A payload that is not even a digest is rejected too.
    assert!(!hash_check(&data, &b"not a digest\n".to_vec()));
    assert!(!hash_check(&data, &Vec::new()));
}

#[test]
fn digest_mismatch_prevents_extraction() {
    let data = b"archive content".to_vec();
    let req = request("GE-Proton9-1", "https://example.invalid/a.tar.gz", data.len() as u64);
    let mut source = good_source(&data, &["files/a", "files/b"]);
    // A deliberately wrong checksum: the digest of different bytes.
    let mut wrong = sha512sum(&b"tampered".to_vec());
    wrong.extend_from_slice(b"  tool.tar.gz\n");
    source.checksum = Some(wrong);
    let mut dest = Destination::new();
    let (res, progress) = install(&req, &source, &mut dest);
    assert_eq!(res.unwrap_err(), PipelineError::Verification);
    // The destination gained no new files.
    assert!(!dest.has_version("GE-Proton9-1"));
    assert!(dest.version_files("GE-Proton9-1").is_none());
    assert!(progress.is_done());
}

#[test]
fn successful_install_reaches_exact_progress() {
    let data = b"0123456789abcdef0123456789".to_vec();
    let req = request("GE-Proton9-2", "https://example.invalid/b.tar.gz", data.len() as u64);
    let source = good_source(&data, &["proton", "files/x"]);
    let mut dest = Destination::new();
    let (res, progress) = install(&req, &source, &mut dest);
    assert!(res.is_ok());
    assert!(progress.is_done());
    // Once done, the counter equals the release's byte count exactly.
    assert_eq!(progress.bytes_done(), req.release.size_bytes);
    assert_eq!(
        dest.version_files("GE-Proton9-2").unwrap(),
        entries(&["proton", "files/x"])
    );
}

#[test]
fn progress_reads_are_monotonic() {
    let mut p = ProgressState::new();
    let mut last = p.bytes_done();
    assert_eq!(last, 0);
    assert!(!p.is_done());
    for n in [0u64, 5, 1, 0, 1000, 3] {
        p.record_chunk(n);
        let now = p.bytes_done();
        assert!(now >= last);
        last = now;
    }
    p.reconcile(2000);
    assert!(p.bytes_done() >= last);
    p.complete();
    assert!(p.is_done());
    assert_eq!(p.bytes_done(), 2000);
}

#[test]
fn transport_failure_is_network_error() {
    let data = b"partial".to_vec();
    let req = request("v1", "https://example.invalid/v1.tar.gz", data.len() as u64);
    let mut source = good_source(&data, &["a"]);
    source.transport_ok = false;
    let mut dest = Destination::new();
    let (res, progress) = install(&req, &source, &mut dest);
    assert_eq!(res.unwrap_err(), PipelineError::Network);
    assert!(!dest.has_version("v1"));
    // The counter stands where the stream broke; the flag is set.
    assert!(progress.is_done());
    assert_eq!(progress.bytes_done(), data.len() as u64);
}

#[test]
fn checksum_fetch_failure_is_network_error() {
    let data = b"payload".to_vec();
    let req = request("v1", "https://example.invalid/v1.tar.gz", data.len() as u64);
    let mut source = good_source(&data, &["a"]);
    source.checksum = None;
    let mut dest = Destination::new();
    let (res, _) = install(&req, &source, &mut dest);
    assert_eq!(res.unwrap_err(), PipelineError::Network);
    assert!(!dest.has_version("v1"));
}

#[test]
fn unknown_extension_is_extraction_error() {
    let data = b"payload".to_vec();
    let req = request("v1", "https://example.invalid/v1.zip", data.len() as u64);
    let source = good_source(&data, &["a"]);
    let mut dest = Destination::new();
    let (res, _) = install(&req, &source, &mut dest);
    assert_eq!(res.unwrap_err(), PipelineError::Extraction);
    assert!(!dest.has_version("v1"));
}

#[test]
fn corrupt_archive_is_extraction_error() {
    let data = b"payload".to_vec();
    let req = request("v1", "https://example.invalid/v1.tar.xz", data.len() as u64);
    let mut source = good_source(&data, &["a"]);
    source.intact = false;
    let mut dest = Destination::new();
    let (res, _) = install(&req, &source, &mut dest);
    assert_eq!(res.unwrap_err(), PipelineError::Extraction);
    assert!(!dest.has_version("v1"));
}

#[test]
fn second_install_without_overwrite_is_skipped() {
    let data = b"release bytes".to_vec();
    let req = request("GE-Proton9-3", "https://example.invalid/c.tar.gz", data.len() as u64);
    let source = good_source(&data, &["first/a", "first/b"]);
    let mut dest = Destination::new();
    let (outcome, progress) = install_guarded(&req, false, &source, &mut dest);
    assert_eq!(outcome, InstallOutcome::Installed);
    assert!(progress.is_some());
    let before = dest.version_files("GE-Proton9-3").unwrap();

    // Second run, same resolved release, no overwrite: nothing happens.
    let source2 = good_source(&data, &["second/era"]);
    let (outcome2, progress2) = install_guarded(&req, false, &source2, &mut dest);
    assert_eq!(outcome2, InstallOutcome::SkippedExisting);
    assert!(progress2.is_none());
    assert_eq!(dest.version_files("GE-Proton9-3").unwrap(), before);
}

#[test]
fn overwrite_fully_replaces_contents() {
    let data = b"release bytes".to_vec();
    let req = request("GE-Proton9-4", "https://example.invalid/d.tar.gz", data.len() as u64);
    let source = good_source(&data, &["old/a", "old/b", "old/c"]);
    let mut dest = Destination::new();
    let (outcome, _) = install_guarded(&req, false, &source, &mut dest);
    assert_eq!(outcome, InstallOutcome::Installed);

    let source2 = good_source(&data, &["new/only"]);
    let (outcome2, _) = install_guarded(&req, true, &source2, &mut dest);
    assert_eq!(outcome2, InstallOutcome::Installed);
    assert_eq!(dest.version_files("GE-Proton9-4").unwrap(), entries(&["new/only"]));
}

#[test]
fn guarded_install_on_fresh_destination_runs() {
    let data = b"x".to_vec();
    let req = request("v7", "https://example.invalid/v7.tar.gz", 1);
    let source = good_source(&data, &["f"]);
    let mut dest = Destination::new();
    dest.add_version("other-version".to_string(), entries(&["keep"]));
    let (outcome, _) = install_guarded(&req, false, &source, &mut dest);
    assert_eq!(outcome, InstallOutcome::Installed);
    // Pre-existing unrelated versions are untouched.
    assert_eq!(dest.version_files("other-version").unwrap(), entries(&["keep"]));
    assert!(dest.has_version("v7"));
}

#[test]
fn stage_machine_walks_in_order() {
    let mut pl = Pipeline::new();
    assert_eq!(pl.stage(), Stage::Pending);
    assert_eq!(pl.progress().bytes_done(), 0);
    assert!(!pl.progress().is_done());
    pl.start();
    assert_eq!(pl.stage(), Stage::Downloading);
    pl.chunk_written(10);
    pl.chunk_written(5);
    assert_eq!(pl.progress().bytes_done(), 15);
    pl.finish_download(16);
    assert_eq!(pl.stage(), Stage::Verifying);
    assert_eq!(pl.progress().bytes_done(), 16);
    pl.verify_passed();
    assert_eq!(pl.stage(), Stage::Extracting);
    pl.extraction_done();
    assert_eq!(pl.stage(), Stage::Done);
    assert!(pl.progress().is_done());
}

#[test]
fn stage_machine_failure_is_terminal() {
    let mut pl = Pipeline::new();
    pl.start();
    pl.chunk_written(4);
    pl.fail(PipelineError::Network);
    assert_eq!(pl.stage(), Stage::Failed(PipelineError::Network));
    assert!(pl.progress().is_done());
    assert_eq!(pl.progress().bytes_done(), 4);
}

#[test]
fn archive_kind_detection() {
    assert_eq!(archive_kind("https://example.invalid/a.tar.gz"), Some(ArchiveKind::TarGz));
    assert_eq!(archive_kind("https://example.invalid/a.tar.xz"), Some(ArchiveKind::TarXz));
    assert_eq!(archive_kind("https://example.invalid/a.zip"), None);
    assert_eq!(archive_kind("tar.gz"), None);
}

#[test]
fn archive_file_names() {
    assert_eq!(
        archive_file_name("GE-Proton9-5", "https://example.invalid/x.tar.gz").unwrap(),
        "GE-Proton9-5.tar.gz"
    );
    assert_eq!(
        archive_file_name("GE-Proton9-5", "https://example.invalid/x.tar.xz").unwrap(),
        "GE-Proton9-5.tar.xz"
    );
    assert!(archive_file_name("GE-Proton9-5", "https://example.invalid/x.7z").is_none());
}

#[test]
fn error_labels() {
    assert_eq!(PipelineError::Network.label(), "network error");
    assert_eq!(PipelineError::Parse.label(), "parse error");
    assert_eq!(PipelineError::AssetNotFound.label(), "asset not found");
    assert_eq!(PipelineError::Verification.label(), "verification error");
    assert_eq!(PipelineError::Extraction.label(), "extraction error");
    assert_eq!(PipelineError::Filesystem.label(), "filesystem error");
}
