use libprotonup::errors::PipelineError;
use libprotonup::github::{entry_release, list_releases, resolve_tag, FeedAsset, FeedEntry};

fn asset(name: &str, url: &str, size: u64) -> FeedAsset {
    FeedAsset { name: name.to_string(), url: url.to_string(), size }
}

fn entry(tag: &str, prerelease: bool, assets: Vec<FeedAsset>) -> FeedEntry {
    FeedEntry {
        tag_name: tag.to_string(),
        name: tag.to_string(),
        draft: false,
        prerelease,
        assets,
    }
}

fn two_release_feed() -> Vec<FeedEntry> {
    vec![
        entry(
            "v2",
            false,
            vec![
                asset("tool-v2.sha512sum", "https://example.invalid/v2.sha512sum", 100),
                asset("tool-v2.tar.gz", "https://example.invalid/v2.tar.gz", 4096),
            ],
        ),
        entry(
            "v1",
            false,
            vec![
                asset("tool-v1.tar.xz", "https://example.invalid/v1.tar.xz", 2048),
                asset("tool-v1.sha512sum", "https://example.invalid/v1.sha512sum", 100),
            ],
        ),
    ]
}

#[test]
fn resolve_latest_returns_first_published() {
    let feed = two_release_feed();
    let rel = resolve_tag("latest", &feed).unwrap();
    assert_eq!(rel.tag_name, "v2");
    assert_eq!(rel.download_url, "https://example.invalid/v2.tar.gz");
    assert_eq!(rel.checksum_url, "https://example.invalid/v2.sha512sum");
    assert_eq!(rel.size_bytes, 4096);
}

#[test]
fn resolve_explicit_tag() {
    let feed = two_release_feed();
    let rel = resolve_tag("v1", &feed).unwrap();
    assert_eq!(rel.tag_name, "v1");
    assert_eq!(rel.download_url, "https://example.invalid/v1.tar.xz");
}

#[test]
fn resolve_unknown_tag_fails() {
    let feed = two_release_feed();
    let err = resolve_tag("v3", &feed).unwrap_err();
    assert_eq!(err, PipelineError::AssetNotFound);
}

#[test]
fn resolve_latest_skips_prerelease() {
    let mut feed = two_release_feed();
    feed.insert(
        0,
        entry(
            "v3-rc1",
            true,
            vec![
                asset("tool-v3.tar.gz", "https://example.invalid/v3.tar.gz", 1),
                asset("tool-v3.sha512sum", "https://example.invalid/v3.sha512sum", 1),
            ],
        ),
    );
    let rel = resolve_tag("latest", &feed).unwrap();
    assert_eq!(rel.tag_name, "v2");
}

#[test]
fn resolve_latest_skips_draft() {
    let mut feed = two_release_feed();
    let mut draft = entry(
        "v3",
        false,
        vec![
            asset("tool-v3.tar.gz", "https://example.invalid/v3.tar.gz", 1),
            asset("tool-v3.sha512sum", "https://example.invalid/v3.sha512sum", 1),
        ],
    );
    draft.draft = true;
    feed.insert(0, draft);
    let rel = resolve_tag("latest", &feed).unwrap();
    assert_eq!(rel.tag_name, "v2");
}

#[test]
fn malformed_entry_is_dropped_not_fatal() {
    let mut feed = two_release_feed();
    feed.insert(
        0,
        entry("broken", false, vec![asset("notes.txt", "https://example.invalid/notes", 1)]),
    );
    let releases = list_releases(&feed);
    assert_eq!(releases.len(), 2);
    assert_eq!(releases[0].tag_name, "v2");
    assert_eq!(releases[1].tag_name, "v1");
    // The malformed entry is also invisible to tag resolution.
    assert_eq!(resolve_tag("broken", &feed).unwrap_err(), PipelineError::AssetNotFound);
}

#[test]
fn entry_release_picks_archive_and_checksum() {
    let e = entry(
        "v9",
        false,
        vec![
            asset("readme.md", "https://example.invalid/readme", 1),
            asset("tool-v9.sha512sum", "https://example.invalid/v9.sha512sum", 100),
            asset("tool-v9.tar.xz", "https://example.invalid/v9.tar.xz", 77),
        ],
    );
    let rel = entry_release(&e).unwrap();
    assert_eq!(rel.version, "v9");
    assert_eq!(rel.download_url, "https://example.invalid/v9.tar.xz");
    assert_eq!(rel.checksum_url, "https://example.invalid/v9.sha512sum");
    assert_eq!(rel.size_bytes, 77);
}

#[test]
fn entry_without_checksum_is_none() {
    let e = entry(
        "v9",
        false,
        vec![asset("tool-v9.tar.xz", "https://example.invalid/v9.tar.xz", 77)],
    );
    assert!(entry_release(&e).is_none());
}

#[test]
fn feed_order_is_kept() {
    let feed = two_release_feed();
    let releases = list_releases(&feed);
    assert_eq!(releases[0].tag_name, "v2");
    assert_eq!(releases[1].tag_name, "v1");
}
