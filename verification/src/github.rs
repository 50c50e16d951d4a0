//! Release index: turns feed entries (as published by the release feed for
//! a variant's repository) into structured [`Release`] records, and resolves
//! a symbolic or explicit tag to one record.
//!
//! Fetching the feed and decoding its transport format are left to the
//! caller; this module holds the selection and resolution logic.

use vstd::prelude::*;
use crate::errors::PipelineError;
use crate::util::{
    first_where, lemma_first_where_at, lemma_first_where_none, seq_ends_with, str_ends_with,
    str_eq,
};

verus! {

/// One asset attached to a feed entry: a file name, the URL it can be
/// fetched from, and its size in bytes.
#[derive(Clone, Debug)]
pub struct FeedAsset {
    pub name: String,
    pub url: String,
    pub size: u64,
}

/// One entry of the release feed, with its assets.
#[derive(Clone, Debug)]
pub struct FeedEntry {
    /// The identifier a release is requested by.
    pub tag_name: String,
    /// The human label of the release; may differ from the tag.
    pub name: String,
    pub draft: bool,
    pub prerelease: bool,
    pub assets: Vec<FeedAsset>,
}

/// One published release of a variant, with its archive and checksum assets
/// resolved.
#[derive(Debug)]
pub struct Release {
    pub tag_name: String,
    /// The human label; it names the subdirectory the release installs into.
    pub version: String,
    pub download_url: String,
    pub checksum_url: String,
    pub size_bytes: u64,
}

impl Clone for Release {
    /// Copies the release record field by field.
    fn clone(&self) -> (r: Self)
        ensures
            r == *self,
    {
        Release {
            tag_name: self.tag_name.clone(),
            version: self.version.clone(),
            download_url: self.download_url.clone(),
            checksum_url: self.checksum_url.clone(),
            size_bytes: self.size_bytes,
        }
    }
}

/// Whether an asset name is the primary archive payload: it ends in one of
/// the expected archive extensions.
pub open spec fn spec_is_archive_name(name: Seq<char>) -> bool {
    seq_ends_with(name, ".tar.gz"@) || seq_ends_with(name, ".tar.xz"@)
}

/// Whether an asset name is the checksum companion of the archive.
pub open spec fn spec_is_checksum_name(name: Seq<char>) -> bool {
    seq_ends_with(name, ".sha512sum"@)
}

/// The predicate selecting archive assets.
pub open spec fn archive_asset_pred() -> spec_fn(FeedAsset) -> bool {
    |a: FeedAsset| spec_is_archive_name(a.name@)
}

/// The predicate selecting checksum assets.
pub open spec fn checksum_asset_pred() -> spec_fn(FeedAsset) -> bool {
    |a: FeedAsset| spec_is_checksum_name(a.name@)
}

/// The release record extracted from one feed entry: its first archive
/// asset and its first checksum asset, if the entry has both.
pub open spec fn spec_release_of(e: FeedEntry) -> Option<Release> {
    let ar = first_where(e.assets@, archive_asset_pred());
    let ck = first_where(e.assets@, checksum_asset_pred());
    if ar is Some && ck is Some {
        Some(
            Release {
                tag_name: e.tag_name,
                version: e.name,
                download_url: ar->Some_0.url,
                checksum_url: ck->Some_0.url,
                size_bytes: ar->Some_0.size,
            },
        )
    } else {
        None
    }
}

/// Whether an asset name is the primary archive payload.
pub fn is_archive_name(name: &str) -> (r: bool)
    ensures
        r == spec_is_archive_name(name@),
{
    str_ends_with(name, ".tar.gz") || str_ends_with(name, ".tar.xz")
}

/// Whether an asset name is the checksum companion of the archive.
pub fn is_checksum_name(name: &str) -> (r: bool)
    ensures
        r == spec_is_checksum_name(name@),
{
    str_ends_with(name, ".sha512sum")
}

fn find_asset(assets: &Vec<FeedAsset>, archive: bool) -> (r: Option<usize>)
    ensures
        ({
            let p = if archive {
                archive_asset_pred()
            } else {
                checksum_asset_pred()
            };
            match r {
                Some(i) => i < assets@.len() && first_where(assets@, p) == Some(assets@[i as int]),
                None => first_where(assets@, p) is None,
            }
        }),
{
    let ghost p = if archive {
        archive_asset_pred()
    } else {
        checksum_asset_pred()
    };
    let mut i: usize = 0;
    while i < assets.len()
        invariant
            0 <= i <= assets@.len(),
            p == (if archive {
                archive_asset_pred()
            } else {
                checksum_asset_pred()
            }),
            forall|j: int| 0 <= j < i ==> !p(#[trigger] assets@[j]),
        decreases assets@.len() - i,
    {
        let hit = if archive {
            is_archive_name(assets[i].name.as_str())
        } else {
            is_checksum_name(assets[i].name.as_str())
        };
        if hit {
            proof {
                lemma_first_where_at(assets@, p, i as int);
            }
            return Some(i);
        }
        i += 1;
    }
    proof {
        lemma_first_where_none(assets@, p);
    }
    None
}

/// Extracts the release record of one feed entry: its first archive asset
/// and its first checksum asset. An entry lacking either yields `None`.
pub fn entry_release(entry: &FeedEntry) -> (r: Option<Release>)
    ensures
        r == spec_release_of(*entry),
{
    let ar = find_asset(&entry.assets, true);
    let ck = find_asset(&entry.assets, false);
    match (ar, ck) {
        (Some(i), Some(j)) => Some(
            Release {
                tag_name: entry.tag_name.clone(),
                version: entry.name.clone(),
                download_url: entry.assets[i].url.clone(),
                checksum_url: entry.assets[j].url.clone(),
                size_bytes: entry.assets[i].size,
            },
        ),
        _ => None,
    }
}

/// The releases of a whole feed, in feed order, dropping entries that lack
/// an archive or a checksum asset.
pub open spec fn spec_releases_of(entries: Seq<FeedEntry>) -> Seq<Release>
    decreases entries.len(),
{
    if entries.len() == 0 {
        Seq::empty()
    } else {
        let rest = spec_releases_of(entries.drop_last());
        match spec_release_of(entries.last()) {
            Some(r) => rest.push(r),
            None => rest,
        }
    }
}

/// Parses every entry of a feed into a release record, keeping feed order.
/// A malformed entry (no archive or no checksum asset) is dropped rather
/// than failing the whole listing.
pub fn list_releases(entries: &Vec<FeedEntry>) -> (r: Vec<Release>)
    ensures
        r@ == spec_releases_of(entries@),
{
    let mut r: Vec<Release> = Vec::new();
    let mut i: usize = 0;
    while i < entries.len()
        invariant
            0 <= i <= entries@.len(),
            r@ == spec_releases_of(entries@.take(i as int)),
        decreases entries@.len() - i,
    {
        let ghost prefix = entries@.take(i as int);
        match entry_release(&entries[i]) {
            Some(rel) => {
                r.push(rel);
            }
            None => {}
        }
        i += 1;
        proof {
            assert(entries@.take(i as int).drop_last() =~= prefix);
            assert(entries@.take(i as int).last() == entries@[i - 1]);
        }
    }
    proof {
        assert(entries@.take(entries@.len() as int) =~= entries@);
    }
    r
}

/// The predicate an entry must meet to count as the symbolic "latest"
/// release: published (not draft, not prerelease) and well-formed.
pub open spec fn latest_entry_pred() -> spec_fn(FeedEntry) -> bool {
    |e: FeedEntry| !e.draft && !e.prerelease && spec_release_of(e) is Some
}

/// The predicate an entry must meet to resolve an explicit tag: an exact
/// tag match, and well-formed.
pub open spec fn tag_entry_pred(tag: Seq<char>) -> spec_fn(FeedEntry) -> bool {
    |e: FeedEntry| e.tag_name@ == tag && spec_release_of(e) is Some
}

/// The release a tag resolves to: for "latest", the first non-draft,
/// non-prerelease entry of the feed; otherwise the first entry whose tag
/// matches exactly. Entries lacking assets are passed over.
pub open spec fn spec_resolve_tag(tag: Seq<char>, entries: Seq<FeedEntry>) -> Option<Release> {
    let p = if tag == "latest"@ {
        latest_entry_pred()
    } else {
        tag_entry_pred(tag)
    };
    match first_where(entries, p) {
        Some(e) => spec_release_of(e),
        None => None,
    }
}

/// Resolves the symbolic tag "latest" or an explicit tag to one release.
/// Fails with [`PipelineError::AssetNotFound`] exactly when the feed holds
/// no matching, well-formed entry.
pub fn resolve_tag(tag: &str, entries: &Vec<FeedEntry>) -> (r: Result<Release, PipelineError>)
    ensures
        match r {
            Ok(rel) => spec_resolve_tag(tag@, entries@) == Some(rel),
            Err(e) => e == PipelineError::AssetNotFound && spec_resolve_tag(
                tag@,
                entries@,
            ) is None,
        },
{
    let latest = str_eq(tag, "latest");
    let ghost p = if latest {
        latest_entry_pred()
    } else {
        tag_entry_pred(tag@)
    };
    let mut i: usize = 0;
    while i < entries.len()
        invariant
            0 <= i <= entries@.len(),
            latest == (tag@ == "latest"@),
            p == (if latest {
                latest_entry_pred()
            } else {
                tag_entry_pred(tag@)
            }),
            forall|j: int| 0 <= j < i ==> !p(#[trigger] entries@[j]),
        decreases entries@.len() - i,
    {
        let entry = &entries[i];
        match entry_release(entry) {
            Some(rel) => {
                let selected = if latest {
                    !entry.draft && !entry.prerelease
                } else {
                    str_eq(entry.tag_name.as_str(), tag)
                };
                if selected {
                    proof {
                        lemma_first_where_at(entries@, p, i as int);
                    }
                    return Ok(rel);
                }
            }
            None => {}
        }
        i += 1;
    }
    proof {
        lemma_first_where_none(entries@, p);
    }
    Err(PipelineError::AssetNotFound)
}

} // verus!
