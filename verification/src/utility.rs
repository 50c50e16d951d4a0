//! Wrapper types a front-end keeps its per-launcher state in, and the
//! selection logic over them: which launcher's releases to list, which
//! release a quick update downloads, and how a selection toggle changes
//! the tracked state.

use vstd::prelude::*;
use vstd::string::StringExecFns;
use crate::apps::{spec_all_installations, AppInstallations};
use crate::github::{list_releases, spec_releases_of, FeedEntry, Release};
use crate::scanner::{list_installed_apps, spec_detected, FsModel};
use crate::util::{first_where, lemma_first_where_at, lemma_first_where_none, str_eq};
use crate::variants::Variant;

verus! {

/// Wrapper around [`AppInstallations`] that a front-end tracks a release
/// list for.
#[derive(Clone, Copy, Debug, PartialEq, Eq, Structural, Hash)]
pub struct AppInstallWrapper {
    pub app_install: AppInstallations,
}

impl From<AppInstallations> for AppInstallWrapper {
    fn from(app_install: AppInstallations) -> (r: Self) {
        AppInstallWrapper { app_install }
    }
}

impl vstd::std_specs::convert::FromSpecImpl<AppInstallations> for AppInstallWrapper {
    open spec fn obeys_from_spec() -> bool {
        true
    }

    open spec fn from_spec(v: AppInstallations) -> Self {
        AppInstallWrapper { app_install: v }
    }
}

impl AppInstallWrapper {
    /// The installation's name followed by its install directory in
    /// parentheses, as a front-end lists it.
    pub open spec fn spec_display(self) -> Seq<char> {
        self.app_install.spec_label() + " ("@ + self.app_install.spec_default_install_dir()
            + ")"@
    }

    /// The installation's name followed by its install directory in
    /// parentheses.
    pub fn display_label(&self) -> (r: String)
        ensures
            r@ == self.spec_display(),
    {
        let a = self.app_install.label();
        let b = a.concat(" (");
        let c = b.concat(self.app_install.default_install_dir());
        c.concat(")")
    }
}

/// Wrapper around a [`Release`] that additionally tracks whether the
/// release is selected for download.
#[derive(Debug)]
pub struct ReleaseWrapper {
    pub release: Release,
    pub selected: bool,
}

impl Clone for ReleaseWrapper {
    /// Copies the wrapper field by field.
    fn clone(&self) -> (r: Self)
        ensures
            r == *self,
    {
        ReleaseWrapper { release: self.release.clone(), selected: self.selected }
    }
}

impl From<Release> for ReleaseWrapper {
    fn from(release: Release) -> (r: Self) {
        ReleaseWrapper { release, selected: false }
    }
}

impl vstd::std_specs::convert::FromSpecImpl<Release> for ReleaseWrapper {
    open spec fn obeys_from_spec() -> bool {
        true
    }

    open spec fn from_spec(v: Release) -> Self {
        ReleaseWrapper { release: v, selected: false }
    }
}

/// Whether two releases are the same record: equal field by field, at the
/// level of character sequences.
pub open spec fn spec_release_eq(a: Release, b: Release) -> bool {
    a.tag_name@ == b.tag_name@ && a.version@ == b.version@ && a.download_url@ == b.download_url@
        && a.checksum_url@ == b.checksum_url@ && a.size_bytes == b.size_bytes
}

impl PartialEq for ReleaseWrapper {
    /// Two wrappers are equal when they wrap the same release record; the
    /// selection flag does not take part.
    fn eq(&self, other: &Self) -> (r: bool) {
        str_eq(self.release.tag_name.as_str(), other.release.tag_name.as_str()) && str_eq(
            self.release.version.as_str(),
            other.release.version.as_str(),
        ) && str_eq(self.release.download_url.as_str(), other.release.download_url.as_str())
            && str_eq(self.release.checksum_url.as_str(), other.release.checksum_url.as_str())
            && self.release.size_bytes == other.release.size_bytes
    }
}

impl vstd::std_specs::cmp::PartialEqSpecImpl for ReleaseWrapper {
    open spec fn obeys_eq_spec() -> bool {
        true
    }

    open spec fn eq_spec(&self, other: &Self) -> bool {
        spec_release_eq(self.release, other.release)
    }
}

/// Messages a front-end sends to the download handler.
pub enum HandlerMessage {
    Download(DownloadInfo),
}

/// All the information the download handler needs to start the requested
/// downloads.
pub struct DownloadInfo {
    pub selected_app: AppInstallWrapper,
    pub requested_downloads: Vec<(usize, Release)>,
}

/// Whether `ws` wraps exactly the releases `rs`: same records in the same
/// order, none selected yet.
pub open spec fn spec_wraps(ws: Seq<ReleaseWrapper>, rs: Seq<Release>) -> bool {
    ws.len() == rs.len() && forall|j: int|
        0 <= j < rs.len() ==> (#[trigger] ws[j]).release == rs[j] && !ws[j].selected
}

/// Wraps a release list for front-end tracking, nothing selected yet.
pub fn wrap_releases(releases: Vec<Release>) -> (r: Vec<ReleaseWrapper>)
    ensures
        spec_wraps(r@, releases@),
{
    let mut r: Vec<ReleaseWrapper> = Vec::new();
    let mut i: usize = 0;
    while i < releases.len()
        invariant
            0 <= i <= releases@.len(),
            r@.len() == i,
            forall|j: int|
                0 <= j < i ==> (#[trigger] r@[j]).release == releases@[j] && !r@[j].selected,
        decreases releases@.len() - i,
    {
        r.push(ReleaseWrapper { release: releases[i].clone(), selected: false });
        i += 1;
    }
    r
}

/// The feed a detected installation's releases come from: that of its
/// app's wine variant.
pub open spec fn spec_feed_for(
    inst: AppInstallations,
    ge: Seq<FeedEntry>,
    wge: Seq<FeedEntry>,
) -> Seq<FeedEntry> {
    match inst.spec_as_app().spec_wine_version() {
        Variant::GEProton => ge,
        Variant::WineGE => wge,
    }
}

/// Pairs each launcher installed on the modelled machine with the
/// releases its variant's feed publishes, wrapped for front-end tracking.
/// Fetching the two feeds is the caller's; everything after is decided
/// here.
#[verifier::loop_isolation(false)]
pub fn get_app_info(
    fs: &FsModel,
    ge_feed: &Vec<FeedEntry>,
    wge_feed: &Vec<FeedEntry>,
) -> (r: Vec<(AppInstallWrapper, Vec<ReleaseWrapper>)>)
    ensures
        ({
            let detected = spec_detected(*fs, spec_all_installations());
            r@.len() == detected.len() && forall|i: int|
                0 <= i < detected.len() ==> (#[trigger] r@[i]).0 == (AppInstallWrapper {
                    app_install: detected[i],
                }) && spec_wraps(
                    r@[i].1@,
                    spec_releases_of(spec_feed_for(detected[i], ge_feed@, wge_feed@)),
                )
        }),
{
    let launchers = list_installed_apps(fs);
    let mut r: Vec<(AppInstallWrapper, Vec<ReleaseWrapper>)> = Vec::new();
    let mut i: usize = 0;
    while i < launchers.len()
        invariant
            0 <= i <= launchers@.len(),
            r@.len() == i,
            forall|j: int|
                0 <= j < i ==> (#[trigger] r@[j]).0 == (AppInstallWrapper {
                    app_install: launchers@[j],
                }) && spec_wraps(
                    r@[j].1@,
                    spec_releases_of(spec_feed_for(launchers@[j], ge_feed@, wge_feed@)),
                ),
        decreases launchers@.len() - i,
    {
        let inst = launchers[i];
        let releases = match inst.as_app().app_wine_version() {
            Variant::GEProton => list_releases(ge_feed),
            Variant::WineGE => list_releases(wge_feed),
        };
        r.push((AppInstallWrapper { app_install: inst }, wrap_releases(releases)));
        i += 1;
    }
    r
}

/// The predicate selecting the per-launcher entry of `sel`.
pub open spec fn app_entry_pred(sel: AppInstallWrapper) -> spec_fn(
    (AppInstallWrapper, Vec<ReleaseWrapper>),
) -> bool {
    |p: (AppInstallWrapper, Vec<ReleaseWrapper>)| p.0 == sel
}

/// Picks the download a quick update performs: the most recent release
/// tracked for the currently selected app. `None` when the release data
/// is not ready, the app is unknown, or its release list is empty.
#[verifier::loop_isolation(false)]
pub fn quick_update(
    selected_app: &AppInstallWrapper,
    release_data: &Option<Vec<(AppInstallWrapper, Vec<ReleaseWrapper>)>>,
) -> (r: Option<DownloadInfo>)
    ensures
        match release_data {
            Some(data) => {
                let found = first_where(data@, app_entry_pred(*selected_app));
                match r {
                    Some(info) => found is Some && found->Some_0.1@.len() > 0 && info.selected_app
                        == *selected_app && info.requested_downloads@.len() == 1
                        && info.requested_downloads@[0].0 == 1 && info.requested_downloads@[0].1
                        == found->Some_0.1@[0].release,
                    None => found is None || found->Some_0.1@.len() == 0,
                }
            },
            None => r is None,
        },
{
    match release_data {
        None => None,
        Some(data) => {
            let ghost p = app_entry_pred(*selected_app);
            let mut i: usize = 0;
            while i < data.len()
                invariant
                    0 <= i <= data@.len(),
                    p == app_entry_pred(*selected_app),
                    forall|j: int| 0 <= j < i ==> !p(#[trigger] data@[j]),
                decreases data@.len() - i,
            {
                if data[i].0 == *selected_app {
                    proof {
                        lemma_first_where_at(data@, p, i as int);
                    }
                    let list = &data[i].1;
                    if list.len() == 0 {
                        return None;
                    }
                    let mut downloads: Vec<(usize, Release)> = Vec::new();
                    downloads.push((1, list[0].release.clone()));
                    return Some(
                        DownloadInfo {
                            selected_app: *selected_app,
                            requested_downloads: downloads,
                        },
                    );
                }
                i += 1;
            }
            proof {
                lemma_first_where_none(data@, p);
            }
            None
        }
    }
}

/// The rows a front-end lists for the currently selected launcher: each
/// tracked release's tag and whether it is selected for download, in feed
/// order. Empty when the data is not ready or the launcher is unknown.
#[verifier::loop_isolation(false)]
pub fn download_list(
    selected_app: &AppInstallWrapper,
    release_data: &Option<Vec<(AppInstallWrapper, Vec<ReleaseWrapper>)>>,
) -> (r: Vec<(String, bool)>)
    ensures
        match release_data {
            Some(data) => {
                let found = first_where(data@, app_entry_pred(*selected_app));
                match found {
                    Some(entry) => r@.len() == entry.1@.len() && (forall|j: int|
                        0 <= j < r@.len() ==> (#[trigger] r@[j]).0@ == entry.1@[j].release.tag_name@
                            && r@[j].1 == entry.1@[j].selected),
                    None => r@.len() == 0,
                }
            },
            None => r@.len() == 0,
        },
{
    match release_data {
        None => Vec::new(),
        Some(data) => {
            let ghost p = app_entry_pred(*selected_app);
            let mut i: usize = 0;
            while i < data.len()
                invariant
                    0 <= i <= data@.len(),
                    p == app_entry_pred(*selected_app),
                    forall|j: int| 0 <= j < i ==> !p(#[trigger] data@[j]),
                decreases data@.len() - i,
            {
                if data[i].0 == *selected_app {
                    proof {
                        lemma_first_where_at(data@, p, i as int);
                    }
                    let list = &data[i].1;
                    let mut rows: Vec<(String, bool)> = Vec::new();
                    let mut k: usize = 0;
                    while k < list.len()
                        invariant
                            0 <= k <= list@.len(),
                            rows@.len() == k,
                            forall|j: int|
                                0 <= j < k ==> (#[trigger] rows@[j]).0@
                                    == list@[j].release.tag_name@ && rows@[j].1
                                    == list@[j].selected,
                        decreases list@.len() - k,
                    {
                        rows.push((list[k].release.tag_name.clone(), list[k].selected));
                        k += 1;
                    }
                    return rows;
                }
                i += 1;
            }
            proof {
                lemma_first_where_none(data@, p);
            }
            Vec::new()
        }
    }
}

/// The predicate selecting the first tracked release equal to `rel`.
pub open spec fn release_eq_pred(rel: Release) -> spec_fn(ReleaseWrapper) -> bool {
    |w: ReleaseWrapper| spec_release_eq(w.release, rel)
}

/// How one selection toggle relates a release list to its former self:
/// the first entry equal to `release` has its flag set to `flag` and its
/// record kept; every other entry, and a list without a match, is
/// unchanged.
pub open spec fn spec_list_toggled(
    before: Seq<ReleaseWrapper>,
    after: Seq<ReleaseWrapper>,
    release: Release,
    flag: bool,
) -> bool {
    match first_where(before, release_eq_pred(release)) {
        Some(_) => exists|k: int|
            0 <= k < before.len() && release_eq_pred(release)(before[k]) && after
                == before.update(
                k,
                ReleaseWrapper { release: before[k].release, selected: flag },
            ),
        None => after == before,
    }
}

/// How one selection toggle relates the whole per-launcher state to its
/// former self: in the first entry of `app`, the release list is toggled
/// as [`spec_list_toggled`] says; every other entry, and a state without
/// that app, is unchanged.
pub open spec fn spec_toggle_applied(
    before: Seq<(AppInstallWrapper, Vec<ReleaseWrapper>)>,
    after: Seq<(AppInstallWrapper, Vec<ReleaseWrapper>)>,
    app: AppInstallWrapper,
    release: Release,
    flag: bool,
) -> bool {
    match first_where(before, app_entry_pred(app)) {
        Some(_) => exists|i: int|
            {
                &&& 0 <= i < before.len()
                &&& app_entry_pred(app)(before[i])
                &&& after.len() == before.len()
                &&& (forall|j: int| 0 <= j < before.len() && j != i ==> after[j] == before[j])
                &&& (#[trigger] after[i]).0 == before[i].0
                &&& spec_list_toggled(before[i].1@, after[i].1@, release, flag)
            },
        None => after == before,
    }
}

/// Sets the selection flag of the first tracked release equal to
/// `release`, leaving every other entry unchanged; a list with no such
/// release is left as it is.
pub fn toggle_release(list: &mut Vec<ReleaseWrapper>, release: &ReleaseWrapper, selected: bool)
    ensures
        spec_list_toggled(old(list)@, final(list)@, release.release, selected),
{
    let ghost p = release_eq_pred(release.release);
    let mut i: usize = 0;
    while i < list.len()
        invariant
            0 <= i <= list@.len(),
            list@ == old(list)@,
            p == release_eq_pred(release.release),
            forall|j: int| 0 <= j < i ==> !p(#[trigger] list@[j]),
        decreases list@.len() - i,
    {
        if list[i] == *release {
            proof {
                lemma_first_where_at(list@, p, i as int);
            }
            let entry = list.remove(i);
            let ghost kept = entry.release;
            list.insert(i, ReleaseWrapper { release: entry.release, selected });
            proof {
                assert(list@ =~= old(list)@.update(
                    i as int,
                    ReleaseWrapper { release: kept, selected },
                ));
            }
            return;
        }
        i += 1;
    }
    proof {
        lemma_first_where_none(list@, p);
    }
}

/// Applies a selection toggle to the per-launcher state: in the first
/// entry of the selected app, the first release equal to `release` gets
/// the flag; everything else is unchanged.
#[verifier::loop_isolation(false)]
pub fn set_release_selected(
    release_data: &mut Vec<(AppInstallWrapper, Vec<ReleaseWrapper>)>,
    app: &AppInstallWrapper,
    release: &ReleaseWrapper,
    selected: bool,
)
    ensures
        spec_toggle_applied(
            old(release_data)@,
            final(release_data)@,
            *app,
            release.release,
            selected,
        ),
{
    let ghost p = app_entry_pred(*app);
    let mut i: usize = 0;
    while i < release_data.len()
        invariant
            0 <= i <= release_data@.len(),
            release_data@ == old(release_data)@,
            p == app_entry_pred(*app),
            forall|j: int| 0 <= j < i ==> !p(#[trigger] release_data@[j]),
        decreases release_data@.len() - i,
    {
        if release_data[i].0 == *app {
            proof {
                lemma_first_where_at(release_data@, p, i as int);
            }
            let ghost orig = release_data@;
            let entry = release_data.remove(i);
            let (app_part, mut lst) = entry;
            proof {
                assert(app_part == orig[i as int].0);
                assert(lst == orig[i as int].1);
            }
            toggle_release(&mut lst, release, selected);
            release_data.insert(i, (app_part, lst));
            proof {
                assert(release_data@ =~= orig.update(i as int, release_data@[i as int]));
                assert((final(release_data)@[i as int]).0 == orig[i as int].0);
                assert(final(release_data)@.len() == orig.len());
                assert(forall|j: int|
                    0 <= j < orig.len() && j != i ==> final(release_data)@[j] == orig[j]);
            }
            return;
        }
        i += 1;
    }
    proof {
        lemma_first_where_none(release_data@, p);
    }
}

} // verus!
