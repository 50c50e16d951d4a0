//! Installation scanner: detects which launcher installations exist and
//! lists the tool versions already installed, against a model of the
//! relevant part of the filesystem.
//!
//! The model is plain data: the caller (command-line front-end or test)
//! records which directories exist, whether they can be read, and what
//! subdirectories they hold. All decisions over it are verified.

use vstd::prelude::*;
use crate::apps::{spec_all_installations, all_installations, App, AppInstallations};
use crate::errors::PipelineError;
use crate::util::{first_where, lemma_first_where_at, lemma_first_where_none, str_eq};

verus! {

/// One directory of the filesystem model: its path, whether its contents
/// can be read, and the names of its subdirectories.
#[derive(Clone, Debug)]
pub struct DirRecord {
    pub path: String,
    pub readable: bool,
    pub subdirs: Vec<String>,
}

/// A model of the part of the filesystem the scanner looks at: the
/// directories that exist. A path absent from the model does not exist
/// (an inaccessible path is simply not recorded, so it reads as absent,
/// never as an error).
#[derive(Clone, Debug)]
pub struct FsModel {
    pub dirs: Vec<DirRecord>,
}

/// The predicate selecting the directory record at `path`.
pub open spec fn dir_at_pred(path: Seq<char>) -> spec_fn(DirRecord) -> bool {
    |d: DirRecord| d.path@ == path
}

/// The first directory record at `path`, if the path exists.
pub open spec fn spec_dir_at(fs: FsModel, path: Seq<char>) -> Option<DirRecord> {
    first_where(fs.dirs@, dir_at_pred(path))
}

/// Whether `path` exists in the modelled filesystem.
pub open spec fn spec_path_exists(fs: FsModel, path: Seq<char>) -> bool {
    spec_dir_at(fs, path) is Some
}

impl FsModel {
    /// A model with no directories at all.
    pub fn new() -> (r: FsModel)
        ensures
            r.dirs@.len() == 0,
    {
        FsModel { dirs: Vec::new() }
    }

    /// Records a directory in the model.
    pub fn add_dir(&mut self, path: String, readable: bool, subdirs: Vec<String>)
        ensures
            final(self).dirs@ == old(self).dirs@.push(
                DirRecord { path, readable, subdirs },
            ),
    {
        self.dirs.push(DirRecord { path, readable, subdirs });
    }

    fn find_dir(&self, path: &str) -> (r: Option<usize>)
        ensures
            match r {
                Some(i) => i < self.dirs@.len() && spec_dir_at(*self, path@) == Some(
                    self.dirs@[i as int],
                ),
                None => spec_dir_at(*self, path@) is None,
            },
    {
        let ghost p = dir_at_pred(path@);
        let mut i: usize = 0;
        while i < self.dirs.len()
            invariant
                0 <= i <= self.dirs@.len(),
                p == dir_at_pred(path@),
                forall|j: int| 0 <= j < i ==> !p(#[trigger] self.dirs@[j]),
            decreases self.dirs@.len() - i,
        {
            if str_eq(self.dirs[i].path.as_str(), path) {
                proof {
                    lemma_first_where_at(self.dirs@, p, i as int);
                }
                return Some(i);
            }
            i += 1;
        }
        proof {
            lemma_first_where_none(self.dirs@, p);
        }
        None
    }

    /// Whether `path` exists in the model.
    pub fn path_exists(&self, path: &str) -> (r: bool)
        ensures
            r == spec_path_exists(*self, path@),
    {
        self.find_dir(path).is_some()
    }
}

/// Whether the launcher of `installation` is present: a pure presence
/// check of its base directory. It never inspects contents and never
/// fails; a missing path reads as absent.
pub fn detect_installation(fs: &FsModel, installation: AppInstallations) -> (r: bool)
    ensures
        r == spec_path_exists(*fs, installation.spec_app_base_dir()),
{
    fs.path_exists(installation.app_base_dir())
}

/// The subsequence of `candidates` whose base directory exists, in
/// candidate order.
pub open spec fn spec_detected(fs: FsModel, candidates: Seq<AppInstallations>) -> Seq<
    AppInstallations,
>
    decreases candidates.len(),
{
    if candidates.len() == 0 {
        Seq::empty()
    } else {
        let rest = spec_detected(fs, candidates.drop_last());
        if spec_path_exists(fs, candidates.last().spec_app_base_dir()) {
            rest.push(candidates.last())
        } else {
            rest
        }
    }
}

/// Returns the subset of `candidates` that are present, in candidate
/// order, regardless of the order the presence checks complete in.
pub fn detect_installations(fs: &FsModel, candidates: &Vec<AppInstallations>) -> (r: Vec<
    AppInstallations,
>)
    ensures
        r@ == spec_detected(*fs, candidates@),
{
    let mut r: Vec<AppInstallations> = Vec::new();
    let mut i: usize = 0;
    while i < candidates.len()
        invariant
            0 <= i <= candidates@.len(),
            r@ == spec_detected(*fs, candidates@.take(i as int)),
        decreases candidates@.len() - i,
    {
        let ghost prefix = candidates@.take(i as int);
        if detect_installation(fs, candidates[i]) {
            r.push(candidates[i]);
        }
        i += 1;
        proof {
            assert(candidates@.take(i as int).drop_last() =~= prefix);
            assert(candidates@.take(i as int).last() == candidates@[i - 1]);
        }
    }
    proof {
        assert(candidates@.take(candidates@.len() as int) =~= candidates@);
    }
    r
}

/// Returns the launcher installations present on the modelled machine, in
/// catalog order.
pub fn list_installed_apps(fs: &FsModel) -> (r: Vec<AppInstallations>)
    ensures
        r@ == spec_detected(*fs, spec_all_installations()),
{
    let candidates = all_installations();
    detect_installations(fs, &candidates)
}

impl App {
    /// Checks which deployments (native or Flatpak) of the app are
    /// present.
    pub fn detect_installation_method(&self, fs: &FsModel) -> (r: Vec<AppInstallations>)
        ensures
            r@ == spec_detected(*fs, self.spec_installations()),
    {
        let candidates = self.app_installations();
        detect_installations(fs, &candidates)
    }
}

/// The versions installed under an installation's default directory:
/// its subdirectory names in listing order. A missing directory reads as
/// empty (an installation may exist with zero tools installed); a
/// directory that cannot be read is a filesystem error.
pub open spec fn spec_installed_versions(fs: FsModel, installation: AppInstallations) -> Result<
    Seq<String>,
    PipelineError,
> {
    match spec_dir_at(fs, installation.spec_default_install_dir()) {
        Some(d) => if d.readable {
            Ok(d.subdirs@)
        } else {
            Err(PipelineError::Filesystem)
        },
        None => Ok(Seq::empty()),
    }
}

impl AppInstallations {
    /// Gets the list of the currently installed wine versions: the
    /// subdirectory names under the default install directory.
    pub fn list_installed_versions(&self, fs: &FsModel) -> (r: Result<
        Vec<String>,
        PipelineError,
    >)
        ensures
            match r {
                Ok(v) => spec_installed_versions(*fs, *self) == Ok::<_, PipelineError>(v@),
                Err(e) => spec_installed_versions(*fs, *self) == Err::<Seq<String>, _>(e),
            },
    {
        list_installed_versions(fs, *self)
    }
}

/// Lists the names of the tool versions already installed under
/// `installation`.
pub fn list_installed_versions(fs: &FsModel, installation: AppInstallations) -> (r: Result<
    Vec<String>,
    PipelineError,
>)
    ensures
        match r {
            Ok(v) => spec_installed_versions(*fs, installation) == Ok::<_, PipelineError>(v@),
            Err(e) => spec_installed_versions(*fs, installation) == Err::<Seq<String>, _>(e),
        },
{
    match fs.find_dir(installation.default_install_dir()) {
        Some(i) => {
            let d = &fs.dirs[i];
            if d.readable {
                let mut v: Vec<String> = Vec::new();
                let mut j: usize = 0;
                while j < d.subdirs.len()
                    invariant
                        0 <= j <= d.subdirs@.len(),
                        v@ =~= d.subdirs@.take(j as int),
                    decreases d.subdirs@.len() - j,
                {
                    v.push(d.subdirs[j].clone());
                    j += 1;
                }
                proof {
                    assert(v@ =~= d.subdirs@);
                }
                Ok(v)
            } else {
                Err(PipelineError::Filesystem)
            }
        }
        None => Ok(Vec::new()),
    }
}

} // verus!
