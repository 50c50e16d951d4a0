//! Download pipeline: the per-request state machine
//! `Pending -> Downloading -> Verifying -> Extracting -> Done`, with
//! `Failed(cause)` reachable from the three active states, and the install
//! operation over a modelled transfer and destination.
//!
//! The byte transport and the on-disk unpacking are the caller's: it hands
//! the pipeline the delivered chunks, the checksum payload and the archive's
//! directory listing as plain values. Every decision over them — progress
//! accounting, the verification gate, the overwrite policy, what the
//! destination holds afterwards — is verified here.

use vstd::prelude::*;
use crate::apps::AppInstallations;
use crate::digest::{hash_check, spec_digest_matches};
use crate::errors::PipelineError;
use crate::github::Release;
use crate::progress::ProgressState;
use crate::util::{
    clone_strings, first_where, lemma_first_where_at, lemma_first_where_none, seq_ends_with,
    str_ends_with, str_eq,
};

verus! {

/// One request consumed by the pipeline: the target installation, the
/// resolved release, and the destination directory.
#[derive(Debug)]
pub struct DownloadRequest {
    pub installation: AppInstallations,
    pub release: Release,
    pub destination: String,
}

/// The stages a request passes through.
#[derive(Clone, Copy, Debug, PartialEq, Eq, Structural)]
pub enum Stage {
    Pending,
    Downloading,
    Verifying,
    Extracting,
    Done,
    Failed(PipelineError),
}

/// The state machine of one in-flight request, with its progress tracker.
/// Stages advance strictly in order; the progress flag `done` is set
/// exactly on reaching a terminal stage.
#[derive(Clone, Copy, Debug)]
pub struct Pipeline {
    stage: Stage,
    progress: ProgressState,
}

impl Pipeline {
    /// The stage the request is in.
    pub closed spec fn spec_stage(self) -> Stage {
        self.stage
    }

    /// The progress state the observers read.
    pub closed spec fn spec_progress(self) -> ProgressState {
        self.progress
    }

    /// A terminal stage: `Done` or `Failed`.
    pub open spec fn spec_terminal(self) -> bool {
        self.spec_stage() is Done || self.spec_stage() is Failed
    }

    /// The progress flag mirrors terminality.
    pub open spec fn wf(self) -> bool {
        self.spec_terminal() == self.spec_progress().spec_done()
    }

    /// Accepts a request: stage `Pending`, with a fresh progress state
    /// published before any byte is transferred.
    pub fn new() -> (r: Pipeline)
        ensures
            r.spec_stage() == Stage::Pending,
            r.spec_progress().spec_bytes_done() == 0,
            !r.spec_progress().spec_done(),
            r.wf(),
    {
        Pipeline { stage: Stage::Pending, progress: ProgressState::new() }
    }

    /// The stage the request is in.
    pub fn stage(&self) -> (r: Stage)
        ensures
            r == self.spec_stage(),
    {
        self.stage
    }

    /// A copy of the progress state, as an observer would read it.
    pub fn progress(&self) -> (r: ProgressState)
        ensures
            r == self.spec_progress(),
    {
        self.progress
    }

    /// Begins the transfer.
    pub fn start(&mut self)
        requires
            old(self).spec_stage() == Stage::Pending,
            old(self).wf(),
        ensures
            final(self).spec_stage() == Stage::Downloading,
            final(self).spec_progress() == old(self).spec_progress(),
            final(self).wf(),
    {
        self.stage = Stage::Downloading;
    }

    /// Records `n` more bytes as durably written.
    pub fn chunk_written(&mut self, n: u64)
        requires
            old(self).spec_stage() == Stage::Downloading,
            old(self).wf(),
            old(self).spec_progress().spec_bytes_done() + n <= u64::MAX,
        ensures
            final(self).spec_stage() == Stage::Downloading,
            final(self).spec_progress().spec_bytes_done() == old(
                self,
            ).spec_progress().spec_bytes_done() + n,
            final(self).spec_progress().spec_bytes_done() >= old(
                self,
            ).spec_progress().spec_bytes_done(),
            !final(self).spec_progress().spec_done(),
            final(self).wf(),
    {
        self.progress.record_chunk(n);
    }

    /// Ends the transfer, reconciling the counter to the true byte count
    /// of the file written, and moves to `Verifying`.
    pub fn finish_download(&mut self, total: u64)
        requires
            old(self).spec_stage() == Stage::Downloading,
            old(self).wf(),
            old(self).spec_progress().spec_bytes_done() <= total,
        ensures
            final(self).spec_stage() == Stage::Verifying,
            final(self).spec_progress().spec_bytes_done() == total,
            !final(self).spec_progress().spec_done(),
            final(self).wf(),
    {
        self.progress.reconcile(total);
        self.stage = Stage::Verifying;
    }

    /// Passes the verification gate and moves to `Extracting`.
    pub fn verify_passed(&mut self)
        requires
            old(self).spec_stage() == Stage::Verifying,
            old(self).wf(),
        ensures
            final(self).spec_stage() == Stage::Extracting,
            final(self).spec_progress() == old(self).spec_progress(),
            final(self).wf(),
    {
        self.stage = Stage::Extracting;
    }

    /// Finishes extraction: the terminal `Done` stage, with the progress
    /// flag set and the counter frozen at the reconciled byte count.
    pub fn extraction_done(&mut self)
        requires
            old(self).spec_stage() == Stage::Extracting,
            old(self).wf(),
        ensures
            final(self).spec_stage() == Stage::Done,
            final(self).spec_progress().spec_bytes_done() == old(
                self,
            ).spec_progress().spec_bytes_done(),
            final(self).spec_progress().spec_done(),
            final(self).wf(),
    {
        self.progress.complete();
        self.stage = Stage::Done;
    }

    /// Fails the request from any active stage: terminal, with the
    /// progress flag set and the counter frozen where it stood.
    pub fn fail(&mut self, cause: PipelineError)
        requires
            old(self).spec_stage() == Stage::Downloading || old(self).spec_stage()
                == Stage::Verifying || old(self).spec_stage() == Stage::Extracting,
            old(self).wf(),
        ensures
            final(self).spec_stage() == Stage::Failed(cause),
            final(self).spec_progress().spec_bytes_done() == old(
                self,
            ).spec_progress().spec_bytes_done(),
            final(self).spec_progress().spec_done(),
            final(self).wf(),
    {
        self.progress.mark_failed();
        self.stage = Stage::Failed(cause);
    }
}

/// The model of one version subdirectory of a destination directory: its
/// name and the files it holds.
#[verifier::ext_equal]
pub struct DirModel {
    pub name: Seq<char>,
    pub files: Seq<Seq<char>>,
}

/// One version subdirectory of the destination directory.
#[derive(Clone, Debug)]
pub struct VersionDir {
    pub name: String,
    pub files: Vec<String>,
}

impl View for VersionDir {
    type V = DirModel;

    open spec fn view(&self) -> DirModel {
        DirModel { name: self.name@, files: self.files.deep_view() }
    }
}

/// The destination directory a release installs into, modelled as its
/// version subdirectories in listing order.
#[derive(Clone, Debug)]
pub struct Destination {
    pub dirs: Vec<VersionDir>,
}

impl View for Destination {
    type V = Seq<DirModel>;

    open spec fn view(&self) -> Seq<DirModel> {
        Seq::new(self.dirs@.len(), |i: int| self.dirs@[i]@)
    }
}

/// The predicate selecting the version subdirectory named `name`.
pub open spec fn version_pred(name: Seq<char>) -> spec_fn(DirModel) -> bool {
    |d: DirModel| d.name == name
}

/// The first version subdirectory named `name`, if any.
pub open spec fn spec_version_at(dirs: Seq<DirModel>, name: Seq<char>) -> Option<DirModel> {
    first_where(dirs, version_pred(name))
}

/// Whether a version subdirectory named `name` exists.
pub open spec fn spec_has_version(dirs: Seq<DirModel>, name: Seq<char>) -> bool {
    spec_version_at(dirs, name) is Some
}

/// The files of the version subdirectory named `name`, if it exists.
pub open spec fn spec_files_of(dirs: Seq<DirModel>, name: Seq<char>) -> Option<Seq<Seq<char>>> {
    match spec_version_at(dirs, name) {
        Some(d) => Some(d.files),
        None => None,
    }
}

/// The destination after (re)installing version `name` with contents
/// `files`: the first subdirectory of that name has its prior contents
/// fully replaced; if none exists, one is appended.
pub open spec fn spec_set_version(
    dirs: Seq<DirModel>,
    name: Seq<char>,
    files: Seq<Seq<char>>,
) -> Seq<DirModel>
    decreases dirs.len(),
{
    if dirs.len() == 0 {
        seq![DirModel { name, files }]
    } else if dirs[0].name == name {
        seq![DirModel { name, files }] + dirs.drop_first()
    } else {
        seq![dirs[0]] + spec_set_version(dirs.drop_first(), name, files)
    }
}

/// After `spec_set_version`, the version exists and holds exactly the new
/// files.
pub proof fn lemma_set_version_has(dirs: Seq<DirModel>, name: Seq<char>, files: Seq<Seq<char>>)
    ensures
        spec_has_version(spec_set_version(dirs, name, files), name),
        spec_files_of(spec_set_version(dirs, name, files), name) == Some(files),
    decreases dirs.len(),
{
    let out = spec_set_version(dirs, name, files);
    if dirs.len() == 0 {
        assert(out[0] == DirModel { name, files });
    } else if dirs[0].name == name {
        assert(out[0] == DirModel { name, files });
    } else {
        let inner = spec_set_version(dirs.drop_first(), name, files);
        lemma_set_version_has(dirs.drop_first(), name, files);
        assert(out[0] == dirs[0]);
        assert(out.drop_first() =~= inner);
    }
}

proof fn lemma_set_version_found(
    dirs: Seq<DirModel>,
    name: Seq<char>,
    files: Seq<Seq<char>>,
    i: int,
)
    requires
        0 <= i < dirs.len(),
        dirs[i].name == name,
        forall|j: int| 0 <= j < i ==> (#[trigger] dirs[j]).name != name,
    ensures
        spec_set_version(dirs, name, files) == dirs.update(i, DirModel { name, files }),
    decreases i,
{
    if i == 0 {
        assert(spec_set_version(dirs, name, files) =~= dirs.update(0, DirModel { name, files }));
    } else {
        let rest = dirs.drop_first();
        assert(forall|j: int| 0 <= j < i - 1 ==> #[trigger] rest[j] == dirs[j + 1]);
        lemma_set_version_found(rest, name, files, i - 1);
        assert(seq![dirs[0]] + rest.update(i - 1, DirModel { name, files }) =~= dirs.update(
            i,
            DirModel { name, files },
        ));
    }
}

proof fn lemma_set_version_absent(dirs: Seq<DirModel>, name: Seq<char>, files: Seq<Seq<char>>)
    requires
        forall|j: int| 0 <= j < dirs.len() ==> (#[trigger] dirs[j]).name != name,
    ensures
        spec_set_version(dirs, name, files) == dirs.push(DirModel { name, files }),
    decreases dirs.len(),
{
    if dirs.len() == 0 {
        assert(spec_set_version(dirs, name, files) =~= dirs.push(DirModel { name, files }));
    } else {
        let rest = dirs.drop_first();
        assert(forall|j: int| 0 <= j < rest.len() ==> #[trigger] rest[j] == dirs[j + 1]);
        lemma_set_version_absent(rest, name, files);
        assert(seq![dirs[0]] + rest.push(DirModel { name, files }) =~= dirs.push(
            DirModel { name, files },
        ));
    }
}

impl Destination {
    /// A destination directory with no version subdirectories.
    pub fn new() -> (r: Destination)
        ensures
            r@ =~= Seq::<DirModel>::empty(),
    {
        Destination { dirs: Vec::new() }
    }

    /// Records a pre-existing version subdirectory.
    pub fn add_version(&mut self, name: String, files: Vec<String>)
        ensures
            final(self)@ == old(self)@.push(
                DirModel { name: name@, files: files.deep_view() },
            ),
    {
        let ghost expected = old(self)@.push(DirModel { name: name@, files: files.deep_view() });
        self.dirs.push(VersionDir { name, files });
        proof {
            assert(self@ =~= expected);
        }
    }

    fn find_version(&self, name: &str) -> (r: Option<usize>)
        ensures
            match r {
                Some(i) => i < self.dirs@.len() && spec_version_at(self@, name@) == Some(
                    self.dirs@[i as int]@,
                ) && self.dirs@[i as int]@.name == name@ && (forall|j: int|
                    0 <= j < i ==> (#[trigger] self.dirs@[j]@).name != name@),
                None => spec_version_at(self@, name@) is None && (forall|j: int|
                    0 <= j < self.dirs@.len() ==> (#[trigger] self.dirs@[j]@).name != name@),
            },
    {
        let ghost p = version_pred(name@);
        let mut i: usize = 0;
        while i < self.dirs.len()
            invariant
                0 <= i <= self.dirs@.len(),
                p == version_pred(name@),
                forall|j: int| 0 <= j < i ==> !p(#[trigger] self.dirs@[j]@),
        decreases self.dirs@.len() - i,
        {
            if str_eq(self.dirs[i].name.as_str(), name) {
                proof {
                    assert(self@[i as int] == self.dirs@[i as int]@);
                    assert(forall|j: int| 0 <= j < i ==> #[trigger] self@[j] == self.dirs@[j]@);
                    lemma_first_where_at(self@, p, i as int);
                }
                return Some(i);
            }
            i += 1;
        }
        proof {
            assert(forall|j: int|
                0 <= j < self@.len() ==> #[trigger] self@[j] == self.dirs@[j]@);
            lemma_first_where_none(self@, p);
        }
        None
    }

    /// Whether a version subdirectory of that name already exists: the
    /// check behind the caller's skip/overwrite policy.
    pub fn has_version(&self, name: &str) -> (r: bool)
        ensures
            r == spec_has_version(self@, name@),
    {
        self.find_version(name).is_some()
    }

    /// The files of the version subdirectory of that name, if it exists.
    pub fn version_files(&self, name: &str) -> (r: Option<Vec<String>>)
        ensures
            match r {
                Some(v) => spec_files_of(self@, name@) == Some(v.deep_view()),
                None => spec_files_of(self@, name@) is None,
            },
    {
        match self.find_version(name) {
            Some(i) => Some(clone_strings(&self.dirs[i].files)),
            None => None,
        }
    }

    /// Replaces the contents of the version subdirectory of that name, or
    /// creates it if absent.
    fn set_version(&mut self, name: &str, files: Vec<String>)
        ensures
            final(self)@ == spec_set_version(old(self)@, name@, files.deep_view()),
    {
        let ghost f = files.deep_view();
        match self.find_version(name) {
            Some(i) => {
                let ghost before = self@;
                self.dirs.set(i, VersionDir { name: name.to_owned(), files });
                proof {
                    lemma_set_version_found(before, name@, f, i as int);
                    assert(self@ =~= before.update(i as int, DirModel { name: name@, files: f }));
                }
            }
            None => {
                let ghost before = self@;
                self.dirs.push(VersionDir { name: name.to_owned(), files });
                proof {
                    lemma_set_version_absent(before, name@, f);
                    assert(self@ =~= before.push(DirModel { name: name@, files: f }));
                }
            }
        }
    }
}

/// The two archive kinds the release feeds use.
#[derive(Clone, Copy, Debug, PartialEq, Eq, Structural)]
pub enum ArchiveKind {
    TarGz,
    TarXz,
}

/// The archive kind auto-detected from a URL's file extension.
pub open spec fn spec_archive_kind(url: Seq<char>) -> Option<ArchiveKind> {
    if seq_ends_with(url, ".tar.gz"@) {
        Some(ArchiveKind::TarGz)
    } else if seq_ends_with(url, ".tar.xz"@) {
        Some(ArchiveKind::TarXz)
    } else {
        None
    }
}

/// Auto-detects the archive kind from the URL's file extension.
pub fn archive_kind(url: &str) -> (r: Option<ArchiveKind>)
    ensures
        r == spec_archive_kind(url@),
{
    if str_ends_with(url, ".tar.gz") {
        Some(ArchiveKind::TarGz)
    } else if str_ends_with(url, ".tar.xz") {
        Some(ArchiveKind::TarXz)
    } else {
        None
    }
}

/// The file extension of an archive kind.
pub open spec fn spec_kind_extension(kind: ArchiveKind) -> Seq<char> {
    match kind {
        ArchiveKind::TarGz => ".tar.gz"@,
        ArchiveKind::TarXz => ".tar.xz"@,
    }
}

/// The name of the scratch file a release's archive is staged under:
/// the version label plus the extension the download URL carries. `None`
/// exactly when the URL has an unexpected extension.
pub fn archive_file_name(version: &str, url: &str) -> (r: Option<String>)
    ensures
        match r {
            Some(s) => spec_archive_kind(url@) is Some && s@ == version@ + spec_kind_extension(
                spec_archive_kind(url@)->Some_0,
            ),
            None => spec_archive_kind(url@) is None,
        },
{
    match archive_kind(url) {
        Some(ArchiveKind::TarGz) => Some(version.to_owned().concat(".tar.gz")),
        Some(ArchiveKind::TarXz) => Some(version.to_owned().concat(".tar.xz")),
        None => None,
    }
}

/// What the outside world hands one request: the delivered archive bytes,
/// the checksum payload, and the archive's directory listing, with flags
/// for the ways the transfer can go wrong.
#[derive(Debug)]
pub struct SimSource {
    /// The archive bytes as delivered, chunk by chunk.
    pub chunks: Vec<Vec<u8>>,
    /// Whether the byte stream ended cleanly; `false` is a transport
    /// failure after the delivered chunks.
    pub transport_ok: bool,
    /// The checksum payload; `None` is a transport failure on its fetch.
    pub checksum: Option<Vec<u8>>,
    /// The names of the files the archive unpacks to.
    pub entries: Vec<String>,
    /// Whether the archive decompresses cleanly; `false` is a corrupt
    /// archive.
    pub intact: bool,
}

/// The concatenation of a sequence of byte chunks.
pub open spec fn spec_concat_bytes(chunks: Seq<Seq<u8>>) -> Seq<u8>
    decreases chunks.len(),
{
    if chunks.len() == 0 {
        Seq::empty()
    } else {
        spec_concat_bytes(chunks.drop_last()) + chunks.last()
    }
}

proof fn lemma_concat_take_succ(chunks: Seq<Seq<u8>>, i: int)
    requires
        0 <= i < chunks.len(),
    ensures
        spec_concat_bytes(chunks.take(i + 1)) == spec_concat_bytes(chunks.take(i)) + chunks[i],
{
    assert(chunks.take(i + 1).drop_last() =~= chunks.take(i));
    assert(chunks.take(i + 1).last() == chunks[i]);
}

proof fn lemma_concat_take_len_le(chunks: Seq<Seq<u8>>, i: int)
    requires
        0 <= i <= chunks.len(),
    ensures
        spec_concat_bytes(chunks.take(i)).len() <= spec_concat_bytes(chunks).len(),
    decreases chunks.len() - i,
{
    if i < chunks.len() {
        lemma_concat_take_succ(chunks, i);
        lemma_concat_take_len_le(chunks, i + 1);
    } else {
        assert(chunks.take(i) =~= chunks);
    }
}

/// The full archive byte content a modelled transfer delivers.
pub open spec fn spec_sim_data(src: SimSource) -> Seq<u8> {
    spec_concat_bytes(src.chunks.deep_view())
}

/// What `install` returns for a given request and transfer, stage by
/// stage: a broken stream or a failed checksum fetch is a network error;
/// then a digest mismatch is a verification error — a hard gate, never
/// bypassable; then an unexpected URL extension or a corrupt archive is an
/// extraction error; otherwise the install succeeds.
pub open spec fn spec_install_result(req: DownloadRequest, src: SimSource) -> Result<
    (),
    PipelineError,
> {
    if !src.transport_ok {
        Err(PipelineError::Network)
    } else if src.checksum is None {
        Err(PipelineError::Network)
    } else if !spec_digest_matches(spec_sim_data(src), src.checksum->Some_0@) {
        Err(PipelineError::Verification)
    } else if spec_archive_kind(req.release.download_url@) is None {
        Err(PipelineError::Extraction)
    } else if !src.intact {
        Err(PipelineError::Extraction)
    } else {
        Ok(())
    }
}

/// The destination after `install`: on success, the release's version
/// subdirectory holds exactly the archive's files; on any failure the
/// destination gains nothing.
pub open spec fn spec_dest_after(
    dest: Seq<DirModel>,
    req: DownloadRequest,
    src: SimSource,
) -> Seq<DirModel> {
    if spec_install_result(req, src) is Ok {
        spec_set_version(dest, req.release.version@, src.entries.deep_view())
    } else {
        dest
    }
}

/// Runs one request through the pipeline against a modelled transfer:
/// streams the chunks with live progress, reconciles the counter to the
/// true byte count, verifies the digest, and extracts into the
/// destination. Returns the result together with the progress state as
/// the observer last saw it: terminal in every case, with the counter
/// reconciled to the delivered byte count exactly.
pub fn install(req: &DownloadRequest, source: &SimSource, dest: &mut Destination) -> (r: (
    Result<(), PipelineError>,
    ProgressState,
))
    requires
        spec_sim_data(*source).len() <= u64::MAX,
    ensures
        r.0 == spec_install_result(*req, *source),
        final(dest)@ == spec_dest_after(old(dest)@, *req, *source),
        r.1.spec_done(),
        r.1.spec_bytes_done() == spec_sim_data(*source).len(),
{
    let ghost chunks_view = source.chunks.deep_view();
    let mut pl = Pipeline::new();
    pl.start();

    // Downloading: stream the chunks, counting each one only once written.
    let mut data: Vec<u8> = Vec::new();
    let mut i: usize = 0;
    while i < source.chunks.len()
        invariant
            0 <= i <= source.chunks@.len(),
            chunks_view == source.chunks.deep_view(),
            chunks_view.len() == source.chunks@.len(),
            spec_concat_bytes(chunks_view).len() <= u64::MAX,
            data@ == spec_concat_bytes(chunks_view.take(i as int)),
            pl.spec_stage() == Stage::Downloading,
            pl.wf(),
            pl.spec_progress().spec_bytes_done() == data@.len(),
        decreases source.chunks@.len() - i,
    {
        let ghost before = data@;
        let chunk = &source.chunks[i];
        proof {
            assert(chunks_view[i as int] == source.chunks@[i as int].deep_view());
            assert(source.chunks@[i as int].deep_view() =~= chunk@);
        }
        let mut j: usize = 0;
        while j < chunk.len()
            invariant
                0 <= j <= chunk@.len(),
                data@ == before + chunk@.take(j as int),
            decreases chunk@.len() - j,
        {
            data.push(chunk[j]);
            j += 1;
            proof {
                assert(data@ =~= before + chunk@.take(j as int));
            }
        }
        proof {
            assert(chunk@.take(chunk@.len() as int) =~= chunk@);
            lemma_concat_take_succ(chunks_view, i as int);
            lemma_concat_take_len_le(chunks_view, i + 1);
        }
        pl.chunk_written(chunk.len() as u64);
        i += 1;
    }
    proof {
        assert(chunks_view.take(chunks_view.len() as int) =~= chunks_view);
    }

    if !source.transport_ok {
        pl.fail(PipelineError::Network);
        return (Err(PipelineError::Network), pl.progress());
    }
    pl.finish_download(data.len() as u64);

    // Verifying: fetch the checksum payload and compare digests.
    match &source.checksum {
        None => {
            pl.fail(PipelineError::Network);
            (Err(PipelineError::Network), pl.progress())
        }
        Some(payload) => {
            if !hash_check(&data, payload) {
                pl.fail(PipelineError::Verification);
                return (Err(PipelineError::Verification), pl.progress());
            }
            pl.verify_passed();

            // Extracting: detect the archive kind, then unpack.
            if archive_kind(req.release.download_url.as_str()).is_none() {
                pl.fail(PipelineError::Extraction);
                return (Err(PipelineError::Extraction), pl.progress());
            }
            if !source.intact {
                pl.fail(PipelineError::Extraction);
                return (Err(PipelineError::Extraction), pl.progress());
            }
            dest.set_version(req.release.version.as_str(), clone_strings(&source.entries));
            pl.extraction_done();
            (Ok(()), pl.progress())
        }
    }
}

/// The outcome of an install guarded by the caller's skip/overwrite
/// policy.
#[derive(Clone, Copy, Debug, PartialEq, Eq, Structural)]
pub enum InstallOutcome {
    Installed,
    SkippedExisting,
    Failed(PipelineError),
}

/// The outcome of a guarded install: a version already present is skipped
/// unless the caller confirmed overwriting; otherwise the pipeline runs.
pub open spec fn spec_guarded_outcome(
    dest: Seq<DirModel>,
    req: DownloadRequest,
    src: SimSource,
    overwrite: bool,
) -> InstallOutcome {
    if spec_has_version(dest, req.release.version@) && !overwrite {
        InstallOutcome::SkippedExisting
    } else {
        match spec_install_result(req, src) {
            Ok(_) => InstallOutcome::Installed,
            Err(e) => InstallOutcome::Failed(e),
        }
    }
}

/// The destination after a guarded install: untouched on a skip.
pub open spec fn spec_guarded_dest(
    dest: Seq<DirModel>,
    req: DownloadRequest,
    src: SimSource,
    overwrite: bool,
) -> Seq<DirModel> {
    if spec_has_version(dest, req.release.version@) && !overwrite {
        dest
    } else {
        spec_dest_after(dest, req, src)
    }
}

/// Runs one request with the caller's skip/overwrite policy applied: if a
/// subdirectory named after the release's version already exists, the
/// pipeline is not invoked unless `overwrite` was confirmed, in which case
/// the pre-existing contents are replaced by the archive's. The progress
/// state is `None` exactly when the pipeline was never invoked.
pub fn install_guarded(
    req: &DownloadRequest,
    overwrite: bool,
    source: &SimSource,
    dest: &mut Destination,
) -> (r: (InstallOutcome, Option<ProgressState>))
    requires
        spec_sim_data(*source).len() <= u64::MAX,
    ensures
        r.0 == spec_guarded_outcome(old(dest)@, *req, *source, overwrite),
        final(dest)@ == spec_guarded_dest(old(dest)@, *req, *source, overwrite),
        (r.1 is None) == (r.0 == InstallOutcome::SkippedExisting),
        r.1 is Some ==> r.1->Some_0.spec_done() && r.1->Some_0.spec_bytes_done()
            == spec_sim_data(*source).len(),
{
    if dest.has_version(req.release.version.as_str()) && !overwrite {
        return (InstallOutcome::SkippedExisting, None);
    }
    let (res, progress) = install(req, source, dest);
    match res {
        Ok(_) => (InstallOutcome::Installed, Some(progress)),
        Err(e) => (InstallOutcome::Failed(e), Some(progress)),
    }
}

/// A digest mismatch always prevents extraction: whatever the archive
/// bytes, a checksum payload whose digest does not match them fails the
/// install with a verification error, and the destination gains nothing.
pub proof fn lemma_digest_mismatch_blocks_extraction(
    dest: Seq<DirModel>,
    req: DownloadRequest,
    src: SimSource,
)
    requires
        src.transport_ok,
        src.checksum is Some,
        !spec_digest_matches(spec_sim_data(src), src.checksum->Some_0@),
    ensures
        spec_install_result(req, src) == Err::<(), PipelineError>(PipelineError::Verification),
        spec_dest_after(dest, req, src) == dest,
{
}

/// A successful install publishes the release's version: the destination
/// then has a subdirectory of that name holding exactly the archive's
/// files.
pub proof fn lemma_install_publishes_version(
    dest: Seq<DirModel>,
    req: DownloadRequest,
    src: SimSource,
)
    requires
        spec_install_result(req, src) is Ok,
    ensures
        spec_has_version(spec_dest_after(dest, req, src), req.release.version@),
        spec_files_of(spec_dest_after(dest, req, src), req.release.version@) == Some(
            src.entries.deep_view(),
        ),
{
    lemma_set_version_has(dest, req.release.version@, src.entries.deep_view());
}

/// Installing the same release twice without the overwrite flag performs
/// no work the second time: after a successful install, a second guarded
/// install of the same version is skipped and leaves the destination
/// unchanged, whatever the second transfer would have delivered.
pub proof fn lemma_second_install_skipped(
    dest: Seq<DirModel>,
    req: DownloadRequest,
    src: SimSource,
    src2: SimSource,
)
    requires
        spec_install_result(req, src) is Ok,
    ensures
        ({
            let once = spec_dest_after(dest, req, src);
            spec_guarded_outcome(once, req, src2, false) == InstallOutcome::SkippedExisting
                && spec_guarded_dest(once, req, src2, false) == once
        }),
{
    lemma_install_publishes_version(dest, req, src);
}

/// Installing the same release again with the overwrite flag fully
/// replaces the version subdirectory's prior contents with what the new
/// transfer delivered.
pub proof fn lemma_overwrite_replaces_contents(
    dest: Seq<DirModel>,
    req: DownloadRequest,
    src: SimSource,
    src2: SimSource,
)
    requires
        spec_install_result(req, src) is Ok,
        spec_install_result(req, src2) is Ok,
    ensures
        ({
            let once = spec_dest_after(dest, req, src);
            let twice = spec_guarded_dest(once, req, src2, true);
            spec_files_of(twice, req.release.version@) == Some(src2.entries.deep_view())
        }),
{
    lemma_install_publishes_version(dest, req, src);
    lemma_install_publishes_version(spec_dest_after(dest, req, src), req, src2);
}

} // verus!
