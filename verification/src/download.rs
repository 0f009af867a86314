//! The per-identifier download orchestrator.
//!
//! Each tracked identifier runs one task through a fixed pipeline: resolve
//! the project title, list the matching versions, pick the file to install,
//! decide from the local file's hash whether anything is to do, delete a
//! stale file before replacing it, fetch, and verify the written bytes
//! against the declared hash.  The task is a state machine: [`Downloader::step`]
//! consumes the result of the last I/O action and returns the next one, so
//! every decision is verified here while the driver only performs I/O.
//!
//! Tasks are independent: a step reads nothing but its own task's state and
//! the event handed in, so concurrent tasks cannot affect one another, and a
//! failure in one leaves every other task's run untouched.

use vstd::prelude::*;

use crate::registry::{Error, ErrorModel, FileModel, ModFile, Version, selected_index};

verus! {

/// Fixed configuration shared by every task: where files land, and the
/// platform version and loader the registry is filtered by.  The driver
/// must ensure the output directory exists before tasks run.
pub struct Downloader {
    /// Directory the canonical files are kept in.
    pub mod_path: String,
    /// Target platform version, passed to the registry as-is.
    pub version: String,
    /// Target loader name, passed to the registry as-is.
    pub loader: String,
}

/// What the driver found at a task's destination path.
#[derive(Debug)]
pub enum LocalFile {
    /// No file exists at the destination.
    Absent,
    /// A file exists; its content hash, read from disk.
    Present {
        /// Hex digest of the bytes on disk.
        hash: String,
    },
}

/// What [`Downloader::should_download`] decides for a destination.
#[derive(Debug)]
pub enum Decision {
    /// The local file already carries the declared hash: leave it alone.
    Skip,
    /// A stale local file exists: delete it, then fetch.
    DeleteThenFetch,
    /// Nothing is at the destination: fetch.
    Fetch,
}

/// How one identifier's run ended.
#[derive(Debug)]
pub enum Outcome {
    /// A fresh file was fetched and its on-disk hash verified.
    Downloaded,
    /// The local file was already current; nothing was touched.
    Skipped,
    /// The run ended early; the error says why.
    Failed {
        /// What ended the run.
        error: Error,
    },
}

/// The states of one identifier's task.
#[derive(Debug)]
pub enum TaskState {
    /// Waiting for the project title.
    Resolving,
    /// Waiting for the filtered version listing.
    Listing {
        /// The resolved project title, for messages.
        title: String,
    },
    /// Waiting for the probe of the destination path.
    Probing {
        /// The resolved project title, for messages.
        title: String,
        /// The file chosen for installation.
        file: ModFile,
        /// The canonical destination path.
        dest: String,
    },
    /// Waiting for the stale file's deletion.
    Deleting {
        /// The resolved project title, for messages.
        title: String,
        /// The file chosen for installation.
        file: ModFile,
        /// The canonical destination path.
        dest: String,
    },
    /// Waiting for the fetch into the destination.
    Fetching {
        /// The resolved project title, for messages.
        title: String,
        /// The file chosen for installation.
        file: ModFile,
        /// The canonical destination path.
        dest: String,
    },
    /// Waiting for the hash of the freshly written file.
    Verifying {
        /// The resolved project title, for messages.
        title: String,
        /// The file chosen for installation.
        file: ModFile,
        /// The canonical destination path.
        dest: String,
    },
    /// The run is over.
    Finished {
        /// How it ended.
        outcome: Outcome,
    },
}

/// One identifier's task: the identifier and where its run stands.
#[derive(Debug)]
pub struct DownloadTask {
    /// The tracked identifier whose file the task keeps current.
    pub mod_id: String,
    /// Where the run stands.
    pub state: TaskState,
}

/// The result of the I/O action a task was waiting for.
#[derive(Debug)]
pub enum Event {
    /// The title lookup came back.
    TitleResolved {
        /// The resolved title, or why resolution failed.
        result: Result<String, Error>,
    },
    /// The filtered version listing came back.
    VersionsListed {
        /// The decoded listing, or why it could not be fetched.
        result: Result<Vec<Version>, Error>,
    },
    /// The destination path was probed and, if present, hashed.
    LocalProbed {
        /// What the disk holds, or the read failure.
        result: Result<LocalFile, Error>,
    },
    /// The stale file's deletion finished.
    StaleDeleted {
        /// Success, or the delete failure.
        result: Result<(), Error>,
    },
    /// The fetch into the destination finished.
    FileFetched {
        /// Success, or why the fetch failed.
        result: Result<(), Error>,
    },
    /// The freshly written file was hashed from disk.
    WrittenHashed {
        /// The on-disk hash, or the read failure.
        result: Result<String, Error>,
    },
}

/// The I/O the driver must perform next for a task.
#[derive(Debug)]
pub enum Action {
    /// Resolve the project title (cache first, then the registry).
    ResolveTitle,
    /// Fetch the version listing with exactly these filters.
    ListVersions {
        /// Loader filter value, as configured.
        loader: String,
        /// Platform version filter value, as configured.
        game_version: String,
    },
    /// Report whether a file exists at the path and what it hashes to.
    ProbeLocal {
        /// The destination path to probe.
        path: String,
    },
    /// Delete the stale file at the path.
    DeleteLocal {
        /// The destination path to clear.
        path: String,
    },
    /// Stream the URL's bytes to the path.
    Fetch {
        /// Where the file's bytes are published.
        url: String,
        /// The destination path to write.
        path: String,
    },
    /// Hash the freshly written file, reading it back from disk.
    HashWritten {
        /// The destination path to hash.
        path: String,
    },
    /// Nothing more to do: the task is finished and holds its outcome.
    Report,
}

/// The canonical destination for an identifier: one fixed path per
/// identifier, so re-runs find the file without a side index.
pub open spec fn dest_of(cfg: Downloader, mod_id: Seq<char>) -> Seq<char> {
    cfg.mod_path@ + "/"@ + mod_id + ".jar"@
}

/// A task that ended in failure with this error, and no further action.
pub open spec fn fails(post: TaskState, action: Action, e: ErrorModel) -> bool {
    &&& post matches TaskState::Finished { outcome } && outcome matches Outcome::Failed { error }
        && error@ == e
    &&& action is Report
}

/// Which event kind a state waits for.
pub open spec fn expects(pre: TaskState, event: Event) -> bool {
    match (pre, event) {
        (TaskState::Resolving, Event::TitleResolved { .. }) => true,
        (TaskState::Listing { .. }, Event::VersionsListed { .. }) => true,
        (TaskState::Probing { .. }, Event::LocalProbed { .. }) => true,
        (TaskState::Deleting { .. }, Event::StaleDeleted { .. }) => true,
        (TaskState::Fetching { .. }, Event::FileFetched { .. }) => true,
        (TaskState::Verifying { .. }, Event::WrittenHashed { .. }) => true,
        _ => false,
    }
}

/// The transition relation of a task: what one step does with the event it
/// was waiting for.  This is the orchestrator's whole contract; every rule
/// of the pipeline is a case here.
pub open spec fn next(
    cfg: Downloader,
    mod_id: Seq<char>,
    pre: TaskState,
    event: Event,
    post: TaskState,
    action: Action,
) -> bool {
    match (pre, event) {
        (TaskState::Resolving, Event::TitleResolved { result }) => match result {
            Ok(title) => {
                &&& post matches TaskState::Listing { title: t } && t@ == title@
                &&& action matches Action::ListVersions { loader, game_version } && loader@
                    == cfg.loader@ && game_version@ == cfg.version@
            },
            Err(e) => fails(post, action, e@),
        },
        (TaskState::Listing { title }, Event::VersionsListed { result }) => match result {
            Ok(versions) => {
                if versions@.len() == 0 {
                    fails(post, action, ErrorModel::NoMatchingVersion { title: title@ })
                } else if versions@[0]@.files.len() == 0 {
                    fails(post, action, ErrorModel::Decode)
                } else {
                    let files = versions@[0]@.files;
                    let chosen = files[selected_index(files)];
                    &&& post matches TaskState::Probing { title: t, file, dest } && t@ == title@
                        && file@ == chosen && dest@ == dest_of(cfg, mod_id)
                    &&& action matches Action::ProbeLocal { path } && path@ == dest_of(
                        cfg,
                        mod_id,
                    )
                }
            },
            Err(e) => fails(post, action, e@),
        },
        (TaskState::Probing { title, file, dest }, Event::LocalProbed { result }) => match result {
            Ok(local) => match local {
                LocalFile::Absent => {
                    &&& post matches TaskState::Fetching { title: t, file: f, dest: d } && t@
                        == title@ && f@ == file@ && d@ == dest@
                    &&& action matches Action::Fetch { url, path } && url@ == file@.url && path@
                        == dest@
                },
                LocalFile::Present { hash } => if hash@ == file@.sha512 {
                    &&& post matches TaskState::Finished { outcome } && outcome is Skipped
                    &&& action is Report
                } else {
                    &&& post matches TaskState::Deleting { title: t, file: f, dest: d } && t@
                        == title@ && f@ == file@ && d@ == dest@
                    &&& action matches Action::DeleteLocal { path } && path@ == dest@
                },
            },
            Err(e) => fails(post, action, e@),
        },
        (TaskState::Deleting { title, file, dest }, Event::StaleDeleted { result }) => match result {
            Ok(_) => {
                &&& post matches TaskState::Fetching { title: t, file: f, dest: d } && t@
                    == title@ && f@ == file@ && d@ == dest@
                &&& action matches Action::Fetch { url, path } && url@ == file@.url && path@
                    == dest@
            },
            Err(e) => fails(post, action, e@),
        },
        (TaskState::Fetching { title, file, dest }, Event::FileFetched { result }) => match result {
            Ok(_) => {
                &&& post matches TaskState::Verifying { title: t, file: f, dest: d } && t@
                    == title@ && f@ == file@ && d@ == dest@
                &&& action matches Action::HashWritten { path } && path@ == dest@
            },
            Err(e) => fails(post, action, e@),
        },
        (TaskState::Verifying { title, file, dest }, Event::WrittenHashed { result }) => match result {
            Ok(found) => if found@ == file@.sha512 {
                &&& post matches TaskState::Finished { outcome } && outcome is Downloaded
                &&& action is Report
            } else {
                fails(post, action, ErrorModel::IntegrityViolation)
            },
            Err(e) => fails(post, action, e@),
        },
        _ => false,
    }
}

impl Downloader {
    /// A downloader over its fixed configuration.  The driver must have
    /// created the output directory before any task runs.
    pub fn new(mod_path: String, version: String, loader: String) -> (d: Self)
        ensures
            d.mod_path@ == mod_path@,
            d.version@ == version@,
            d.loader@ == loader@,
    {
        Downloader { mod_path, version, loader }
    }

    /// The canonical destination path for an identifier.
    pub fn destination_path(&self, mod_id: &String) -> (r: String)
        ensures
            r@ == dest_of(*self, mod_id@),
    {
        self.mod_path.clone().concat("/").concat(mod_id.as_str()).concat(".jar")
    }

    /// Decides from the destination's probe whether anything is to do:
    /// freshness is judged by content hash alone, never by name or
    /// timestamp.
    pub fn should_download(&self, local: &LocalFile, declared: &String) -> (d: Decision)
        ensures
            d is Skip <==> (local matches LocalFile::Present { hash } && hash@ == declared@),
            d is Fetch <==> local is Absent,
            d is DeleteThenFetch <==> (local matches LocalFile::Present { hash } && hash@
                != declared@),
    {
        match local {
            LocalFile::Absent => Decision::Fetch,
            LocalFile::Present { hash } => if *hash == *declared {
                Decision::Skip
            } else {
                Decision::DeleteThenFetch
            },
        }
    }

    /// Starts one identifier's task: the driver should first resolve the
    /// title, then feed every result back through [`Downloader::step`].
    pub fn begin(&self, mod_id: String) -> (r: (DownloadTask, Action))
        ensures
            r.0.mod_id@ == mod_id@,
            r.0.state is Resolving,
            r.1 is ResolveTitle,
    {
        (DownloadTask { mod_id, state: TaskState::Resolving }, Action::ResolveTitle)
    }

    /// Advances a task by the result of its pending I/O action and returns
    /// the next one.  The whole pipeline is the contract [`next`].
    pub fn step(&self, task: &mut DownloadTask, event: Event) -> (a: Action)
        requires
            expects(old(task).state, event),
        ensures
            final(task).mod_id@ == old(task).mod_id@,
            next(*self, old(task).mod_id@, old(task).state, event, final(task).state, a),
    {
        let (new_state, action): (TaskState, Action) = match (&task.state, event) {
            (TaskState::Resolving, Event::TitleResolved { result }) => match result {
                Ok(title) => (
                    TaskState::Listing { title },
                    Action::ListVersions {
                        loader: self.loader.clone(),
                        game_version: self.version.clone(),
                    },
                ),
                Err(e) => (
                    TaskState::Finished { outcome: Outcome::Failed { error: e } },
                    Action::Report,
                ),
            },
            (TaskState::Listing { title }, Event::VersionsListed { result }) => match result {
                Ok(versions) => {
                    if versions.len() == 0 {
                        (
                            TaskState::Finished {
                                outcome: Outcome::Failed {
                                    error: Error::NoMatchingVersion { title: title.clone() },
                                },
                            },
                            Action::Report,
                        )
                    } else {
                        let newest = &versions[0];
                        match newest.select_file() {
                            None => (
                                TaskState::Finished {
                                    outcome: Outcome::Failed { error: Error::Decode },
                                },
                                Action::Report,
                            ),
                            Some(i) => {
                                let file = newest.files[i].clone();
                                let dest = self.destination_path(&task.mod_id);
                                proof {
                                    assert(newest@.files[i as int] == newest.files@[i as int]@);
                                }
                                (
                                    TaskState::Probing {
                                        title: title.clone(),
                                        file,
                                        dest: dest.clone(),
                                    },
                                    Action::ProbeLocal { path: dest },
                                )
                            },
                        }
                    }
                },
                Err(e) => (
                    TaskState::Finished { outcome: Outcome::Failed { error: e } },
                    Action::Report,
                ),
            },
            (TaskState::Probing { title, file, dest }, Event::LocalProbed { result }) => match result {
                Ok(local) => match self.should_download(&local, &file.hashes.sha512) {
                    Decision::Skip => (
                        TaskState::Finished { outcome: Outcome::Skipped },
                        Action::Report,
                    ),
                    Decision::Fetch => (
                        TaskState::Fetching {
                            title: title.clone(),
                            file: file.clone(),
                            dest: dest.clone(),
                        },
                        Action::Fetch { url: file.url.clone(), path: dest.clone() },
                    ),
                    Decision::DeleteThenFetch => (
                        TaskState::Deleting {
                            title: title.clone(),
                            file: file.clone(),
                            dest: dest.clone(),
                        },
                        Action::DeleteLocal { path: dest.clone() },
                    ),
                },
                Err(e) => (
                    TaskState::Finished { outcome: Outcome::Failed { error: e } },
                    Action::Report,
                ),
            },
            (TaskState::Deleting { title, file, dest }, Event::StaleDeleted { result }) => match result {
                Ok(_) => (
                    TaskState::Fetching {
                        title: title.clone(),
                        file: file.clone(),
                        dest: dest.clone(),
                    },
                    Action::Fetch { url: file.url.clone(), path: dest.clone() },
                ),
                Err(e) => (
                    TaskState::Finished { outcome: Outcome::Failed { error: e } },
                    Action::Report,
                ),
            },
            (TaskState::Fetching { title, file, dest }, Event::FileFetched { result }) => match result {
                Ok(_) => (
                    TaskState::Verifying {
                        title: title.clone(),
                        file: file.clone(),
                        dest: dest.clone(),
                    },
                    Action::HashWritten { path: dest.clone() },
                ),
                Err(e) => (
                    TaskState::Finished { outcome: Outcome::Failed { error: e } },
                    Action::Report,
                ),
            },
            (TaskState::Verifying { file, .. }, Event::WrittenHashed { result }) => match result {
                Ok(found) => if found == file.hashes.sha512 {
                    (TaskState::Finished { outcome: Outcome::Downloaded }, Action::Report)
                } else {
                    (
                        TaskState::Finished {
                            outcome: Outcome::Failed { error: Error::IntegrityViolation },
                        },
                        Action::Report,
                    )
                },
                Err(e) => (
                    TaskState::Finished { outcome: Outcome::Failed { error: e } },
                    Action::Report,
                ),
            },
            _ => vstd::pervasive::unreached(),
        };
        task.state = new_state;
        action
    }
}

/// An outcome severe enough to halt the whole run: a written file whose
/// bytes cannot be trusted.
pub open spec fn is_fatal_outcome(o: Outcome) -> bool {
    o matches Outcome::Failed { error } && error is IntegrityViolation
}

/// The whole run's verdict, taken after every task's outcome is collected:
/// the run fails exactly when some identifier ended in an integrity
/// violation.  Every other failure stays isolated to its identifier.
pub fn run_verdict(outcomes: &Vec<Outcome>) -> (fatal: bool)
    ensures
        fatal <==> exists|i: int|
            0 <= i < outcomes@.len() && is_fatal_outcome(#[trigger] outcomes@[i]),
{
    let n = outcomes.len();
    for i in 0..n
        invariant
            n == outcomes@.len(),
            forall|j: int| 0 <= j < i ==> !is_fatal_outcome(#[trigger] outcomes@[j]),
    {
        let fatal_here = match &outcomes[i] {
            Outcome::Failed { error } => error.is_fatal(),
            _ => false,
        };
        if fatal_here {
            proof {
                assert(is_fatal_outcome(outcomes@[i as int]));
            }
            return true;
        }
    }
    false
}

/// A destination whose file already carries the declared hash is left
/// alone: the step ends the task as Skipped and orders nothing further, so
/// the file on disk stays untouched.
pub proof fn lemma_skip_when_current(
    cfg: Downloader,
    mod_id: Seq<char>,
    pre: TaskState,
    event: Event,
    post: TaskState,
    action: Action,
)
    requires
        next(cfg, mod_id, pre, event, post, action),
        pre matches TaskState::Probing { file, .. } && event matches Event::LocalProbed {
            result,
        } && result matches Ok(local) && local matches LocalFile::Present { hash } && hash@
            == file@.sha512,
    ensures
        post matches TaskState::Finished { outcome } && outcome is Skipped,
        action is Report,
{
}

/// A task finishes Downloaded only out of verification: the bytes read back
/// from disk hash to the declared digest of the chosen file.
pub proof fn lemma_downloaded_only_verified(
    cfg: Downloader,
    mod_id: Seq<char>,
    pre: TaskState,
    event: Event,
    post: TaskState,
    action: Action,
)
    requires
        next(cfg, mod_id, pre, event, post, action),
        post matches TaskState::Finished { outcome } && outcome is Downloaded,
    ensures
        pre is Verifying,
        event matches Event::WrittenHashed { result } && result matches Ok(found) && found@
            == pre->Verifying_file@.sha512,
{
}

/// Re-running an unchanged identifier skips.  A run that finished
/// Downloaded verified that the destination's bytes hash to the declared
/// digest; when the registry still declares the same digest and the disk
/// still holds those bytes, the next run's probe carries that hash and its
/// step ends Skipped, ordering no delete, fetch or write.
pub proof fn lemma_idempotent_rerun(
    cfg: Downloader,
    mod_id: Seq<char>,
    done_pre: TaskState,
    done_event: Event,
    done_post: TaskState,
    done_action: Action,
    cfg2: Downloader,
    mod_id2: Seq<char>,
    probe_pre: TaskState,
    probe_event: Event,
    probe_post: TaskState,
    probe_action: Action,
)
    requires
        next(cfg, mod_id, done_pre, done_event, done_post, done_action),
        done_post matches TaskState::Finished { outcome } && outcome is Downloaded,
        next(cfg2, mod_id2, probe_pre, probe_event, probe_post, probe_action),
        // the registry still resolves to a file with the same declared hash
        probe_pre matches TaskState::Probing { file, .. } && file@.sha512
            == done_pre->Verifying_file@.sha512,
        // the disk still holds the bytes the first run verified
        probe_event matches Event::LocalProbed { result } && result matches Ok(local) && (
        done_event matches Event::WrittenHashed { result: written } && written matches Ok(h)
            && local matches LocalFile::Present { hash } && hash@ == h@),
    ensures
        probe_post matches TaskState::Finished { outcome } && outcome is Skipped,
        probe_action is Report,
{
}

/// A stale destination is replaced, destructively but in order: the probe
/// that finds a differing hash orders exactly the deletion of the
/// destination, and the completed deletion orders exactly the fetch of the
/// chosen file's URL into that destination.
pub proof fn lemma_replacement(
    cfg: Downloader,
    mod_id: Seq<char>,
    probe_pre: TaskState,
    probe_event: Event,
    probe_post: TaskState,
    probe_action: Action,
    del_event: Event,
    del_post: TaskState,
    del_action: Action,
)
    requires
        next(cfg, mod_id, probe_pre, probe_event, probe_post, probe_action),
        probe_pre matches TaskState::Probing { file, .. } && probe_event
            matches Event::LocalProbed { result } && result matches Ok(local) && local
            matches LocalFile::Present { hash } && hash@ != file@.sha512,
        next(cfg, mod_id, probe_post, del_event, del_post, del_action),
        del_event matches Event::StaleDeleted { result } && result is Ok,
    ensures
        probe_action matches Action::DeleteLocal { path } && path@ == probe_pre->Probing_dest@,
        del_action matches Action::Fetch { url, path } && url@ == probe_pre->Probing_file@.url
            && path@ == probe_pre->Probing_dest@,
        del_post matches TaskState::Fetching { file, dest, .. } && file@
            == probe_pre->Probing_file@ && dest@ == probe_pre->Probing_dest@,
{
}

/// An identifier with no matching version fails with exactly that error
/// and the step orders nothing: no download is ever requested for it.
pub proof fn lemma_empty_versions_fail(
    cfg: Downloader,
    mod_id: Seq<char>,
    pre: TaskState,
    event: Event,
    post: TaskState,
    action: Action,
)
    requires
        next(cfg, mod_id, pre, event, post, action),
        event matches Event::VersionsListed { result } && result matches Ok(versions)
            && versions@.len() == 0,
    ensures
        post matches TaskState::Finished { outcome } && outcome matches Outcome::Failed { error }
            && error@ == (ErrorModel::NoMatchingVersion { title: pre->Listing_title@ }),
        action is Report,
{
}

/// A fetch into the destination is ordered only when nothing can be there:
/// either the probe found the destination absent, or the stale file's
/// deletion just succeeded.  The pipeline never holds two candidate files
/// for one identifier.
pub proof fn lemma_fetch_provenance(
    cfg: Downloader,
    mod_id: Seq<char>,
    pre: TaskState,
    event: Event,
    post: TaskState,
    action: Action,
)
    requires
        next(cfg, mod_id, pre, event, post, action),
        action is Fetch,
    ensures
        pre is Probing || pre is Deleting,
        pre is Probing ==> (event matches Event::LocalProbed { result } && result matches Ok(
            local,
        ) && local is Absent),
        pre is Deleting ==> (event matches Event::StaleDeleted { result } && result is Ok),
{
}

} // verus!
