//! Data published by the package registry, and the errors of the pipeline.
//!
//! The registry answers three requests: project metadata (a title), a list of
//! versions filtered by platform version and loader, and the raw bytes of a
//! published file.  The driver performs the requests and decodes the bodies;
//! the types and decisions here are what the verified core works on.

use vstd::prelude::*;

verus! {

/// Content hashes a registry file is published with.
#[derive(Debug)]
pub struct Hashes {
    /// Hex digest of the file's bytes under the registry's 512-bit hash.
    pub sha512: String,
}

/// One downloadable file of a published version.
#[derive(Debug)]
pub struct ModFile {
    /// Declared content hashes of the file.
    pub hashes: Hashes,
    /// Where the file's bytes can be fetched.
    pub url: String,
    /// The registry's suggested filename.
    pub filename: String,
    /// Whether the registry marks this file as the canonical artifact.
    pub primary: bool,
}

/// One published build matching a (platform version, loader) filter.
#[derive(Debug)]
pub struct Version {
    /// Display name of the build.
    pub name: String,
    /// The files the build publishes, in the registry's order.
    pub files: Vec<ModFile>,
}

/// Project metadata: only the human-readable title is consumed.
#[derive(Debug)]
pub struct ProjectInformation {
    /// Human-readable project title, used in messages.
    pub title: String,
}

/// Mathematical model of a [`ModFile`].
#[verifier::ext_equal]
pub ghost struct FileModel {
    /// Declared hex digest of the file's content.
    pub sha512: Seq<char>,
    /// Download location.
    pub url: Seq<char>,
    /// Suggested filename.
    pub filename: Seq<char>,
    /// Canonical-artifact mark.
    pub primary: bool,
}

/// Mathematical model of a [`Version`].
#[verifier::ext_equal]
pub ghost struct VersionModel {
    /// Display name of the build.
    pub name: Seq<char>,
    /// Models of the published files, in the registry's order.
    pub files: Seq<FileModel>,
}

impl View for ModFile {
    type V = FileModel;

    open spec fn view(&self) -> FileModel {
        FileModel {
            sha512: self.hashes.sha512@,
            url: self.url@,
            filename: self.filename@,
            primary: self.primary,
        }
    }
}

impl View for Version {
    type V = VersionModel;

    open spec fn view(&self) -> VersionModel {
        VersionModel {
            name: self.name@,
            files: self.files@.map_values(|f: ModFile| f@),
        }
    }
}

/// Whether any file of the list is flagged primary.
pub open spec fn has_primary(files: Seq<FileModel>) -> bool {
    exists|i: int| 0 <= i < files.len() && files[i].primary
}

/// The index of the file the pipeline installs: the first primary-flagged
/// file, or file 0 when none is flagged — the registry treats a version
/// without a primary file as valid and meaning "use the first".
pub open spec fn selected_index(files: Seq<FileModel>) -> int
    decreases files.len(),
{
    if files.len() == 0 {
        0
    } else if files[0].primary {
        0
    } else if has_primary(files) {
        1 + selected_index(files.drop_first())
    } else {
        0
    }
}

/// The selection policy, spelled out: the selected index is in range, is
/// the first primary-flagged file when one exists, and is 0 otherwise.
pub proof fn lemma_selected_index_policy(files: Seq<FileModel>)
    requires
        files.len() > 0,
    ensures
        0 <= selected_index(files) < files.len(),
        has_primary(files) ==> files[selected_index(files)].primary && (forall|j: int|
            0 <= j < selected_index(files) ==> !files[j].primary),
        !has_primary(files) ==> selected_index(files) == 0,
    decreases files.len(),
{
    if files[0].primary {
    } else if has_primary(files) {
        let sub = files.drop_first();
        let i = choose|i: int| 0 <= i < files.len() && files[i].primary;
        assert(sub[i - 1].primary);
        lemma_selected_index_policy(sub);
        let k = selected_index(files);
        assert(files[k] == sub[k - 1]);
        assert forall|j: int| 0 <= j < k implies !files[j].primary by {
            if j > 0 {
                assert(files[j] == sub[j - 1]);
            }
        }
    }
}

/// A file that is primary with no primary file before it is the selected
/// one.
proof fn lemma_first_primary_is_selected(files: Seq<FileModel>, i: int)
    requires
        0 <= i < files.len(),
        files[i].primary,
        forall|j: int| 0 <= j < i ==> !files[j].primary,
    ensures
        selected_index(files) == i,
    decreases i,
{
    if i == 0 {
    } else {
        let sub = files.drop_first();
        assert(sub[i - 1].primary);
        assert forall|j: int| 0 <= j < i - 1 implies !sub[j].primary by {
            assert(sub[j] == files[j + 1]);
        }
        lemma_first_primary_is_selected(sub, i - 1);
    }
}

impl Version {
    /// The file the pipeline installs from this build: the first
    /// primary-flagged file, or the first file when none is flagged.  A
    /// build that publishes no files yields nothing.
    pub fn select_file(&self) -> (r: Option<usize>)
        ensures
            r is None <==> self.files@.len() == 0,
            r matches Some(i) ==> i < self.files@.len() && i as int == selected_index(self@.files),
    {
        let n = self.files.len();
        if n == 0 {
            return None;
        }
        for i in 0..n
            invariant
                n == self.files@.len(),
                forall|j: int| 0 <= j < i ==> !self@.files[j].primary,
        {
            if self.files[i].primary {
                proof {
                    assert(self@.files[i as int].primary);
                    lemma_first_primary_is_selected(self@.files, i as int);
                }
                return Some(i);
            }
        }
        proof {
            assert(!has_primary(self@.files));
        }
        Some(0)
    }
}

/// Everything that can go wrong in one identifier's pipeline.
#[derive(Debug)]
pub enum Error {
    /// The registry has no project under the requested identifier.
    NotFound,
    /// The registry could not be reached, or the HTTP layer failed.
    Transport,
    /// A response body did not match the expected schema.
    Decode,
    /// The project exists but publishes no build for the requested
    /// platform version and loader.  Carries the resolved title.
    NoMatchingVersion {
        /// Title of the project that had no matching build.
        title: String,
    },
    /// A local read, write or delete failed.
    Io,
    /// The server answered a download request with a non-success status.
    DownloadFailed {
        /// The HTTP status the server answered with.
        status: u16,
    },
    /// A freshly written file does not hash to its declared digest.
    IntegrityViolation,
}

/// Mathematical model of an [`Error`].
#[verifier::ext_equal]
pub ghost enum ErrorModel {
    /// Model of [`Error::NotFound`].
    NotFound,
    /// Model of [`Error::Transport`].
    Transport,
    /// Model of [`Error::Decode`].
    Decode,
    /// Model of [`Error::NoMatchingVersion`].
    NoMatchingVersion {
        /// Title of the project that had no matching build.
        title: Seq<char>,
    },
    /// Model of [`Error::Io`].
    Io,
    /// Model of [`Error::DownloadFailed`].
    DownloadFailed {
        /// The HTTP status the server answered with.
        status: u16,
    },
    /// Model of [`Error::IntegrityViolation`].
    IntegrityViolation,
}

impl View for Error {
    type V = ErrorModel;

    open spec fn view(&self) -> ErrorModel {
        match *self {
            Error::NotFound => ErrorModel::NotFound,
            Error::Transport => ErrorModel::Transport,
            Error::Decode => ErrorModel::Decode,
            Error::NoMatchingVersion { title } => ErrorModel::NoMatchingVersion {
                title: title@,
            },
            Error::Io => ErrorModel::Io,
            Error::DownloadFailed { status } => ErrorModel::DownloadFailed { status },
            Error::IntegrityViolation => ErrorModel::IntegrityViolation,
        }
    }
}

impl Clone for Hashes {
    fn clone(&self) -> (r: Self)
        ensures
            r.sha512@ == self.sha512@,
    {
        Hashes { sha512: self.sha512.clone() }
    }
}

impl Clone for ModFile {
    fn clone(&self) -> (r: Self)
        ensures
            r@ == self@,
    {
        ModFile {
            hashes: self.hashes.clone(),
            url: self.url.clone(),
            filename: self.filename.clone(),
            primary: self.primary,
        }
    }
}

impl Clone for Version {
    fn clone(&self) -> (r: Self)
        ensures
            r@ == self@,
    {
        let mut files: Vec<ModFile> = Vec::new();
        let mut i: usize = 0;
        while i < self.files.len()
            invariant
                i <= self.files.len(),
                files@.len() == i,
                forall|j: int| 0 <= j < i ==> #[trigger] files@[j]@ == self.files@[j]@,
            decreases self.files.len() - i,
        {
            files.push(self.files[i].clone());
            i += 1;
        }
        let r = Version { name: self.name.clone(), files };
        proof {
            assert(r@.files =~= self@.files);
            assert(r@ =~= self@);
        }
        r
    }
}

impl Clone for Error {
    fn clone(&self) -> (r: Self)
        ensures
            r@ == self@,
    {
        match self {
            Error::NotFound => Error::NotFound,
            Error::Transport => Error::Transport,
            Error::Decode => Error::Decode,
            Error::NoMatchingVersion { title } => Error::NoMatchingVersion {
                title: title.clone(),
            },
            Error::Io => Error::Io,
            Error::DownloadFailed { status } => Error::DownloadFailed { status: *status },
            Error::IntegrityViolation => Error::IntegrityViolation,
        }
    }
}

impl Error {
    /// Whether this error must halt the whole run rather than only the
    /// identifier it arose in.  Only a post-write hash mismatch is that
    /// severe: written content that cannot be trusted must not be reported
    /// as success.
    pub fn is_fatal(&self) -> (r: bool)
        ensures
            r <==> *self is IntegrityViolation,
    {
        match self {
            Error::IntegrityViolation => true,
            _ => false,
        }
    }
}

} // verus!
