//! Where a package's content lives, and the canonical identity of such a
//! place.
//!
//! A [`PackageSource`] describes an origin as the caller wrote it down; a
//! [`SourceIdentity`] is its canonical, comparable key.  Two requests share
//! one transport and one cache bucket exactly when their descriptors
//! canonicalize to equal identities: paths are normalized, registry URLs
//! are stored in parsed form, and the default registry always maps to the
//! fixed well-known index, regardless of any local configuration.

use vstd::prelude::*;

use crate::errors::FetchError;
use crate::paths::canon_path;
use crate::paths::canonical_path_text;
use crate::paths::is_abs;
use crate::paths::lemma_dot_segment_irrelevant;
use crate::paths::text_is_abs;
use vstd::string::StringExecFns;

verus! {

/// Which line of a git repository a git source names.
#[derive(Debug)]
pub enum GitReference {
    /// The repository's default branch.
    DefaultBranch,
    /// A named branch.
    Branch(String),
    /// A specific revision (commit).
    Revision(String),
    /// A tag.
    Tag(String),
}

/// The mathematical value of a [`GitReference`].
pub enum GitReferenceView {
    /// The repository's default branch.
    DefaultBranch,
    /// A named branch.
    Branch(Seq<char>),
    /// A specific revision (commit).
    Revision(Seq<char>),
    /// A tag.
    Tag(Seq<char>),
}

impl View for GitReference {
    type V = GitReferenceView;

    open spec fn view(&self) -> GitReferenceView {
        match self {
            GitReference::DefaultBranch => GitReferenceView::DefaultBranch,
            GitReference::Branch(b) => GitReferenceView::Branch(b@),
            GitReference::Revision(r) => GitReferenceView::Revision(r@),
            GitReference::Tag(t) => GitReferenceView::Tag(t@),
        }
    }
}

impl DeepView for GitReference {
    type V = GitReferenceView;

    open spec fn deep_view(&self) -> GitReferenceView {
        self@
    }
}

impl Clone for GitReference {
    fn clone(&self) -> (r: Self)
        ensures
            r == *self,
    {
        match self {
            GitReference::DefaultBranch => GitReference::DefaultBranch,
            GitReference::Branch(b) => GitReference::Branch(b.clone()),
            GitReference::Revision(v) => GitReference::Revision(v.clone()),
            GitReference::Tag(t) => GitReference::Tag(t.clone()),
        }
    }
}

impl GitReference {
    /// Whether two git references name the same line.
    pub fn same(&self, other: &GitReference) -> (r: bool)
        ensures
            r == (self@ == other@),
    {
        match (self, other) {
            (GitReference::DefaultBranch, GitReference::DefaultBranch) => true,
            (GitReference::Branch(a), GitReference::Branch(b)) => *a == *b,
            (GitReference::Revision(a), GitReference::Revision(b)) => *a == *b,
            (GitReference::Tag(a), GitReference::Tag(b)) => *a == *b,
            _ => false,
        }
    }
}

/// A description of where a package's content lives, as the caller wrote
/// it down.  Canonicalize it with [`PackageSource::canonical_id`].
#[derive(Debug)]
pub enum PackageSource {
    /// A package directory on the local filesystem, named by an absolute
    /// path.
    Path(String),
    /// A git repository at a parsed URL, at the given reference.
    Git {
        /// The repository URL, in parsed form.
        url: String,
        /// The line of the repository to use.
        git_ref: GitReference,
    },
    /// A remote registry, named by its index URL in parsed form.
    RemoteRegistry(String),
    /// A local mirrored registry, named by its index path.
    LocalRegistry(String),
    /// The well-known default registry.  This deliberately ignores any
    /// user-level registry override: it always canonicalizes to the fixed
    /// default index URL.
    CratesIo,
}

/// The mathematical value of a [`PackageSource`].
pub enum PackageSourceView {
    /// A package directory on the local filesystem.
    Path(Seq<char>),
    /// A git repository at a URL and reference.
    Git { url: Seq<char>, git_ref: GitReferenceView },
    /// A remote registry index URL.
    RemoteRegistry(Seq<char>),
    /// A local mirrored registry index path.
    LocalRegistry(Seq<char>),
    /// The well-known default registry.
    CratesIo,
}

impl View for PackageSource {
    type V = PackageSourceView;

    open spec fn view(&self) -> PackageSourceView {
        match self {
            PackageSource::Path(p) => PackageSourceView::Path(p@),
            PackageSource::Git { url, git_ref } => PackageSourceView::Git {
                url: url@,
                git_ref: git_ref@,
            },
            PackageSource::RemoteRegistry(u) => PackageSourceView::RemoteRegistry(u@),
            PackageSource::LocalRegistry(p) => PackageSourceView::LocalRegistry(p@),
            PackageSource::CratesIo => PackageSourceView::CratesIo,
        }
    }
}

impl DeepView for PackageSource {
    type V = PackageSourceView;

    open spec fn deep_view(&self) -> PackageSourceView {
        self@
    }
}

impl Clone for PackageSource {
    fn clone(&self) -> (r: Self)
        ensures
            r == *self,
    {
        match self {
            PackageSource::Path(p) => PackageSource::Path(p.clone()),
            PackageSource::Git { url, git_ref } => PackageSource::Git {
                url: url.clone(),
                git_ref: git_ref.clone(),
            },
            PackageSource::RemoteRegistry(u) => PackageSource::RemoteRegistry(u.clone()),
            PackageSource::LocalRegistry(p) => PackageSource::LocalRegistry(p.clone()),
            PackageSource::CratesIo => PackageSource::CratesIo,
        }
    }
}

/// The canonical, comparable key of one source location.  Two package
/// requests share one transport and one cache bucket exactly when their
/// identities are equal.
#[derive(Debug)]
pub enum SourceIdentity {
    /// A package directory, by canonical absolute path.
    PathDir(String),
    /// A git repository, by URL and reference.
    GitRepo {
        /// The repository URL, in parsed form.
        url: String,
        /// The line of the repository to use.
        git_ref: GitReference,
    },
    /// A registry, by its index URL in parsed form.  The default registry
    /// is the registry at the well-known default index URL.
    Registry(String),
    /// A local mirrored registry, by canonical index path.
    LocalRegistry(String),
}

/// The mathematical value of a [`SourceIdentity`].
pub enum SourceIdentityView {
    /// A package directory, by canonical absolute path.
    PathDir(Seq<char>),
    /// A git repository, by URL and reference.
    GitRepo { url: Seq<char>, git_ref: GitReferenceView },
    /// A registry, by index URL.
    Registry(Seq<char>),
    /// A local mirrored registry, by canonical index path.
    LocalRegistry(Seq<char>),
}

impl View for SourceIdentity {
    type V = SourceIdentityView;

    open spec fn view(&self) -> SourceIdentityView {
        match self {
            SourceIdentity::PathDir(p) => SourceIdentityView::PathDir(p@),
            SourceIdentity::GitRepo { url, git_ref } => SourceIdentityView::GitRepo {
                url: url@,
                git_ref: git_ref@,
            },
            SourceIdentity::Registry(u) => SourceIdentityView::Registry(u@),
            SourceIdentity::LocalRegistry(p) => SourceIdentityView::LocalRegistry(p@),
        }
    }
}

impl DeepView for SourceIdentity {
    type V = SourceIdentityView;

    open spec fn deep_view(&self) -> SourceIdentityView {
        self@
    }
}

impl Clone for SourceIdentity {
    fn clone(&self) -> (r: Self)
        ensures
            r == *self,
    {
        match self {
            SourceIdentity::PathDir(p) => SourceIdentity::PathDir(p.clone()),
            SourceIdentity::GitRepo { url, git_ref } => SourceIdentity::GitRepo {
                url: url.clone(),
                git_ref: git_ref.clone(),
            },
            SourceIdentity::Registry(u) => SourceIdentity::Registry(u.clone()),
            SourceIdentity::LocalRegistry(p) => SourceIdentity::LocalRegistry(p.clone()),
        }
    }
}

impl SourceIdentity {
    /// Whether two identities name the same source location.
    pub fn same(&self, other: &SourceIdentity) -> (r: bool)
        ensures
            r == (self@ == other@),
    {
        match (self, other) {
            (SourceIdentity::PathDir(a), SourceIdentity::PathDir(b)) => *a == *b,
            (
                SourceIdentity::GitRepo { url: ua, git_ref: ra },
                SourceIdentity::GitRepo { url: ub, git_ref: rb },
            ) => *ua == *ub && ra.same(rb),
            (SourceIdentity::Registry(a), SourceIdentity::Registry(b)) => *a == *b,
            (SourceIdentity::LocalRegistry(a), SourceIdentity::LocalRegistry(b)) => *a == *b,
            _ => false,
        }
    }
}

/// What the URL grammar makes of a location text: its parsed, normalized
/// serialization when the text is a well-formed URL, nothing otherwise.
/// The result depends on the text alone.
pub uninterp spec fn parsed_url(text: Seq<char>) -> Option<Seq<char>>;

/// Relies on `url::Url::parse` and `url::Url::as_str`: parsing either
/// rejects the text or yields a URL whose serialization is a deterministic,
/// normalized function of the text alone.
#[verifier::external_body]
pub(crate) fn parse_url_text(text: &str) -> (r: Result<String, String>)
    ensures
        r matches Ok(u) ==> parsed_url(text@) == Some(u@),
        r matches Err(_) ==> parsed_url(text@) is None,
{
    match url::Url::parse(text) {
        Ok(u) => Ok(u.as_str().to_owned()),
        Err(e) => Err(e.to_string()),
    }
}

/// The index URL of the well-known default registry.
pub open spec fn default_registry_index() -> Seq<char> {
    "https://github.com/rust-lang/crates.io-index"@
}

/// The index URL of the well-known default registry.
pub fn default_registry_index_text() -> (r: String)
    ensures
        r@ == default_registry_index(),
{
    "https://github.com/rust-lang/crates.io-index".to_owned()
}

impl PackageSourceView {
    /// The canonical identity a descriptor maps to: paths in canonical
    /// form, git and registry URLs as stored, the default registry at the
    /// fixed well-known index URL.
    pub open spec fn canon(self) -> SourceIdentityView {
        match self {
            PackageSourceView::Path(p) => SourceIdentityView::PathDir(canon_path(p)),
            PackageSourceView::Git { url, git_ref } => SourceIdentityView::GitRepo {
                url,
                git_ref,
            },
            PackageSourceView::RemoteRegistry(u) => SourceIdentityView::Registry(u),
            PackageSourceView::LocalRegistry(p) => SourceIdentityView::LocalRegistry(
                canon_path(p),
            ),
            PackageSourceView::CratesIo => SourceIdentityView::Registry(default_registry_index()),
        }
    }
}

impl PackageSource {
    /// A path source.  The path must be absolute: locations are compared
    /// across working directories, so a relative text identifies nothing
    /// by itself and is rejected up front rather than at fetch time.  Use
    /// [`PackageSource::path_at`] to resolve a relative text against a
    /// working directory.
    pub fn path(path: String) -> (r: Result<Self, FetchError>)
        ensures
            is_abs(path@) ==> (r matches Ok(s) && s == PackageSource::Path(path)),
            !is_abs(path@) ==> (r matches Err(e) && e == FetchError::InvalidPath),
    {
        if text_is_abs(path.as_str()) {
            Ok(PackageSource::Path(path))
        } else {
            Err(FetchError::InvalidPath)
        }
    }

    /// A path source from a text resolved against a working directory: an
    /// absolute text stands alone, a relative text is appended to the
    /// absolute working directory.  Fails when neither text is absolute.
    pub fn path_at(cwd: String, path: String) -> (r: Result<Self, FetchError>)
        ensures
            is_abs(path@) ==> (r matches Ok(s) && s == PackageSource::Path(path)),
            !is_abs(path@) && is_abs(cwd@) ==> (r matches Ok(s) && s matches PackageSource::Path(q)
                && q@ == cwd@ + seq!['/'] + path@),
            !is_abs(path@) && !is_abs(cwd@) ==> (r matches Err(e) && e == FetchError::InvalidPath),
    {
        if text_is_abs(path.as_str()) {
            Ok(PackageSource::Path(path))
        } else if text_is_abs(cwd.as_str()) {
            let mut joined = cwd;
            joined.append("/");
            joined.append(path.as_str());
            proof {
                reveal_strlit("/");
                assert("/"@ =~= seq!['/']);
            }
            Ok(PackageSource::Path(joined))
        } else {
            Err(FetchError::InvalidPath)
        }
    }

    /// A git source at the given repository URL, at the given reference;
    /// the default branch when no reference is named.  Fails when the URL
    /// text does not parse.
    pub fn git(url: String, git_ref: Option<GitReference>) -> (r: Result<Self, FetchError>)
        ensures
            parsed_url(url@) matches Some(u) ==> (r matches Ok(s) && s matches PackageSource::Git {
                url: nu,
                git_ref: nr,
            } && nu@ == u && nr@ == (match git_ref {
                Some(g) => g@,
                None => GitReferenceView::DefaultBranch,
            })),
            parsed_url(url@) is None ==> (r matches Err(e) && e matches FetchError::InvalidUrl(_)),
    {
        match parse_url_text(url.as_str()) {
            Ok(parsed) => {
                let reference = match git_ref {
                    Some(g) => g,
                    None => GitReference::DefaultBranch,
                };
                Ok(PackageSource::Git { url: parsed, git_ref: reference })
            },
            Err(m) => Err(FetchError::InvalidUrl(m)),
        }
    }

    /// A remote registry source at the given index URL.  Fails when the
    /// URL text does not parse.
    pub fn remote(url: String) -> (r: Result<Self, FetchError>)
        ensures
            parsed_url(url@) matches Some(u) ==> (r matches Ok(s) && s
                matches PackageSource::RemoteRegistry(nu) && nu@ == u),
            parsed_url(url@) is None ==> (r matches Err(e) && e matches FetchError::InvalidUrl(_)),
    {
        match parse_url_text(url.as_str()) {
            Ok(parsed) => Ok(PackageSource::RemoteRegistry(parsed)),
            Err(m) => Err(FetchError::InvalidUrl(m)),
        }
    }

    /// A local mirrored registry source at the given index path.
    pub fn local(path: String) -> (r: Self)
        ensures
            r == PackageSource::LocalRegistry(path),
    {
        PackageSource::LocalRegistry(path)
    }

    /// The well-known default registry.
    pub fn crates_io() -> (r: Self)
        ensures
            r == PackageSource::CratesIo,
    {
        PackageSource::CratesIo
    }

    /// The canonical identity of this source.
    pub fn canonical_id(&self) -> (r: SourceIdentity)
        ensures
            r@ == self@.canon(),
    {
        match self {
            PackageSource::Path(p) => SourceIdentity::PathDir(canonical_path_text(p.as_str())),
            PackageSource::Git { url, git_ref } => SourceIdentity::GitRepo {
                url: url.clone(),
                git_ref: git_ref.clone(),
            },
            PackageSource::RemoteRegistry(u) => SourceIdentity::Registry(u.clone()),
            PackageSource::LocalRegistry(p) => SourceIdentity::LocalRegistry(
                canonical_path_text(p.as_str()),
            ),
            PackageSource::CratesIo => SourceIdentity::Registry(default_registry_index_text()),
        }
    }
}

/// Law: path descriptors that differ only in an irrelevant `.` segment
/// canonicalize to equal source identities.  Under an absolute base, the
/// texts `base/./rest` and `base/rest` name the same location.
pub proof fn lemma_path_representation_irrelevant(base: Seq<char>, rest: Seq<char>)
    requires
        is_abs(base),
    ensures
        PackageSourceView::Path(base + seq!['/'] + (seq!['.', '/'] + rest)).canon()
            == PackageSourceView::Path(base + seq!['/'] + rest).canon(),
{
    let with_dot = base + seq!['/'] + (seq!['.', '/'] + rest);
    let plain = base + seq!['/'] + rest;
    assert(with_dot[0] == base[0]);
    assert(plain[0] == base[0]);
    lemma_dot_segment_irrelevant(base, rest);
}

} // verus!
