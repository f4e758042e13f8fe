//! Semantic versions as carried inside package identities.
//!
//! Identity comparison between versions is exact equality of every part;
//! no range containment or precedence ordering takes part in it.

use vstd::prelude::*;

verus! {

/// A semantic version: `major.minor.patch` with optional pre-release and
/// build-metadata text.
#[derive(Debug)]
pub struct Version {
    /// The major number.
    pub major: u64,
    /// The minor number.
    pub minor: u64,
    /// The patch number.
    pub patch: u64,
    /// The pre-release text, empty when absent.
    pub pre: String,
    /// The build-metadata text, empty when absent.
    pub build: String,
}

/// The mathematical value of a [`Version`].
pub struct VersionView {
    /// The major number.
    pub major: u64,
    /// The minor number.
    pub minor: u64,
    /// The patch number.
    pub patch: u64,
    /// The pre-release text.
    pub pre: Seq<char>,
    /// The build-metadata text.
    pub build: Seq<char>,
}

impl View for Version {
    type V = VersionView;

    open spec fn view(&self) -> VersionView {
        VersionView {
            major: self.major,
            minor: self.minor,
            patch: self.patch,
            pre: self.pre@,
            build: self.build@,
        }
    }
}

impl DeepView for Version {
    type V = VersionView;

    open spec fn deep_view(&self) -> VersionView {
        self@
    }
}

impl Clone for Version {
    fn clone(&self) -> (r: Self)
        ensures
            r == *self,
    {
        Version {
            major: self.major,
            minor: self.minor,
            patch: self.patch,
            pre: self.pre.clone(),
            build: self.build.clone(),
        }
    }
}

impl Version {
    /// A plain `major.minor.patch` version, with no pre-release or
    /// build-metadata text.
    pub fn new(major: u64, minor: u64, patch: u64) -> (r: Self)
        ensures
            r@ == (VersionView {
                major,
                minor,
                patch,
                pre: Seq::<char>::empty(),
                build: Seq::<char>::empty(),
            }),
    {
        Version { major, minor, patch, pre: String::new(), build: String::new() }
    }

    /// Whether two versions are the same in every part.
    pub fn same(&self, other: &Version) -> (r: bool)
        ensures
            r == (self@ == other@),
    {
        self.major == other.major && self.minor == other.minor && self.patch == other.patch
            && self.pre == other.pre && self.build == other.build
    }
}

/// What the semantic-versioning grammar makes of a version text: its parts
/// when the text is well-formed, nothing otherwise.  The result depends on
/// the text alone.
pub uninterp spec fn parsed_version(text: Seq<char>) -> Option<VersionView>;

/// Relies on `semver::Version::parse`: parses standard semantic-versioning
/// grammar (`major.minor.patch` with optional pre-release and build
/// metadata), deterministically from the text alone, and rejects anything
/// else with a descriptive error.
#[verifier::external_body]
pub(crate) fn parse_version_text(text: &str) -> (r: Result<Version, String>)
    ensures
        r matches Ok(v) ==> parsed_version(text@) == Some(v@),
        r matches Err(_) ==> parsed_version(text@) is None,
{
    match semver::Version::parse(text) {
        Ok(v) => Ok(Version {
            major: v.major,
            minor: v.minor,
            patch: v.patch,
            pre: v.pre.as_str().to_owned(),
            build: v.build.as_str().to_owned(),
        }),
        Err(e) => Err(e.to_string()),
    }
}

} // verus!
