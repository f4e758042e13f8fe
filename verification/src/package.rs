//! Package identities: the unit of equality and deduplication throughout
//! the pipeline.

use vstd::prelude::*;

use crate::errors::FetchError;
use crate::source::PackageSource;
use crate::source::SourceIdentity;
use crate::source::SourceIdentityView;
use crate::version::Version;
use crate::version::VersionView;
use crate::version::parse_version_text;
use crate::version::parsed_version;

verus! {

/// An immutable package identity: a name, an exact semantic version, and
/// the canonical identity of the source it comes from.  Two identities are
/// the same package exactly when all three parts match.
#[derive(Debug)]
pub struct Package {
    /// The package name.  The constructors refuse an empty one.
    pub name: String,
    /// The exact version.
    pub version: Version,
    /// The canonical source identity.
    pub source: SourceIdentity,
}

/// The mathematical value of a [`Package`].
pub struct PackageView {
    /// The package name.
    pub name: Seq<char>,
    /// The exact version.
    pub version: VersionView,
    /// The canonical source identity.
    pub source: SourceIdentityView,
}

impl View for Package {
    type V = PackageView;

    open spec fn view(&self) -> PackageView {
        PackageView { name: self.name@, version: self.version@, source: self.source@ }
    }
}

impl DeepView for Package {
    type V = PackageView;

    open spec fn deep_view(&self) -> PackageView {
        self@
    }
}

impl Clone for Package {
    fn clone(&self) -> (r: Self)
        ensures
            r == *self,
    {
        Package {
            name: self.name.clone(),
            version: self.version.clone(),
            source: self.source.clone(),
        }
    }
}

impl Package {
    /// A package identity from a name, a parsed version and a source
    /// descriptor.  The only validity demand on the parts themselves is a
    /// non-empty name; the source is canonicalized on the way in.
    pub fn new(name: String, version: Version, source: &PackageSource) -> (r: Result<
        Self,
        FetchError,
    >)
        ensures
            name@.len() == 0 ==> (r matches Err(e) && e == FetchError::InvalidPackageSpec),
            name@.len() > 0 ==> (r matches Ok(p) && p@ == (PackageView {
                name: name@,
                version: version@,
                source: source@.canon(),
            })),
    {
        if name.as_str().is_empty() {
            Err(FetchError::InvalidPackageSpec)
        } else {
            Ok(Package { name, version, source: source.canonical_id() })
        }
    }

    /// The same as [`Package::new`], with the version parsed from text by
    /// the standard semantic-versioning grammar.  Inspecting the fields of
    /// the result round-trips the name and the parsed version exactly.
    pub fn from_str_ver(name: String, version: String, source: &PackageSource) -> (r: Result<
        Self,
        FetchError,
    >)
        ensures
            parsed_version(version@) is None ==> (r matches Err(e) && e
                matches FetchError::InvalidVersion(_)),
            parsed_version(version@) is Some && name@.len() == 0 ==> (r matches Err(e)
                && e == FetchError::InvalidPackageSpec),
            parsed_version(version@) is Some && name@.len() > 0 ==> (r matches Ok(p)
                && p@.name == name@ && Some(p@.version) == parsed_version(version@)
                && p@.source == source@.canon()),
    {
        match parse_version_text(version.as_str()) {
            Ok(parsed) => Package::new(name, parsed, source),
            Err(m) => Err(FetchError::InvalidVersion(m)),
        }
    }

    /// The package name.
    pub fn name(&self) -> (r: &str)
        ensures
            r@ == self@.name,
    {
        self.name.as_str()
    }

    /// The exact version.
    pub fn version(&self) -> (r: &Version)
        ensures
            r@ == self@.version,
    {
        &self.version
    }

    /// The canonical identity of the source the package comes from.
    pub fn source(&self) -> (r: &SourceIdentity)
        ensures
            r@ == self@.source,
    {
        &self.source
    }

    /// Whether two identities are the same package: same name, same exact
    /// version, same source identity.
    pub fn same(&self, other: &Package) -> (r: bool)
        ensures
            r == (self@ == other@),
    {
        self.name == other.name && self.version.same(&other.version) && self.source.same(
            &other.source,
        )
    }
}

} // verus!
