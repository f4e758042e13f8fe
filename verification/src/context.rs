//! The fetcher context and the resolve/fetch pipeline itself.
//!
//! A [`PackageFetcher`] holds the configuration shared across all
//! operations; it is constructed once and never mutated afterwards.  Its
//! methods make every decision of the pipeline: which packages an index
//! answer resolves to, which one a first-match resolution picks, what a
//! batch fetch has to materialize, and which error each collaborator
//! failure surfaces as.  The collaborator work itself — taking the
//! process-wide cache lock, loading sources, querying the index, checking
//! out contents — is driven by the host, which reports back through a
//! [`QueryOutcome`] or [`FetchOutcome`] value.

use vstd::prelude::*;

use crate::errors::FetchError;
use crate::fetch::FetchOutcome;
use crate::fetch::dedup_packages;
use crate::fetch::fetch_plan;
use crate::fetch::gather_roots;
use crate::fetch::gathered_roots;
use crate::fetch::lemma_gathered_ok_len;
use crate::package::Package;
use crate::package::PackageView;
use crate::resolve::QueryOutcome;
use crate::resolve::constraint_view;
use crate::resolve::resolved_packages;
use crate::resolve::select_matches;
use crate::source::PackageSource;
use crate::version::Version;

verus! {

/// How much status text the host's output sink should carry.
#[derive(Debug, Clone, Copy, PartialEq, Eq, Structural)]
pub enum Verbosity {
    /// Full status output.
    Verbose,
    /// Ordinary status output.
    Normal,
    /// No status output.
    Quiet,
}

impl Default for Verbosity {
    /// The default amount of status text is all of it.
    fn default() -> (r: Self)
        ensures
            r == Verbosity::Verbose,
    {
        Verbosity::Verbose
    }
}

/// The configuration shared by all resolve and fetch operations.
/// Constructed once; read, never changed, by every call.
#[derive(Debug)]
pub struct PackageFetcher {
    /// How much status text the host's output sink should carry.
    pub verbosity: Verbosity,
}

impl PackageFetcher {
    /// A context with the default configuration: verbose status text to
    /// the host's standard sink.
    pub fn new() -> (r: Self)
        ensures
            r.verbosity == Verbosity::Verbose,
    {
        PackageFetcher { verbosity: Verbosity::Verbose }
    }

    /// A context for a host that redirects status text to a sink of its
    /// own, at the given verbosity; verbose when none is named.
    pub fn with_out(verbosity: Option<Verbosity>) -> (r: Self)
        ensures
            r.verbosity == (match verbosity {
                Some(v) => v,
                None => Verbosity::Verbose,
            }),
    {
        let v = match verbosity {
            Some(v) => v,
            None => Verbosity::Verbose,
        };
        PackageFetcher { verbosity: v }
    }

    /// All package versions that one index answer resolves to, for a name
    /// under an optional exact-version constraint (none means any
    /// version), against a source.  Yanked versions are excluded unless
    /// the whitelist names them.  An index that reports "not yet ready"
    /// after readiness was reached breaks the protocol, and the answer is
    /// an empty sequence, not an error, when nothing matches.
    pub fn resolve_package(
        &self,
        name: &str,
        version: Option<&Version>,
        source: &PackageSource,
        yanked_whitelist: Option<&Vec<Package>>,
        outcome: QueryOutcome,
    ) -> (r: Result<Vec<Package>, FetchError>)
        ensures
            (match outcome {
                QueryOutcome::LockFailed(m) => r matches Err(e) && e
                    == FetchError::LockAcquisitionFailed(m),
                QueryOutcome::LoadFailed(m) => r matches Err(e) && e
                    == FetchError::SourceLoadFailed(m),
                QueryOutcome::NotReady => r matches Err(e) && e
                    == FetchError::IndexProtocolViolation,
                QueryOutcome::QueryFailed(m) => r matches Err(e) && e
                    == FetchError::SourceLoadFailed(m),
                QueryOutcome::Matches(entries) => r matches Ok(pkgs) && pkgs.deep_view()
                    == resolved_packages(
                    entries.deep_view(),
                    name@,
                    constraint_view(version),
                    whitelist_views(yanked_whitelist),
                    source@.canon(),
                ),
            }),
    {
        let src = source.canonical_id();
        match outcome {
            QueryOutcome::LockFailed(m) => Err(FetchError::LockAcquisitionFailed(m)),
            QueryOutcome::LoadFailed(m) => Err(FetchError::SourceLoadFailed(m)),
            QueryOutcome::NotReady => Err(FetchError::IndexProtocolViolation),
            QueryOutcome::QueryFailed(m) => Err(FetchError::SourceLoadFailed(m)),
            QueryOutcome::Matches(entries) => {
                let empty_whitelist: Vec<Package> = Vec::new();
                let whitelist = match yanked_whitelist {
                    Some(wl) => wl,
                    None => &empty_whitelist,
                };
                proof {
                    assert(whitelist.deep_view() =~= whitelist_views(yanked_whitelist));
                }
                Ok(select_matches(&entries, name, version, whitelist, &src))
            },
        }
    }

    /// The first package version that one index answer resolves to, in
    /// the order the index chose; fails with a not-found error when
    /// nothing matches.  The result is always a member of what
    /// [`PackageFetcher::resolve_package`] returns for the same inputs.
    pub fn resolve_first(
        &self,
        name: &str,
        version: Option<&Version>,
        source: &PackageSource,
        yanked_whitelist: Option<&Vec<Package>>,
        outcome: QueryOutcome,
    ) -> (r: Result<Package, FetchError>)
        ensures
            outcome matches QueryOutcome::LockFailed(m) ==> (r matches Err(e) && e
                == FetchError::LockAcquisitionFailed(m)),
            outcome matches QueryOutcome::LoadFailed(m) ==> (r matches Err(e) && e
                == FetchError::SourceLoadFailed(m)),
            outcome is NotReady ==> (r matches Err(e) && e == FetchError::IndexProtocolViolation),
            outcome matches QueryOutcome::QueryFailed(m) ==> (r matches Err(e) && e
                == FetchError::SourceLoadFailed(m)),
            outcome matches QueryOutcome::Matches(entries) ==> ({
                let ms = resolved_packages(
                    entries.deep_view(),
                    name@,
                    constraint_view(version),
                    whitelist_views(yanked_whitelist),
                    source@.canon(),
                );
                if ms.len() == 0 {
                    r matches Err(e) && e == FetchError::PackageNotFound
                } else {
                    r matches Ok(p) && p@ == ms[0] && ms.contains(p@)
                }
            }),
    {
        let found = self.resolve_package(name, version, source, yanked_whitelist, outcome);
        match found {
            Err(e) => Err(e),
            Ok(pkgs) => {
                if pkgs.len() == 0 {
                    Err(FetchError::PackageNotFound)
                } else {
                    let mut pkgs = pkgs;
                    let ghost dv = pkgs.deep_view();
                    let first = pkgs.remove(0);
                    proof {
                        assert(dv.contains(first@)) by {
                            assert(dv[0] == first@);
                        }
                    }
                    Ok(first)
                }
            },
        }
    }

    /// The root directory of one fetched package, out of the host's
    /// materialization report for it; every collaborator failure surfaces
    /// as the matching error, and a report that does not hold exactly one
    /// result cannot be assembled.
    pub fn fetch(&self, package: &Package, outcome: FetchOutcome) -> (r: Result<
        String,
        FetchError,
    >)
        ensures
            (match outcome {
                FetchOutcome::LockFailed(m) => r matches Err(e) && e
                    == FetchError::LockAcquisitionFailed(m),
                FetchOutcome::LoadFailed(m) => r matches Err(e) && e
                    == FetchError::SourceLoadFailed(m),
                FetchOutcome::AssemblyFailed(m) => r matches Err(e) && e
                    == FetchError::PackageSetConstructionFailed(m),
                FetchOutcome::Materialized(results) => {
                    if results@.len() != 1 {
                        r matches Err(e) && e matches FetchError::PackageSetConstructionFailed(_)
                    } else {
                        match gathered_roots(results@) {
                            Ok(roots) => r matches Ok(root) && root@ == roots[0],
                            Err(m) => r matches Err(e) && e
                                matches FetchError::MaterializationFailed(fm) && fm@ == m,
                        }
                    }
                },
            }),
    {
        let mut requested: Vec<Package> = Vec::new();
        requested.push(package.clone());
        proof {
            let s = requested.deep_view();
            assert(s =~= seq![package@]);
            assert(s.drop_last() =~= Seq::<PackageView>::empty());
            assert(dedup_packages(Seq::<PackageView>::empty()) == Seq::<PackageView>::empty());
            assert(!Seq::<PackageView>::empty().contains(s.last()));
            assert(dedup_packages(s) =~= seq![package@]);
        }
        let ghost given = outcome;
        let fetched = self.fetch_many(&requested, outcome);
        match fetched {
            Err(e) => Err(e),
            Ok(roots) => {
                proof {
                    match given {
                        FetchOutcome::Materialized(results) => {
                            if gathered_roots(results@) is Ok {
                                lemma_gathered_ok_len(results@);
                            }
                        },
                        _ => {},
                    }
                }
                let mut roots = roots;
                let first = roots.remove(0);
                Ok(first)
            },
        }
    }

    /// The root directories of a batch of fetched packages, out of the
    /// host's materialization reports for the planned (deduplicated)
    /// batch, in plan order.  An empty batch yields an empty sequence,
    /// not an error; repeated identities coalesce, so the answer can be
    /// shorter than the request; and one failed package aborts the whole
    /// batch with its error.
    pub fn fetch_many(&self, packages: &Vec<Package>, outcome: FetchOutcome) -> (r: Result<
        Vec<String>,
        FetchError,
    >)
        ensures
            (match outcome {
                FetchOutcome::LockFailed(m) => r matches Err(e) && e
                    == FetchError::LockAcquisitionFailed(m),
                FetchOutcome::LoadFailed(m) => r matches Err(e) && e
                    == FetchError::SourceLoadFailed(m),
                FetchOutcome::AssemblyFailed(m) => r matches Err(e) && e
                    == FetchError::PackageSetConstructionFailed(m),
                FetchOutcome::Materialized(results) => {
                    if results@.len() != dedup_packages(packages.deep_view()).len() {
                        r matches Err(e) && e matches FetchError::PackageSetConstructionFailed(_)
                    } else {
                        match gathered_roots(results@) {
                            Ok(roots) => r matches Ok(v) && v.deep_view() == roots,
                            Err(m) => r matches Err(e) && e
                                matches FetchError::MaterializationFailed(fm) && fm@ == m,
                        }
                    }
                },
            }),
    {
        match outcome {
            FetchOutcome::LockFailed(m) => Err(FetchError::LockAcquisitionFailed(m)),
            FetchOutcome::LoadFailed(m) => Err(FetchError::SourceLoadFailed(m)),
            FetchOutcome::AssemblyFailed(m) => Err(FetchError::PackageSetConstructionFailed(m)),
            FetchOutcome::Materialized(results) => {
                let plan = fetch_plan(packages);
                if results.len() != plan.targets.len() {
                    Err(
                        FetchError::PackageSetConstructionFailed(
                            "one materialization result is owed for each planned package".to_owned(),
                        ),
                    )
                } else {
                    match gather_roots(&results) {
                        Ok(roots) => Ok(roots),
                        Err(m) => Err(FetchError::MaterializationFailed(m)),
                    }
                }
            },
        }
    }
}

/// The packages an optional whitelist names; none names nothing.
pub open spec fn whitelist_views(wl: Option<&Vec<Package>>) -> Seq<PackageView> {
    match wl {
        Some(v) => v.deep_view(),
        None => Seq::<PackageView>::empty(),
    }
}

} // verus!
