//! Selection of matching package versions from what an index reports.
//!
//! The index collaborator answers a name query with the versions it knows,
//! each flagged when it has been yanked (withdrawn).  Everything after
//! that answer is decided here: exact name matching, the optional
//! exact-version constraint, and the yank policy under which a yanked
//! version is returned only when the caller's whitelist names it.

use vstd::prelude::*;

use crate::package::Package;
use crate::package::PackageView;
use crate::source::SourceIdentity;
use crate::source::SourceIdentityView;
use crate::version::Version;
use crate::version::VersionView;

verus! {

/// One version of one package, as an index reports it.
#[derive(Debug)]
pub struct IndexEntry {
    /// The package name the index lists this version under.
    pub name: String,
    /// The listed version.
    pub version: Version,
    /// Whether the index has marked this version as withdrawn.
    pub yanked: bool,
}

/// The mathematical value of an [`IndexEntry`].
pub struct IndexEntryView {
    /// The package name.
    pub name: Seq<char>,
    /// The listed version.
    pub version: VersionView,
    /// Whether the version is marked withdrawn.
    pub yanked: bool,
}

impl View for IndexEntry {
    type V = IndexEntryView;

    open spec fn view(&self) -> IndexEntryView {
        IndexEntryView { name: self.name@, version: self.version@, yanked: self.yanked }
    }
}

impl DeepView for IndexEntry {
    type V = IndexEntryView;

    open spec fn deep_view(&self) -> IndexEntryView {
        self@
    }
}

impl Clone for IndexEntry {
    fn clone(&self) -> (r: Self)
        ensures
            r == *self,
    {
        IndexEntry { name: self.name.clone(), version: self.version.clone(), yanked: self.yanked }
    }
}

/// How one resolution attempt against an index ended, as reported by the
/// host that drove the lock, the source load and the query.
#[derive(Debug)]
pub enum QueryOutcome {
    /// The process-wide package-cache lock could not be acquired.
    LockFailed(String),
    /// The source could not be loaded or never became ready.
    LoadFailed(String),
    /// The index answered "not yet ready" after readiness had been
    /// reached.
    NotReady,
    /// The query itself completed with an error.
    QueryFailed(String),
    /// The query completed; these are the entries the index streamed
    /// back, in the order it chose.
    Matches(Vec<IndexEntry>),
}

/// The package identity an index entry stands for, under a given source.
pub open spec fn entry_package(e: IndexEntryView, src: SourceIdentityView) -> PackageView {
    PackageView { name: e.name, version: e.version, source: src }
}

/// Whether an index entry is selected by a query: the name matches
/// exactly, the version matches the constraint (no constraint selects any
/// version), and a yanked version is selected only when the whitelist
/// names the package it stands for.
pub open spec fn entry_selected(
    e: IndexEntryView,
    name: Seq<char>,
    want: Option<VersionView>,
    whitelist: Seq<PackageView>,
    src: SourceIdentityView,
) -> bool {
    &&& e.name == name
    &&& (want matches Some(v) ==> e.version == v)
    &&& (e.yanked ==> whitelist.contains(entry_package(e, src)))
}

/// The packages a query resolves to: the selected entries, in index
/// order, each under the queried source identity.
pub open spec fn resolved_packages(
    entries: Seq<IndexEntryView>,
    name: Seq<char>,
    want: Option<VersionView>,
    whitelist: Seq<PackageView>,
    src: SourceIdentityView,
) -> Seq<PackageView>
    decreases entries.len(),
{
    if entries.len() == 0 {
        Seq::<PackageView>::empty()
    } else {
        let r = resolved_packages(entries.drop_last(), name, want, whitelist, src);
        if entry_selected(entries.last(), name, want, whitelist, src) {
            r.push(entry_package(entries.last(), src))
        } else {
            r
        }
    }
}

/// Whether a whitelist names the package an index entry stands for.
fn whitelist_names(wl: &Vec<Package>, e: &IndexEntry, src: &SourceIdentity) -> (r: bool)
    ensures
        r == wl.deep_view().contains(entry_package(e@, src@)),
{
    let mut found = false;
    for j in 0..wl.len()
        invariant
            found == exists|k: int|
                0 <= k < j && wl.deep_view()[k] == entry_package(e@, src@),
    {
        let cand = &wl[j];
        if cand.name == e.name && cand.version.same(&e.version) && cand.source.same(src) {
            proof {
                assert(wl.deep_view()[j as int] == entry_package(e@, src@));
            }
            found = true;
        }
    }
    proof {
        if found {
            assert(wl.deep_view().contains(entry_package(e@, src@)));
        } else {
            if wl.deep_view().contains(entry_package(e@, src@)) {
                let k = choose|k: int|
                    0 <= k < wl.deep_view().len() && wl.deep_view()[k] == entry_package(e@, src@);
                assert(false);
            }
        }
    }
    found
}

/// The packages that a completed index answer resolves to, under a name,
/// an optional exact-version constraint, a yanked-version whitelist and a
/// source identity.
#[verifier::loop_isolation(false)]
pub fn select_matches(
    entries: &Vec<IndexEntry>,
    name: &str,
    want: Option<&Version>,
    whitelist: &Vec<Package>,
    src: &SourceIdentity,
) -> (out: Vec<Package>)
    ensures
        out.deep_view() == resolved_packages(
            entries.deep_view(),
            name@,
            constraint_view(want),
            whitelist.deep_view(),
            src@,
        ),
{
    let name_key = name.to_owned();
    let mut out: Vec<Package> = Vec::new();
    proof {
        assert(entries.deep_view().take(0) =~= Seq::<IndexEntryView>::empty());
        assert(out.deep_view() =~= Seq::<PackageView>::empty());
    }
    for i in 0..entries.len()
        invariant
            out.deep_view() == resolved_packages(
                entries.deep_view().take(i as int),
                name@,
                constraint_view(want),
                whitelist.deep_view(),
                src@,
            ),
    {
        let e = &entries[i];
        proof {
            assert(entries.deep_view().take(i + 1).drop_last() =~= entries.deep_view().take(
                i as int,
            ));
            assert(entries.deep_view().take(i + 1).last() == e@);
        }
        let name_matches = e.name == name_key;
        let version_matches = match want {
            Some(v) => e.version.same(v),
            None => true,
        };
        if name_matches && version_matches {
            if !e.yanked || whitelist_names(whitelist, e, src) {
                let ghost pre = out.deep_view();
                out.push(
                    Package {
                        name: e.name.clone(),
                        version: e.version.clone(),
                        source: src.clone(),
                    },
                );
                proof {
                    assert(out.deep_view() =~= pre.push(entry_package(e@, src@)));
                }
            }
        }
    }
    proof {
        assert(entries.deep_view().take(entries.deep_view().len() as int) =~= entries.deep_view());
    }
    out
}

/// The constraint an optional exact version stands for.
pub open spec fn constraint_view(want: Option<&Version>) -> Option<VersionView> {
    match want {
        Some(v) => Some(v@),
        None => None,
    }
}

/// Law: resolution without a version constraint returns a superset of
/// resolution with any exact-version constraint, against the same index
/// answer, name, whitelist and source.
pub proof fn lemma_unconstrained_resolve_superset(
    entries: Seq<IndexEntryView>,
    name: Seq<char>,
    v: VersionView,
    whitelist: Seq<PackageView>,
    src: SourceIdentityView,
    p: PackageView,
)
    requires
        resolved_packages(entries, name, Some(v), whitelist, src).contains(p),
    ensures
        resolved_packages(entries, name, None, whitelist, src).contains(p),
    decreases entries.len(),
{
    let exact = resolved_packages(entries, name, Some(v), whitelist, src);
    let any = resolved_packages(entries, name, None, whitelist, src);
    if entries.len() > 0 {
        let prior_exact = resolved_packages(entries.drop_last(), name, Some(v), whitelist, src);
        let prior_any = resolved_packages(entries.drop_last(), name, None, whitelist, src);
        if entry_selected(entries.last(), name, Some(v), whitelist, src) && p == entry_package(
            entries.last(),
            src,
        ) {
            assert(entry_selected(entries.last(), name, None, whitelist, src));
            assert(any.contains(p)) by {
                assert(any.last() == p);
            }
        } else {
            if exact == prior_exact.push(entry_package(entries.last(), src)) && p != entry_package(
                entries.last(),
                src,
            ) {
                let k = choose|k: int| 0 <= k < exact.len() && exact[k] == p;
                assert(prior_exact.contains(p)) by {
                    assert(exact[k] == p && k < exact.len() - 1);
                    assert(prior_exact[k] == p);
                }
            }
            lemma_unconstrained_resolve_superset(
                entries.drop_last(),
                name,
                v,
                whitelist,
                src,
                p,
            );
            let j = choose|j: int| 0 <= j < prior_any.len() && prior_any[j] == p;
            assert(any.contains(p)) by {
                assert(any[j] == p);
            }
        }
    }
}

} // verus!
