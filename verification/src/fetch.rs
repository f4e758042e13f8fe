//! Planning and assembly of a batch fetch.
//!
//! A batch of requested identities is reduced to a plan: each distinct
//! package once, in first-request order, and each distinct source identity
//! once, so that every source is loaded exactly once however many packages
//! come from it.  After the host has materialized the planned packages,
//! the reported roots are assembled all-or-nothing: the first failure
//! aborts the whole batch.

use vstd::prelude::*;

use crate::package::Package;
use crate::package::PackageView;
use crate::source::SourceIdentity;
use crate::source::SourceIdentityView;

verus! {

/// How the materialization of one planned package ended.
#[derive(Debug)]
pub enum MaterializeResult {
    /// The package's contents are on disk under this root directory.
    Root(String),
    /// Checkout or extraction failed with this report.
    Failed(String),
}

/// How one batch fetch ended, as reported by the host that drove the
/// lock, the source loads and the checkouts.
#[derive(Debug)]
pub enum FetchOutcome {
    /// The process-wide package-cache lock could not be acquired.
    LockFailed(String),
    /// Some source handle could not be loaded or never became ready.
    LoadFailed(String),
    /// The loaded handles and the requested identities could not be
    /// assembled into one package set.
    AssemblyFailed(String),
    /// Every planned package was attempted; one result per planned
    /// package, in plan order.
    Materialized(Vec<MaterializeResult>),
}

/// What a batch fetch has to do: each distinct requested package once, in
/// first-request order, and each distinct source identity once.
#[derive(Debug)]
pub struct FetchPlan {
    /// The distinct requested packages, in first-request order.
    pub targets: Vec<Package>,
    /// The distinct source identities of the targets, in first-request
    /// order; each is loaded exactly once, with the whole requested batch
    /// as its yanked-version whitelist.
    pub sources: Vec<SourceIdentity>,
}

/// A sequence of package identities with later repetitions dropped.
pub open spec fn dedup_packages(s: Seq<PackageView>) -> Seq<PackageView>
    decreases s.len(),
{
    if s.len() == 0 {
        Seq::<PackageView>::empty()
    } else {
        let r = dedup_packages(s.drop_last());
        if r.contains(s.last()) {
            r
        } else {
            r.push(s.last())
        }
    }
}

/// A sequence of source identities with later repetitions dropped.
pub open spec fn dedup_sources(s: Seq<SourceIdentityView>) -> Seq<SourceIdentityView>
    decreases s.len(),
{
    if s.len() == 0 {
        Seq::<SourceIdentityView>::empty()
    } else {
        let r = dedup_sources(s.drop_last());
        if r.contains(s.last()) {
            r
        } else {
            r.push(s.last())
        }
    }
}

/// The source identities of a sequence of packages, in order.
pub open spec fn source_views(s: Seq<PackageView>) -> Seq<SourceIdentityView> {
    s.map_values(|p: PackageView| p.source)
}

/// The roots of a materialized batch when every package succeeded, or the
/// first failure report.
pub open spec fn gathered_roots(rs: Seq<MaterializeResult>) -> Result<Seq<Seq<char>>, Seq<char>>
    decreases rs.len(),
{
    if rs.len() == 0 {
        Ok(Seq::<Seq<char>>::empty())
    } else {
        match gathered_roots(rs.drop_last()) {
            Err(m) => Err(m),
            Ok(roots) => match rs.last() {
                MaterializeResult::Failed(m) => Err(m@),
                MaterializeResult::Root(p) => Ok(roots.push(p@)),
            },
        }
    }
}

/// Deduplication keeps exactly the elements that were requested: nothing
/// is invented and nothing is silently dropped.
pub proof fn lemma_dedup_packages_same_elements(s: Seq<PackageView>, p: PackageView)
    ensures
        dedup_packages(s).contains(p) <==> s.contains(p),
    decreases s.len(),
{
    if s.len() > 0 {
        lemma_dedup_packages_same_elements(s.drop_last(), p);
        let r = dedup_packages(s.drop_last());
        let d = dedup_packages(s);
        if d.contains(p) {
            if r.contains(p) || p == s.last() {
                if p == s.last() {
                    assert(s.contains(p)) by {
                        assert(s[s.len() - 1] == p);
                    }
                } else {
                    let k = choose|k: int| 0 <= k < s.drop_last().len() && s.drop_last()[k] == p;
                    assert(s[k] == p);
                    assert(s.contains(p));
                }
            } else {
                let k = choose|k: int| 0 <= k < d.len() && d[k] == p;
                assert(r.contains(p)) by {
                    assert(d == r.push(s.last()));
                    assert(d[k] == p && k < d.len() - 1);
                    assert(r[k] == p);
                }
            }
        }
        if s.contains(p) {
            let k = choose|k: int| 0 <= k < s.len() && s[k] == p;
            if k < s.len() - 1 {
                assert(s.drop_last()[k] == p);
                assert(s.drop_last().contains(p));
                assert(r.contains(p));
                if !r.contains(s.last()) {
                    let j = choose|j: int| 0 <= j < r.len() && r[j] == p;
                    assert(d[j] == p);
                    assert(d.contains(p));
                }
            } else {
                if r.contains(s.last()) {
                    assert(d.contains(p));
                } else {
                    assert(d == r.push(s.last()));
                    assert(d[d.len() - 1] == p);
                    assert(d.contains(p));
                }
            }
        }
    }
}

/// Deduplication never leaves two equal elements behind: each distinct
/// package stands in the plan exactly once.
pub proof fn lemma_dedup_packages_distinct(s: Seq<PackageView>)
    ensures
        forall|i: int, j: int|
            0 <= i < j < dedup_packages(s).len() ==> dedup_packages(s)[i] != dedup_packages(s)[j],
    decreases s.len(),
{
    if s.len() > 0 {
        lemma_dedup_packages_distinct(s.drop_last());
        let r = dedup_packages(s.drop_last());
        let d = dedup_packages(s);
        if !r.contains(s.last()) {
            assert forall|i: int, j: int| 0 <= i < j < d.len() implies d[i] != d[j] by {
                if j < d.len() - 1 {
                    assert(r[i] == d[i] && r[j] == d[j]);
                } else {
                    assert(d[j] == s.last());
                    assert(r[i] == d[i]);
                    assert(r.contains(r[i]));
                }
            }
        }
    }
}

/// Deduplication never lists one source identity twice: each distinct
/// source is loaded exactly once per batch.
pub proof fn lemma_dedup_sources_distinct(s: Seq<SourceIdentityView>)
    ensures
        forall|i: int, j: int|
            0 <= i < j < dedup_sources(s).len() ==> dedup_sources(s)[i] != dedup_sources(s)[j],
    decreases s.len(),
{
    if s.len() > 0 {
        lemma_dedup_sources_distinct(s.drop_last());
        let r = dedup_sources(s.drop_last());
        let d = dedup_sources(s);
        if !r.contains(s.last()) {
            assert forall|i: int, j: int| 0 <= i < j < d.len() implies d[i] != d[j] by {
                if j < d.len() - 1 {
                    assert(r[i] == d[i] && r[j] == d[j]);
                } else {
                    assert(d[j] == s.last());
                    assert(r[i] == d[i]);
                    assert(r.contains(r[i]));
                }
            }
        }
    }
}

/// Law: requests for one and the same package coalesce.  However many
/// times a batch repeats one identity, the plan holds at most one target,
/// so at most one root comes back.
pub proof fn lemma_duplicate_requests_coalesce(s: Seq<PackageView>)
    requires
        forall|i: int, j: int| 0 <= i < s.len() && 0 <= j < s.len() ==> s[i] == s[j],
    ensures
        dedup_packages(s).len() <= 1,
    decreases s.len(),
{
    if s.len() > 0 {
        lemma_duplicate_requests_coalesce(s.drop_last());
        let r = dedup_packages(s.drop_last());
        if r.len() == 1 {
            lemma_dedup_packages_same_elements(s.drop_last(), r[0]);
            assert(r.contains(r[0]));
            let k = choose|k: int| 0 <= k < s.drop_last().len() && s.drop_last()[k] == r[0];
            assert(s[k] == r[0]);
            assert(s.last() == s[s.len() - 1]);
            assert(r[0] == s.last());
            assert(r.contains(s.last()));
        }
    }
}

/// Whether a list of packages already holds this identity.
fn targets_hold(v: &Vec<Package>, p: &Package) -> (r: bool)
    ensures
        r == v.deep_view().contains(p@),
{
    let mut found = false;
    for j in 0..v.len()
        invariant
            found == exists|k: int| 0 <= k < j && v.deep_view()[k] == p@,
    {
        if v[j].same(p) {
            proof {
                assert(v.deep_view()[j as int] == p@);
            }
            found = true;
        }
    }
    proof {
        if !found && v.deep_view().contains(p@) {
            let k = choose|k: int| 0 <= k < v.deep_view().len() && v.deep_view()[k] == p@;
            assert(false);
        }
    }
    found
}

/// Whether a list of source identities already holds this one.
fn sources_hold(v: &Vec<SourceIdentity>, s: &SourceIdentity) -> (r: bool)
    ensures
        r == v.deep_view().contains(s@),
{
    let mut found = false;
    for j in 0..v.len()
        invariant
            found == exists|k: int| 0 <= k < j && v.deep_view()[k] == s@,
    {
        if v[j].same(s) {
            proof {
                assert(v.deep_view()[j as int] == s@);
            }
            found = true;
        }
    }
    proof {
        if !found && v.deep_view().contains(s@) {
            let k = choose|k: int| 0 <= k < v.deep_view().len() && v.deep_view()[k] == s@;
            assert(false);
        }
    }
    found
}

/// The plan for a batch of requested identities: the distinct packages in
/// first-request order, and their distinct source identities, each to be
/// loaded exactly once.
#[verifier::loop_isolation(false)]
pub fn fetch_plan(packages: &Vec<Package>) -> (plan: FetchPlan)
    ensures
        plan.targets.deep_view() == dedup_packages(packages.deep_view()),
        plan.sources.deep_view() == dedup_sources(
            source_views(dedup_packages(packages.deep_view())),
        ),
{
    let mut targets: Vec<Package> = Vec::new();
    proof {
        assert(packages.deep_view().take(0) =~= Seq::<PackageView>::empty());
        assert(targets.deep_view() =~= Seq::<PackageView>::empty());
    }
    for i in 0..packages.len()
        invariant
            targets.deep_view() == dedup_packages(packages.deep_view().take(i as int)),
    {
        let p = &packages[i];
        proof {
            assert(packages.deep_view().take(i + 1).drop_last() =~= packages.deep_view().take(
                i as int,
            ));
            assert(packages.deep_view().take(i + 1).last() == p@);
        }
        if !targets_hold(&targets, p) {
            let ghost pre = targets.deep_view();
            targets.push(p.clone());
            proof {
                assert(targets.deep_view() =~= pre.push(p@));
            }
        }
    }
    proof {
        assert(packages.deep_view().take(packages.deep_view().len() as int)
            =~= packages.deep_view());
    }
    let mut sources: Vec<SourceIdentity> = Vec::new();
    proof {
        assert(source_views(targets.deep_view()).take(0) =~= Seq::<SourceIdentityView>::empty());
        assert(sources.deep_view() =~= Seq::<SourceIdentityView>::empty());
    }
    for i in 0..targets.len()
        invariant
            sources.deep_view() == dedup_sources(
                source_views(targets.deep_view()).take(i as int),
            ),
    {
        let s = &targets[i].source;
        proof {
            assert(source_views(targets.deep_view()).take(i + 1).drop_last() =~= source_views(
                targets.deep_view(),
            ).take(i as int));
            assert(source_views(targets.deep_view()).take(i + 1).last() == s@);
        }
        if !sources_hold(&sources, s) {
            let ghost pre = sources.deep_view();
            sources.push(s.clone());
            proof {
                assert(sources.deep_view() =~= pre.push(s@));
            }
        }
    }
    proof {
        assert(source_views(targets.deep_view()).take(source_views(targets.deep_view()).len() as int)
            =~= source_views(targets.deep_view()));
    }
    FetchPlan { targets, sources }
}

/// A batch that gathers successfully yields exactly one root per report.
pub proof fn lemma_gathered_ok_len(rs: Seq<MaterializeResult>)
    requires
        gathered_roots(rs) is Ok,
    ensures
        gathered_roots(rs)->Ok_0.len() == rs.len(),
    decreases rs.len(),
{
    if rs.len() > 0 {
        lemma_gathered_ok_len(rs.drop_last());
    }
}

/// The roots of a materialized batch, in plan order, or the first failure
/// report; all-or-nothing, with no partial result.
#[verifier::loop_isolation(false)]
pub fn gather_roots(results: &Vec<MaterializeResult>) -> (r: Result<Vec<String>, String>)
    ensures
        (match gathered_roots(results@) {
            Ok(roots) => r matches Ok(v) && v.deep_view() == roots,
            Err(m) => r matches Err(e) && e@ == m,
        }),
{
    let mut out: Vec<String> = Vec::new();
    proof {
        assert(results@.take(0) =~= Seq::<MaterializeResult>::empty());
        assert(out.deep_view() =~= Seq::<Seq<char>>::empty());
    }
    for i in 0..results.len()
        invariant
            gathered_roots(results@.take(i as int)) == Ok::<Seq<Seq<char>>, Seq<char>>(
                out.deep_view(),
            ),
    {
        proof {
            assert(results@.take(i + 1).drop_last() =~= results@.take(i as int));
            assert(results@.take(i + 1).last() == results@[i as int]);
        }
        match &results[i] {
            MaterializeResult::Root(p) => {
                let ghost pre = out.deep_view();
                out.push(p.clone());
                proof {
                    assert(out.deep_view() =~= pre.push(p@));
                }
            },
            MaterializeResult::Failed(m) => {
                proof {
                    lemma_gathered_err_persists(results@, i + 1);
                }
                return Err(m.clone());
            },
        }
    }
    proof {
        assert(results@.take(results@.len() as int) =~= results@);
    }
    Ok(out)
}

/// Once a prefix of the materialization reports holds a failure, the
/// whole batch gathers to that same failure.
pub proof fn lemma_gathered_err_persists(rs: Seq<MaterializeResult>, i: int)
    requires
        0 <= i <= rs.len(),
        gathered_roots(rs.take(i)) is Err,
    ensures
        gathered_roots(rs) == gathered_roots(rs.take(i)),
    decreases rs.len() - i,
{
    if i < rs.len() {
        assert(rs.take(i + 1).drop_last() =~= rs.take(i));
        lemma_gathered_err_persists(rs, i + 1);
    } else {
        assert(rs.take(i) =~= rs);
    }
}

} // verus!
