//! Resolution and retrieval of versioned source-code packages from
//! heterogeneous origins: local filesystem paths, git repositories, remote
//! and local registries, and the well-known default registry.
//!
//! The crate owns the package-source data model and every decision the
//! pipeline makes: canonical source identities, package identity equality,
//! constraint matching, the yank-exclusion whitelist policy, request
//! deduplication, and the all-or-nothing assembly of a batch fetch.  The
//! actual transports (network, git, on-disk cache) are collaborators that a
//! host drives; they report back through plain outcome values that the
//! functions here consume.

mod context;
mod errors;
mod fetch;
mod package;
mod paths;
mod resolve;
mod source;
mod version;

pub use context::PackageFetcher;
pub use context::Verbosity;
pub use context::whitelist_views;
pub use errors::FetchError;
pub use fetch::FetchOutcome;
pub use fetch::FetchPlan;
pub use fetch::MaterializeResult;
pub use fetch::dedup_packages;
pub use fetch::dedup_sources;
pub use fetch::fetch_plan;
pub use fetch::gathered_roots;
pub use fetch::lemma_dedup_packages_distinct;
pub use fetch::lemma_dedup_packages_same_elements;
pub use fetch::lemma_dedup_sources_distinct;
pub use fetch::lemma_duplicate_requests_coalesce;
pub use fetch::lemma_gathered_err_persists;
pub use fetch::source_views;
pub use package::Package;
pub use package::PackageView;
pub use paths::canon_path;
pub use paths::canonical_path_text;
pub use paths::is_abs;
pub use paths::lemma_dot_segment_irrelevant;
pub use paths::lemma_empty_segment_irrelevant;
pub use paths::norm_path;
pub use paths::text_is_abs;
pub use resolve::IndexEntry;
pub use resolve::IndexEntryView;
pub use resolve::QueryOutcome;
pub use resolve::constraint_view;
pub use resolve::entry_package;
pub use resolve::entry_selected;
pub use resolve::lemma_unconstrained_resolve_superset;
pub use resolve::resolved_packages;
pub use resolve::select_matches;
pub use source::GitReference;
pub use source::GitReferenceView;
pub use source::PackageSource;
pub use source::PackageSourceView;
pub use source::SourceIdentity;
pub use source::SourceIdentityView;
pub use source::default_registry_index;
pub use source::default_registry_index_text;
pub use source::lemma_path_representation_irrelevant;
pub use source::parsed_url;
pub use version::Version;
pub use version::VersionView;
pub use version::parsed_version;
