//! The row record shown by the table: one tracked dependency.
//!
//! Row records are produced by the data source and never mutated by the
//! viewer; fields that the background computation has not produced yet
//! are absent, and every cell renders a placeholder for them.
use vstd::prelude::*;

verus! {

/// Outcome of the trust verification for one dependency.
#[derive(Clone, Copy, PartialEq, Eq, Structural, Debug)]
pub enum VerificationStatus {
    Verified,
    Insufficient,
    Negative,
}

/// A count for the displayed version beside the count over all versions.
#[derive(Clone, Copy, PartialEq, Eq, Structural, Debug)]
pub struct VersionCounts {
    pub version: u64,
    pub total: u64,
}

/// A count restricted to trusted parties beside the overall count.
#[derive(Clone, Copy, PartialEq, Eq, Structural, Debug)]
pub struct TrustedCounts {
    pub trusted: u64,
    pub total: u64,
}

/// What the background computation has produced for a dependency so far.
pub struct ComputedDep {
    pub trust: VerificationStatus,
    /// Already formatted by the data source relative to the current version.
    pub latest_trusted_version: String,
    pub reviews: VersionCounts,
    pub downloads: Option<VersionCounts>,
    pub owners: Option<TrustedCounts>,
    pub issues: TrustedCounts,
    pub loc: Option<u64>,
}

impl ComputedDep {
    /// A copy equal to `self` in every field.
    pub fn duplicate(&self) -> (r: ComputedDep)
        ensures
            r == *self,
    {
        ComputedDep {
            trust: self.trust,
            latest_trusted_version: self.latest_trusted_version.clone(),
            reviews: self.reviews,
            downloads: self.downloads,
            owners: self.owners,
            issues: self.issues,
            loc: self.loc,
        }
    }
}

/// One row record: a dependency with whatever has been computed for it.
pub struct Dep {
    pub name: String,
    pub version: String,
    pub computed: Option<ComputedDep>,
}

impl Dep {
    /// A copy equal to `self` in every field.
    pub fn duplicate(&self) -> (r: Dep)
        ensures
            r == *self,
    {
        let computed = match &self.computed {
            Some(c) => Some(c.duplicate()),
            None => None,
        };
        Dep { name: self.name.clone(), version: self.version.clone(), computed }
    }
}

} // verus!
