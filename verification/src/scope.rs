//! Storage namespaces.
use vstd::prelude::*;

verus! {

/// Identity of one tenant.
#[derive(Debug, Clone, Copy, PartialEq, Eq, Structural, PartialOrd, Ord, Hash)]
pub struct TenantId(pub u128);

/// Storage namespace that a request or a background pass works in.
#[derive(Debug, Clone, Copy, PartialEq, Eq, Structural, PartialOrd, Ord, Hash)]
pub enum DataScope {
    /// Rows written before tenants had a namespace of their own.
    LegacyUnscoped,
    /// Rows of one tenant.
    Tenant(TenantId),
}

impl DataScope {
    /// Position of the namespace: the unscoped rows first, then the tenants by id.
    pub open spec fn rank(self) -> int {
        match self {
            DataScope::LegacyUnscoped => -1,
            DataScope::Tenant(id) => id.0 as int,
        }
    }

    /// Whether this namespace comes before another one.
    pub fn precedes(&self, other: &DataScope) -> (before: bool)
        ensures
            before == (self.rank() < other.rank()),
    {
        match (self, other) {
            (DataScope::LegacyUnscoped, DataScope::LegacyUnscoped) => false,
            (DataScope::LegacyUnscoped, DataScope::Tenant(_)) => true,
            (DataScope::Tenant(_), DataScope::LegacyUnscoped) => false,
            (DataScope::Tenant(left), DataScope::Tenant(right)) => left.0 < right.0,
        }
    }
}

/// The position of a namespace tells it apart from every other one.
pub proof fn law_rank_identifies_scope(left: DataScope, right: DataScope)
    ensures
        left.rank() == right.rank() <==> left == right,
{
}

/// Unscoped rows come before those of every tenant, and tenants come by their ids.
pub proof fn law_scopes_are_ordered_by_tenant(left: TenantId, right: TenantId)
    ensures
        DataScope::LegacyUnscoped.rank() < DataScope::Tenant(left).rank(),
        DataScope::Tenant(left).rank() < DataScope::Tenant(right).rank() <==> left.0 < right.0,
{
}

} // verus!
