use vstd::prelude::*;

use crate::types::{ProjectError, ProjectInfo};

verus! {

/// The project list a storage response normalizes to: a present value is
/// returned as it stands, an absent one becomes the empty list — a
/// legitimate state, never an error — and only a transport failure is one.
pub open spec fn spec_project_list(
    dao_id: u64,
    response: Result<Option<Vec<ProjectInfo>>, String>,
) -> Result<Seq<ProjectInfo>, ProjectError> {
    match response {
        Ok(Some(projects)) => Ok(projects@),
        Ok(None) => Ok(Seq::<ProjectInfo>::empty()),
        Err(reason) => Err(ProjectError::Query { dao_id, reason }),
    }
}

/// A returned list, seen at the level the specification speaks at.
pub open spec fn list_result_view(r: Result<Vec<ProjectInfo>, ProjectError>) -> Result<
    Seq<ProjectInfo>,
    ProjectError,
> {
    match r {
        Ok(projects) => Ok(projects@),
        Err(e) => Err(e),
    }
}

/// An unchanged backing store, modeled as the map from DAO identifier to the
/// project list recorded under it; what the transport reports for a lookup
/// is a function of the store and the key alone.
pub open spec fn store_response(store: Map<u64, Vec<ProjectInfo>>, dao_id: u64) -> Result<
    Option<Vec<ProjectInfo>>,
    String,
> {
    if store.dom().contains(dao_id) {
        Ok(Some(store[dao_id]))
    } else {
        Ok(None)
    }
}

/// Law: a DAO with no recorded projects lists as the empty sequence, never
/// as an error.
pub proof fn lemma_list_absent_is_empty(store: Map<u64, Vec<ProjectInfo>>, dao_id: u64)
    requires
        !store.dom().contains(dao_id),
    ensures
        spec_project_list(dao_id, store_response(store, dao_id)) == Ok::<
            Seq<ProjectInfo>,
            ProjectError,
        >(Seq::<ProjectInfo>::empty()),
{
}

/// Law: a DAO with recorded projects lists exactly those entries, in the
/// order the storage reports them.
pub proof fn lemma_list_reports_store(store: Map<u64, Vec<ProjectInfo>>, dao_id: u64)
    requires
        store.dom().contains(dao_id),
    ensures
        spec_project_list(dao_id, store_response(store, dao_id)) == Ok::<
            Seq<ProjectInfo>,
            ProjectError,
        >(store[dao_id]@),
{
}

/// Law: the query handler is idempotent — two lookups with identical
/// arguments against an unchanged store see the same response and normalize
/// to identical results.
pub proof fn lemma_query_idempotent(
    store: Map<u64, Vec<ProjectInfo>>,
    dao_id: u64,
    first: Result<Option<Vec<ProjectInfo>>, String>,
    second: Result<Option<Vec<ProjectInfo>>, String>,
)
    requires
        first == store_response(store, dao_id),
        second == store_response(store, dao_id),
    ensures
        spec_project_list(dao_id, first) == spec_project_list(dao_id, second),
{
}

} // verus!
