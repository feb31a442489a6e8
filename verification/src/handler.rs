use vstd::prelude::*;

use crate::address::ss58_decoded;
use crate::call_builder::{build_create_project_call, call_matches};
use crate::query::{list_result_view, spec_project_list};
use crate::router::{route, Dispatch};
use crate::types::{BaseHander, Client, ProjectError, ProjectInfo, WithGov};

verus! {

/// Handler for the project pallet: one per endpoint, carrying the base
/// configuration every decision is made against.
pub struct WeteeProject {
    pub base: BaseHander,
}

impl WeteeProject {
    /// A fresh handler for the given endpoint; submissions it plans are
    /// tracked to inclusion without waiting for finalization.
    pub fn new(c: Client) -> (h: Self)
        ensures
            h.base.client == c,
            !h.base.wait_for_finalization,
    {
        WeteeProject { base: BaseHander::new(c, false) }
    }

    /// QueryHandler: normalize the transport's response for the DAO's
    /// project map — the one parameterized storage read this handler makes.
    /// A present value is returned exactly as reported, an absent one as the
    /// empty list, and a transport failure as `Query` with its reason.
    pub fn project_list(&self, dao_id: u64, response: Result<Option<Vec<ProjectInfo>>, String>) -> (r:
        Result<Vec<ProjectInfo>, ProjectError>)
        ensures
            list_result_view(r) == spec_project_list(dao_id, response),
    {
        match response {
            Ok(Some(projects)) => Ok(projects),
            Ok(None) => {
                let empty: Vec<ProjectInfo> = Vec::new();
                proof {
                    assert(empty@ =~= Seq::<ProjectInfo>::empty());
                }
                Ok(empty)
            },
            Err(reason) => Err(ProjectError::Query { dao_id, reason }),
        }
    }

    /// Build the create-project call and decide its path. The identifier is
    /// validated first: one that does not decode to the ledger's account
    /// representation is rejected as `InvalidAddress` and no dispatch — and
    /// so no network interaction — is prescribed. Otherwise the decision
    /// follows the governance context alone: present, the unmodified call is
    /// delegated to the DAO's governance process; absent, it goes the direct
    /// path under the caller's credential and this handler's finalization
    /// policy.
    pub fn create_project(
        &self,
        from: String,
        dao_id: u64,
        name: String,
        desc: String,
        ext: Option<WithGov>,
    ) -> (r: Result<Dispatch, ProjectError>)
        ensures
            (r is Err <==> ss58_decoded(from@) is None),
            (r matches Err(e) ==> e == ProjectError::InvalidAddress),
            (ss58_decoded(from@) matches Some(acct) ==> match ext {
                Some(ctx) => (r matches Ok(d) && d matches Dispatch::Governed {
                    dao_id: routed_dao,
                    call,
                    ctx: routed_ctx,
                } && routed_dao == dao_id && routed_ctx == ctx && call_matches(
                    call,
                    dao_id,
                    name@,
                    desc@,
                    acct,
                )),
                None => (r matches Ok(d) && d matches Dispatch::Direct {
                    call,
                    wait_for_finalization,
                } && wait_for_finalization == self.base.wait_for_finalization && call_matches(
                    call,
                    dao_id,
                    name@,
                    desc@,
                    acct,
                )),
            }),
    {
        let call = match build_create_project_call(&from, dao_id, name, desc) {
            Ok(call) => call,
            Err(e) => {
                return Err(e);
            },
        };
        Ok(route(call, dao_id, ext, self.base.wait_for_finalization))
    }
}

} // verus!
