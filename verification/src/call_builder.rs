use vstd::prelude::*;

use crate::address::{decode_ss58, ss58_decoded};
use crate::types::{AccountId, ProjectError};

verus! {

/// The pallet-addressed payload of one create-project action: immutable once
/// built, and opaque to the rest of the library beyond being submitted
/// directly or wrapped for governance.
#[derive(Clone, Debug, PartialEq, Eq)]
pub struct ProjectCall {
    pub dao_id: u64,
    pub name: String,
    pub description: String,
    pub creator: AccountId,
}

/// What it means for a built call to represent the caller's arguments, with
/// the creator already in the ledger's account representation.
pub open spec fn call_matches(
    c: ProjectCall,
    dao_id: u64,
    name: Seq<char>,
    description: Seq<char>,
    creator: Seq<u8>,
) -> bool {
    &&& c.dao_id == dao_id
    &&& c.name@ == name
    &&& c.description@ == description
    &&& c.creator.bytes@ == creator
}

/// CallBuilder: assemble the create-project call from validated arguments,
/// deterministically and without side effects. The creator identifier must
/// decode to the ledger's account representation; otherwise the action is
/// rejected as `InvalidAddress` and nothing is built.
pub fn build_create_project_call(
    from: &String,
    dao_id: u64,
    name: String,
    description: String,
) -> (r: Result<ProjectCall, ProjectError>)
    ensures
        (r matches Ok(c) ==> ss58_decoded(from@) matches Some(acct) && call_matches(
            c,
            dao_id,
            name@,
            description@,
            acct,
        ) && c.creator.wf()),
        (r is Err <==> ss58_decoded(from@) is None),
        (r matches Err(e) ==> e == ProjectError::InvalidAddress),
{
    match decode_ss58(from) {
        Ok(creator) => Ok(ProjectCall { dao_id, name, description, creator }),
        Err(e) => Err(e),
    }
}

} // verus!
