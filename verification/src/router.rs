use vstd::prelude::*;

use crate::call_builder::ProjectCall;
use crate::types::{ProjectError, WithGov};

verus! {

/// How one action reaches the ledger. The two paths are mutually exclusive
/// per call: the presence of a governance context is the discriminant, and a
/// governed call supersedes direct submission entirely.
#[derive(Clone, Debug, PartialEq, Eq)]
pub enum Dispatch {
    /// Submit under the caller's own credential: attach the signer, fetch
    /// its nonce, compose the transaction offline, submit it, and track it
    /// until inclusion — or until finalization when the flag says so.
    Direct { call: ProjectCall, wait_for_finalization: bool },
    /// Hand the call — unmodified — to the DAO's governance collaborator,
    /// which wraps, signs and submits it under the DAO's policy.
    Governed { dao_id: u64, call: ProjectCall, ctx: WithGov },
}

/// The transport steps that a dispatch decision asks its driver to perform,
/// in order. The driver performs them one by one and feeds each result back;
/// it takes no step that is not prescribed here.
#[derive(Clone, Copy, Debug, PartialEq, Eq, Structural)]
pub enum LedgerAction {
    /// Read the signer's current nonce from the ledger.
    FetchNonce,
    /// Compose the nonce-bound transaction offline and submit it.
    ComposeAndSubmit,
    /// Delegate the call to the governance collaborator.
    DelegateToGovernance,
}

/// How often an action occurs in a prescription.
pub open spec fn count_of(s: Seq<LedgerAction>, a: LedgerAction) -> int
    decreases s.len(),
{
    if s.len() == 0 {
        0
    } else {
        (if s.first() == a {
            1int
        } else {
            0int
        }) + count_of(s.drop_first(), a)
    }
}

/// The full prescription of a dispatch decision.
pub open spec fn prescribed_actions(d: Dispatch) -> Seq<LedgerAction> {
    match d {
        Dispatch::Direct { .. } => seq![LedgerAction::FetchNonce, LedgerAction::ComposeAndSubmit],
        Dispatch::Governed { .. } => seq![LedgerAction::DelegateToGovernance],
    }
}

/// DispatchRouter: decide the path of a built call. A present governance
/// context routes the whole call to the DAO's governance process; an absent
/// one keeps it on the direct path under the caller's credential.
pub fn route(call: ProjectCall, dao_id: u64, governance: Option<WithGov>, wait_for_finalization: bool) -> (d: Dispatch)
    ensures
        (governance matches Some(ctx) ==> d == (Dispatch::Governed { dao_id, call, ctx })),
        (governance is None ==> d == (Dispatch::Direct { call, wait_for_finalization })),
{
    match governance {
        Some(ctx) => Dispatch::Governed { dao_id, call, ctx },
        None => Dispatch::Direct { call, wait_for_finalization },
    }
}

/// A call bound to the nonce it will be composed and signed with; composing
/// and signing themselves belong to the transport.
#[derive(Clone, Debug, PartialEq, Eq)]
pub struct NonceBoundCall {
    pub call: ProjectCall,
    pub nonce: u64,
}

/// Direct path, after the one nonce fetch: bind the fetched nonce to the
/// call, or stop with `NonceFetch` — in which case no transaction exists
/// that could be composed or submitted. Binding is not atomic with
/// submission: concurrent submissions under one credential race for the
/// nonce, and serializing them is the caller's responsibility.
pub fn bind_nonce(call: ProjectCall, dao_id: u64, fetched: Result<u64, String>) -> (r: Result<
    NonceBoundCall,
    ProjectError,
>)
    ensures
        (fetched matches Ok(nonce) ==> r == Ok::<NonceBoundCall, ProjectError>(
            NonceBoundCall { call, nonce },
        )),
        (fetched matches Err(reason) ==> r == Err::<NonceBoundCall, ProjectError>(
            ProjectError::NonceFetch { dao_id, reason },
        )),
{
    match fetched {
        Ok(nonce) => Ok(NonceBoundCall { call, nonce }),
        Err(reason) => Err(ProjectError::NonceFetch { dao_id, reason }),
    }
}

/// What remains of the direct path once the nonce fetch has resolved: only a
/// successful fetch leaves a submission to perform.
pub open spec fn actions_after_nonce(fetched: Result<u64, String>) -> Seq<LedgerAction> {
    match fetched {
        Ok(_) => seq![LedgerAction::ComposeAndSubmit],
        Err(_) => seq![],
    }
}

/// Law: a direct dispatch prescribes exactly one nonce fetch and exactly one
/// submission, the fetch first.
pub proof fn lemma_direct_prescribes_one_fetch_one_submit(d: Dispatch)
    requires
        d is Direct,
    ensures
        prescribed_actions(d) == seq![LedgerAction::FetchNonce, LedgerAction::ComposeAndSubmit],
        count_of(prescribed_actions(d), LedgerAction::FetchNonce) == 1,
        count_of(prescribed_actions(d), LedgerAction::ComposeAndSubmit) == 1,
        count_of(prescribed_actions(d), LedgerAction::DelegateToGovernance) == 0,
{
    let s = prescribed_actions(d);
    assert(s.drop_first() =~= seq![LedgerAction::ComposeAndSubmit]);
    assert(s.drop_first().drop_first() =~= Seq::<LedgerAction>::empty());
    reveal_with_fuel(count_of, 4);
}

/// Law: a governed dispatch prescribes exactly one delegation and neither a
/// nonce fetch nor a direct submission.
pub proof fn lemma_governed_prescribes_delegation_only(d: Dispatch)
    requires
        d is Governed,
    ensures
        prescribed_actions(d) == seq![LedgerAction::DelegateToGovernance],
        count_of(prescribed_actions(d), LedgerAction::DelegateToGovernance) == 1,
        count_of(prescribed_actions(d), LedgerAction::FetchNonce) == 0,
        count_of(prescribed_actions(d), LedgerAction::ComposeAndSubmit) == 0,
{
    let s = prescribed_actions(d);
    assert(s.drop_first() =~= Seq::<LedgerAction>::empty());
    reveal_with_fuel(count_of, 3);
}

/// Law: a failed nonce fetch leaves nothing to submit — the direct path
/// performs no submission after `NonceFetch`.
pub proof fn lemma_no_submission_without_nonce(fetched: Result<u64, String>)
    requires
        fetched is Err,
    ensures
        actions_after_nonce(fetched) == Seq::<LedgerAction>::empty(),
        count_of(actions_after_nonce(fetched), LedgerAction::ComposeAndSubmit) == 0,
{
    assert(actions_after_nonce(fetched) =~= Seq::<LedgerAction>::empty());
    reveal_with_fuel(count_of, 2);
}

} // verus!
