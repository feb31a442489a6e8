use vstd::prelude::*;

verus! {

/// Binding to one remote ledger endpoint. Everything this library decides is
/// relative to a single node, identified by its RPC address; the transport
/// that talks to that node lives outside the library.
pub struct Client {
    pub uri: String,
}

/// Shared base of the pallet handlers: the endpoint together with the
/// finalization policy applied when a submission is tracked.
pub struct BaseHander {
    pub client: Client,
    pub wait_for_finalization: bool,
}

impl BaseHander {
    pub fn new(client: Client, wait_for_finalization: bool) -> (h: Self)
        ensures
            h.client == client,
            h.wait_for_finalization == wait_for_finalization,
    {
        BaseHander { client, wait_for_finalization }
    }
}

/// Governance context attached to an invocation. Its presence is the sole
/// condition that routes a call through the DAO's sudo/governance process
/// instead of direct submission; the fields are carried through unread to
/// the governance collaborator.
#[derive(Clone, Copy, Debug, PartialEq, Eq, Structural)]
pub struct WithGov {
    /// How the governance collaborator runs the call (sudo or proposal).
    pub run_type: u8,
    /// Deposit attached to a governance proposal.
    pub amount: u64,
}

/// The ledger's account representation: the 32 raw bytes of an sr25519
/// public key, as obtained by decoding an SS58 address.
#[derive(Clone, Debug, PartialEq, Eq)]
pub struct AccountId {
    pub bytes: Vec<u8>,
}

impl AccountId {
    /// A well-formed account holds exactly the 32 key bytes.
    pub open spec fn wf(&self) -> bool {
        self.bytes@.len() == 32
    }
}

/// One project record as the ledger stores it under a DAO.
#[derive(Clone, Debug, PartialEq, Eq)]
pub struct ProjectInfo {
    pub id: u64,
    pub name: Vec<u8>,
    pub description: Vec<u8>,
    pub creator: AccountId,
}

/// Every way an action of this library can fail. No failure is swallowed:
/// each variant records the DAO it concerns and the transport's own words
/// where there are any.
#[derive(Clone, Debug, PartialEq, Eq)]
pub enum ProjectError {
    /// The creator identifier is not a well-formed SS58 address.
    InvalidAddress,
    /// The transport could not supply the signer's nonce for a direct
    /// submission.
    NonceFetch { dao_id: u64, reason: String },
    /// The transport reported a submission or finalization failure; the
    /// diagnostic is preserved verbatim.
    Submit { dao_id: u64, diagnostic: String },
    /// The transport failed while reading storage — distinct from a key
    /// that is legitimately absent.
    Query { dao_id: u64, reason: String },
    /// The governance collaborator refused or failed the delegated call.
    Governance { dao_id: u64, reason: String },
}

/// Terminal outcome of one tracked submission; there are no further
/// transitions out of either variant.
#[derive(Clone, Debug, PartialEq, Eq)]
pub enum SubmissionOutcome {
    /// The transaction was included; the reference locates its block.
    Included { block_ref: String },
    /// The transport reported a definitive failure, quoted verbatim.
    Failed { cause: String },
}

} // verus!
