//! Client-side handling for a DAO's project pallet: build the create-project
//! call, decide between direct submission and governance delegation, and
//! normalize transport outcomes and storage reads to typed results.

pub mod address;
pub mod call_builder;
pub mod handler;
pub mod query;
pub mod router;
pub mod tracker;
pub mod types;

pub use call_builder::{build_create_project_call, ProjectCall};
pub use handler::WeteeProject;
pub use router::{bind_nonce, route, Dispatch, LedgerAction, NonceBoundCall};
pub use tracker::{conclude_delegation, conclude_submission, submission_result};
pub use types::{AccountId, BaseHander, Client, ProjectError, ProjectInfo, SubmissionOutcome, WithGov};
