use sp_core::crypto::Ss58Codec;
use wetee_project_client::{
    bind_nonce, build_create_project_call, conclude_delegation, conclude_submission, route,
    submission_result, AccountId, BaseHander, Client, Dispatch, ProjectError, ProjectInfo,
    SubmissionOutcome, WeteeProject, WithGov,
};

/// A well-formed SS58 address (format 42) and the 32 public-key bytes it encodes.
const ALICE_SS58: &str = "5GrwvaEF5zXb26Fz9rcQpDWS57CtERHpNehXCPcNoHGKutQY";
const ALICE_BYTES: [u8; 32] = [
    0xd4, 0x35, 0x93, 0xc7, 0x15, 0xfd, 0xd3, 0x1c, 0x61, 0x14, 0x1a, 0xbd, 0x04, 0xa9, 0x9f,
    0xd6, 0x82, 0x2c, 0x85, 0x58, 0x85, 0x4c, 0xcd, 0xe3, 0x9a, 0x56, 0x84, 0xe7, 0xa5, 0x6d,
    0xa2, 0x7d,
];

fn handler() -> WeteeProject {
    WeteeProject::new(Client { uri: String::from("ws://127.0.0.1:9944") })
}

fn record(id: u64, name: &str) -> ProjectInfo {
    ProjectInfo {
        id,
        name: name.as_bytes().to_vec(),
        description: b"demo".to_vec(),
        creator: AccountId { bytes: ALICE_BYTES.to_vec() },
    }
}

#[test]
fn new_keeps_endpoint_and_finalization_policy() {
    let h = WeteeProject::new(Client { uri: String::from("ws://node:9944") });
    assert_eq!(h.base.client.uri, "ws://node:9944");
    assert!(!h.base.wait_for_finalization);
}

#[test]
fn base_hander_keeps_its_arguments() {
    let b = BaseHander::new(Client { uri: String::from("ws://x") }, true);
    assert_eq!(b.client.uri, "ws://x");
    assert!(b.wait_for_finalization);
}

#[test]
fn list_projects_absent_is_empty_not_error() {
    let h = handler();
    let r = h.project_list(1, Ok(None));
    assert_eq!(r, Ok(vec![]));
}

#[test]
fn list_projects_reports_stored_entries_in_order() {
    let h = handler();
    let stored = vec![record(1, "alpha"), record(2, "beta"), record(3, "gamma")];
    let r = h.project_list(7, Ok(Some(stored.clone())));
    assert_eq!(r, Ok(stored));
}

#[test]
fn list_projects_propagates_transport_failure() {
    let h = handler();
    let r = h.project_list(7, Err(String::from("connection reset")));
    assert_eq!(
        r,
        Err(ProjectError::Query { dao_id: 7, reason: String::from("connection reset") })
    );
}

#[test]
fn query_is_idempotent_against_unchanged_store() {
    let h = handler();
    let stored = vec![record(4, "delta")];
    let first = h.project_list(2, Ok(Some(stored.clone())));
    let second = h.project_list(2, Ok(Some(stored)));
    assert_eq!(first, second);
    let first_absent = h.project_list(3, Ok(None));
    let second_absent = h.project_list(3, Ok(None));
    assert_eq!(first_absent, second_absent);
}

#[test]
fn create_project_direct_builds_call_from_decoded_address() {
    let h = handler();
    let r = h.create_project(
        String::from(ALICE_SS58),
        9,
        String::from("my project"),
        String::from("a demo project"),
        None,
    );
    match r {
        Ok(Dispatch::Direct { call, wait_for_finalization }) => {
            assert_eq!(call.dao_id, 9);
            assert_eq!(call.name, "my project");
            assert_eq!(call.description, "a demo project");
            assert_eq!(call.creator.bytes, ALICE_BYTES.to_vec());
            assert!(!wait_for_finalization);
        }
        other => panic!("expected a direct dispatch, got {:?}", other),
    }
}

#[test]
fn decoded_creator_agrees_with_sp_core() {
    let (public, _format) =
        sp_core::sr25519::Public::from_ss58check_with_version(ALICE_SS58).unwrap();
    let call = build_create_project_call(
        &String::from(ALICE_SS58),
        1,
        String::from("n"),
        String::from("d"),
    )
    .unwrap();
    assert_eq!(call.creator.bytes, public.0.to_vec());
}

#[test]
fn create_project_governed_delegates_unmodified_call() {
    let h = handler();
    let ctx = WithGov { run_type: 1, amount: 100 };
    let expected_call = build_create_project_call(
        &String::from(ALICE_SS58),
        9,
        String::from("my project"),
        String::from("a demo project"),
    )
    .unwrap();
    let r = h.create_project(
        String::from(ALICE_SS58),
        9,
        String::from("my project"),
        String::from("a demo project"),
        Some(ctx),
    );
    assert_eq!(r, Ok(Dispatch::Governed { dao_id: 9, call: expected_call, ctx }));
}

#[test]
fn invalid_address_rejected_before_any_dispatch() {
    let h = handler();
    let r = h.create_project(
        String::from("not an address"),
        9,
        String::from("n"),
        String::from("d"),
        None,
    );
    assert_eq!(r, Err(ProjectError::InvalidAddress));
    // The governance path validates the identifier the same way.
    let governed = h.create_project(
        String::from("5GrwvaEF5zXb26Fz9rcQpDWS57CtERHpNehXCPcNoHGKutQZ"), // bad checksum
        9,
        String::from("n"),
        String::from("d"),
        Some(WithGov { run_type: 1, amount: 0 }),
    );
    assert_eq!(governed, Err(ProjectError::InvalidAddress));
}

#[test]
fn route_follows_governance_presence_alone() {
    let call = build_create_project_call(
        &String::from(ALICE_SS58),
        5,
        String::from("n"),
        String::from("d"),
    )
    .unwrap();
    let ctx = WithGov { run_type: 2, amount: 7 };
    let governed = route(call.clone(), 5, Some(ctx), false);
    assert_eq!(governed, Dispatch::Governed { dao_id: 5, call: call.clone(), ctx });
    let direct = route(call.clone(), 5, None, true);
    assert_eq!(direct, Dispatch::Direct { call, wait_for_finalization: true });
}

#[test]
fn nonce_binds_to_the_call_on_success() {
    let call = build_create_project_call(
        &String::from(ALICE_SS58),
        5,
        String::from("n"),
        String::from("d"),
    )
    .unwrap();
    let bound = bind_nonce(call.clone(), 5, Ok(41)).unwrap();
    assert_eq!(bound.call, call);
    assert_eq!(bound.nonce, 41);
}

#[test]
fn nonce_failure_stops_the_direct_path() {
    let call = build_create_project_call(
        &String::from(ALICE_SS58),
        5,
        String::from("n"),
        String::from("d"),
    )
    .unwrap();
    let r = bind_nonce(call, 5, Err(String::from("rpc timed out")));
    assert_eq!(
        r,
        Err(ProjectError::NonceFetch { dao_id: 5, reason: String::from("rpc timed out") })
    );
}

#[test]
fn inclusion_reports_the_block_reference() {
    let o = conclude_submission(Ok(String::from("0xabc123")));
    assert_eq!(o, SubmissionOutcome::Included { block_ref: String::from("0xabc123") });
    assert_eq!(submission_result(5, o), Ok(()));
}

#[test]
fn submission_failure_preserves_diagnostic_verbatim() {
    let diagnostic = "Extrinsic(\"Priority is too low\")";
    let o = conclude_submission(Err(String::from(diagnostic)));
    assert_eq!(o, SubmissionOutcome::Failed { cause: String::from(diagnostic) });
    let r = submission_result(5, o);
    match r {
        Err(ProjectError::Submit { dao_id, diagnostic: d }) => {
            assert_eq!(dao_id, 5);
            assert!(d.contains(diagnostic));
            assert_eq!(d, diagnostic);
        }
        other => panic!("expected a submit error, got {:?}", other),
    }
}

#[test]
fn delegation_outcome_is_returned_as_reported() {
    assert_eq!(conclude_delegation(5, Ok(())), Ok(()));
    assert_eq!(
        conclude_delegation(5, Err(String::from("proposal rejected"))),
        Err(ProjectError::Governance { dao_id: 5, reason: String::from("proposal rejected") })
    );
}
