use workspaces::rpc::{
    access_key_from_response, drive_submission, is_timeout, AccessKeyView, ExecutionOutcome,
    QueryResponse, QueryResponseKind, TxResponse,
};
use workspaces::Error;

#[test]
fn access_key_extracted_with_block_point() {
    let resp = QueryResponse {
        kind: QueryResponseKind::AccessKey(AccessKeyView { nonce: 17, full_access: true }),
        block_height: 1000,
        block_hash: vec![1u8, 2, 3],
    };
    let (key, height, hash) = access_key_from_response(resp).unwrap();
    assert_eq!(key, AccessKeyView { nonce: 17, full_access: true });
    assert_eq!(height, 1000);
    assert_eq!(hash, vec![1u8, 2, 3]);
}

#[test]
fn access_key_missing_is_an_error() {
    let resp = QueryResponse {
        kind: QueryResponseKind::Other,
        block_height: 1000,
        block_hash: Vec::new(),
    };
    assert_eq!(access_key_from_response(resp).unwrap_err(), Error::AccessKeyMissing);
}

#[test]
fn only_the_timeout_class_is_retried() {
    assert!(is_timeout(&TxResponse::Timeout));
    assert!(!is_timeout(&TxResponse::Failure(String::from("other"))));
    assert!(!is_timeout(&TxResponse::Outcome(ExecutionOutcome {
        success: true,
        return_value: Vec::new(),
    })));
}

#[test]
fn submission_retries_until_first_terminal_response() {
    // The backend times out N times, then succeeds: exactly N + 1 attempts.
    let responses = vec![
        TxResponse::Timeout,
        TxResponse::Timeout,
        TxResponse::Timeout,
        TxResponse::Outcome(ExecutionOutcome { success: true, return_value: vec![7u8] }),
        TxResponse::Timeout,
    ];
    let attempts = drive_submission(&responses);
    assert_eq!(attempts, 4);
    match &responses[attempts - 1] {
        TxResponse::Outcome(outcome) => {
            assert!(outcome.success);
            assert_eq!(outcome.return_value, vec![7u8]);
        }
        other => panic!("expected the success response, got {}", kind_of(other)),
    }
}

#[test]
fn submission_stops_at_non_timeout_errors() {
    let responses = vec![
        TxResponse::Timeout,
        TxResponse::Failure(String::from("invalid nonce")),
        TxResponse::Outcome(ExecutionOutcome { success: true, return_value: Vec::new() }),
    ];
    assert_eq!(drive_submission(&responses), 2);
}

#[test]
fn immediate_success_takes_one_attempt() {
    let responses = vec![TxResponse::Outcome(ExecutionOutcome {
        success: false,
        return_value: Vec::new(),
    })];
    assert_eq!(drive_submission(&responses), 1);
}

fn kind_of(r: &TxResponse) -> &'static str {
    match r {
        TxResponse::Outcome(_) => "outcome",
        TxResponse::Timeout => "timeout",
        TxResponse::Failure(_) => "failure",
    }
}
