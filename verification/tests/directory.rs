use proxy_gates::directory::{
    ApiClient, ApiResponse, LookupError, LookupStep, SubAccountInfo,
};
use proxy_gates::json::{decode_json, Json};

const ACCOUNT: &str = "{\"id\":\"7\",\"minerId\":\"m-7\",\"poolTarget\":\"pool.example:3333\",\"subAccountName\":\"acc\",\"active\":true,\"metadata\":{\"tier\":2},\"createdAt\":\"2024-05-01\",\"extra\":1}";

fn client() -> ApiClient {
    ApiClient::new("https://dir.example".to_string(), 2500, 3)
}

#[test]
fn client_keeps_its_settings() {
    let c = client();
    assert_eq!(c.timeout_ms(), 2500);
    assert_eq!(c.max_retries(), 3);
}

#[test]
fn lookup_url_names_the_worker() {
    assert_eq!(
        client().lookup_url("acc.worker1"),
        "https://dir.example/users/get-subAccount-info?workerName=acc.worker1"
    );
}

#[test]
fn backoff_grows_with_the_square() {
    assert_eq!(ApiClient::backoff_ms(0), 0);
    assert_eq!(ApiClient::backoff_ms(1), 50);
    assert_eq!(ApiClient::backoff_ms(2), 200);
    assert_eq!(ApiClient::backoff_ms(3), 450);
    assert_eq!(ApiClient::backoff_ms(10), 5000);
}

#[test]
fn success_body_is_an_account() {
    match client().on_response(1, 200, ACCOUNT) {
        LookupStep::Done(ApiResponse::Successfully(info)) => {
            assert_eq!(info.id, "7");
            assert_eq!(info.miner_id, "m-7");
            assert_eq!(info.pool_target, "pool.example:3333");
            assert_eq!(info.sub_account_name, "acc");
            assert!(info.active);
            assert!(info.metadata.get("tier").is_some());
            assert_eq!(info.created_at, "2024-05-01");
        }
        other => panic!("unexpected {:?}", other),
    }
}

#[test]
fn success_with_error_body_is_not_found() {
    match client().on_response(1, 200, "{\"error\":\"not found\"}") {
        LookupStep::Done(ApiResponse::NotFoundSubAccount(n)) => assert_eq!(n.error(), "not found"),
        other => panic!("unexpected {:?}", other),
    }
}

#[test]
fn client_error_with_error_body_is_not_found() {
    match client().on_response(1, 404, "{\"error\":\"no such worker\"}") {
        LookupStep::Done(ApiResponse::NotFoundSubAccount(n)) => {
            assert_eq!(n.error(), "no such worker")
        }
        other => panic!("unexpected {:?}", other),
    }
}

#[test]
fn client_error_without_error_body_is_fatal() {
    assert!(matches!(
        client().on_response(1, 403, "{\"message\":\"forbidden\"}"),
        LookupStep::Fail(LookupError::ClientError(403))
    ));
}

#[test]
fn unreadable_body_is_fatal() {
    assert!(matches!(client().on_response(1, 200, "<html>"), LookupStep::Fail(LookupError::BadBody)));
    assert!(matches!(client().on_response(1, 404, ""), LookupStep::Fail(LookupError::BadBody)));
    assert!(matches!(
        client().on_response(1, 200, "{\"error\":5}"),
        LookupStep::Fail(LookupError::BadBody)
    ));
}

#[test]
fn incomplete_account_is_fatal() {
    let body = "{\"id\":\"7\",\"minerId\":\"m-7\",\"poolTarget\":\"p:1\",\"subAccountName\":\"acc\",\"active\":true,\"createdAt\":\"x\"}";
    assert!(matches!(client().on_response(1, 200, body), LookupStep::Fail(LookupError::BadBody)));
    let body = "{\"id\":\"7\",\"minerId\":\"m-7\",\"poolTarget\":\"p:1\",\"subAccountName\":\"acc\",\"active\":\"yes\",\"metadata\":null,\"createdAt\":\"x\"}";
    assert!(matches!(client().on_response(1, 200, body), LookupStep::Fail(LookupError::BadBody)));
}

#[test]
fn server_error_is_retried_with_backoff() {
    assert!(matches!(client().on_response(1, 500, "oops"), LookupStep::Retry(50)));
    assert!(matches!(client().on_response(2, 503, "oops"), LookupStep::Retry(200)));
    assert!(matches!(client().on_response(3, 500, "oops"), LookupStep::Retry(450)));
}

#[test]
fn server_error_after_the_last_attempt_is_fatal() {
    assert!(matches!(
        client().on_response(4, 502, "oops"),
        LookupStep::Fail(LookupError::ServerError(502))
    ));
}

#[test]
fn transport_error_is_retried_then_fatal() {
    assert!(matches!(client().on_transport_error(1), LookupStep::Retry(50)));
    assert!(matches!(client().on_transport_error(3), LookupStep::Retry(450)));
    assert!(matches!(client().on_transport_error(4), LookupStep::Fail(LookupError::Transport)));
    let none = ApiClient::new("x".to_string(), 1, 0);
    assert!(matches!(none.on_transport_error(1), LookupStep::Fail(LookupError::Transport)));
}

#[test]
fn decoded_body_decides_like_the_text() {
    let doc = decode_json(ACCOUNT);
    assert!(matches!(
        client().on_decoded(1, 200, doc),
        LookupStep::Done(ApiResponse::Successfully(_))
    ));
    assert!(matches!(client().on_decoded(1, 200, None), LookupStep::Fail(LookupError::BadBody)));
}

#[test]
fn account_is_read_from_an_object_only() {
    assert!(SubAccountInfo::from_json(Json::Array(vec![])).is_none());
    assert!(SubAccountInfo::from_json(decode_json(ACCOUNT).unwrap()).is_some());
}
