use jsonrpc_core::Params;
use serde_json::Value;
use ws_client::simple_rpc::{parse_u64, RPCSubscriber};

fn no_params() -> Params {
    Params::None
}

#[test]
fn request_ids_strictly_increase() {
    let mut table: RPCSubscriber<u64> = RPCSubscriber::new();
    let mut last: Option<u64> = None;
    for _ in 0..5 {
        let (id, _envelope) = table.prepare_request("method", no_params());
        if let Some(prev) = last {
            assert!(id > prev);
        }
        last = Some(id);
    }
}

#[test]
fn prepare_request_builds_versioned_envelope() {
    let mut table: RPCSubscriber<u64> = RPCSubscriber::new();
    let params = Params::Array(vec![Value::from(1u64), Value::from(2u64)]);
    let (id, envelope) = table.prepare_request("sum", params);
    assert_eq!(id, 0);
    assert_eq!(
        envelope,
        "{\"jsonrpc\":\"2.0\",\"method\":\"sum\",\"params\":[1,2],\"id\":0}"
    );
}

#[test]
fn get_response_success_with_numeric_id() {
    let text = "{\"jsonrpc\":\"2.0\",\"result\":{\"ok\":true},\"id\":3}".to_string();
    let response = RPCSubscriber::<u64>::get_response(text).unwrap();
    assert_eq!(response.id, Some(3));
    assert_eq!(response.result, "{\"ok\":true}");
}

#[test]
fn get_response_failure_carries_message_and_id() {
    let text =
        "{\"jsonrpc\":\"2.0\",\"error\":{\"code\":-32601,\"message\":\"no such method\"},\"id\":4}"
            .to_string();
    let err = RPCSubscriber::<u64>::get_response(text).unwrap_err();
    assert_eq!(err.id, Some(4));
    assert_eq!(err.msg, "no such method");
}

#[test]
fn string_id_resolves_like_numeric_id() {
    let with_text_id =
        RPCSubscriber::<u64>::get_response("{\"jsonrpc\":\"2.0\",\"result\":1,\"id\":\"42\"}".to_string())
            .unwrap();
    let with_numeric_id =
        RPCSubscriber::<u64>::get_response("{\"jsonrpc\":\"2.0\",\"result\":1,\"id\":42}".to_string())
            .unwrap();
    assert_eq!(with_text_id, with_numeric_id);
    assert_eq!(with_text_id.id, Some(42));
}

#[test]
fn malformed_string_id_fails_the_frame() {
    let err =
        RPCSubscriber::<u64>::get_response("{\"jsonrpc\":\"2.0\",\"result\":1,\"id\":\"abc\"}".to_string())
            .unwrap_err();
    assert_eq!(err.id, None);
    assert_eq!(err.msg, "malformed response id");
}

#[test]
fn null_id_is_a_notification() {
    let response =
        RPCSubscriber::<u64>::get_response("{\"jsonrpc\":\"2.0\",\"result\":\"ok\",\"id\":null}".to_string())
            .unwrap();
    assert_eq!(response.id, None);
}

#[test]
fn batch_envelopes_are_rejected() {
    let err = RPCSubscriber::<u64>::get_response(
        "[{\"jsonrpc\":\"2.0\",\"result\":1,\"id\":1}]".to_string(),
    )
    .unwrap_err();
    assert_eq!(err.id, None);
    assert_eq!(err.msg, "this is batch response");
}

#[test]
fn unparsable_text_is_an_error_without_id() {
    let err = RPCSubscriber::<u64>::get_response("not a response".to_string()).unwrap_err();
    assert_eq!(err.id, None);
    assert!(!err.msg.is_empty());
}

#[test]
fn handlers_are_stored_and_looked_up_by_id() {
    let mut table: RPCSubscriber<u64> = RPCSubscriber::new();
    table.set_handler(3, 30);
    table.set_error_handler(3, 31);
    assert_eq!(table.get_handler(3), Some(&30));
    assert_eq!(table.get_error_handler(3), Some(&31));
    assert_eq!(table.get_handler(4), None);
    assert_eq!(table.get_error_handler(4), None);
    table.set_handler(3, 32);
    assert_eq!(table.get_handler(3), Some(&32));
}

#[test]
fn resolve_takes_the_pair_out() {
    let mut table: RPCSubscriber<u64> = RPCSubscriber::new();
    table.set_handler(5, 50);
    table.set_error_handler(5, 51);
    assert_eq!(table.resolve(5), (Some(50), Some(51)));
    assert_eq!(table.get_handler(5), None);
    assert_eq!(table.get_error_handler(5), None);
    assert_eq!(table.resolve(5), (None, None));
}

#[test]
fn parse_u64_reads_plain_digit_strings() {
    assert_eq!(parse_u64("42"), Some(42));
    assert_eq!(parse_u64("0"), Some(0));
    assert_eq!(parse_u64("0042"), Some(42));
    assert_eq!(parse_u64("18446744073709551615"), Some(u64::MAX));
}

#[test]
fn parse_u64_rejects_everything_else() {
    assert_eq!(parse_u64(""), None);
    assert_eq!(parse_u64("abc"), None);
    assert_eq!(parse_u64("4a"), None);
    assert_eq!(parse_u64("+42"), None);
    assert_eq!(parse_u64("-1"), None);
    assert_eq!(parse_u64("18446744073709551616"), None);
}
