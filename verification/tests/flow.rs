use jsonrpc_core::Params;
use ws_client::factory::WsFactory;
use ws_client::lifecycle::{
    Action, RouteOutcome, RpcDispatch, WsCore, HEARTBEAT_INTERVAL_MS, RETRY_DELAY_MS,
};
use ws_client::{ReadyState, WsMessage, Websocket};

type Client = Websocket<u64, u64>;

fn client() -> Client {
    Websocket::new(WsCore::new(WsFactory::new("ws://example/feed".to_string())))
}

#[test]
fn open_sends_one_ping_then_subscribes_in_registration_order() {
    let mut ws = client();
    ws.add_listener("trades".to_string(), 1);
    ws.add_listener("orders".to_string(), 2);
    let actions = ws.core.transport_opened();
    assert_eq!(
        actions,
        vec![
            Action::NotifyOpen,
            Action::SendText { text: "{\"ping\":\"ping\"}".to_string() },
            Action::StartHeartbeat { interval_ms: HEARTBEAT_INTERVAL_MS },
            Action::SendText { text: "{\"subscribe\":\"trades\"}".to_string() },
            Action::SendText { text: "{\"subscribe\":\"orders\"}".to_string() },
            Action::DispatchEvent { topic: "open".to_string(), data: "open".to_string() },
        ]
    );
}

#[test]
fn second_open_keeps_exactly_one_heartbeat_task() {
    let mut ws = client();
    let _ = ws.core.transport_opened();
    assert_eq!(ws.core.heartbeat_started(5), None);
    let actions = ws.core.transport_opened();
    assert_eq!(actions[0], Action::CancelInterval { task: 5 });
    let starts = actions
        .iter()
        .filter(|a| matches!(a, Action::StartHeartbeat { .. }))
        .count();
    assert_eq!(starts, 1);
    assert_eq!(ws.core.pinger.get_interval_id(), None);
    assert_eq!(ws.core.heartbeat_started(6), None);
    assert_eq!(ws.core.pinger.get_interval_id(), Some(6));
}

#[test]
fn heartbeat_firing_sends_one_ping_while_active() {
    let mut ws = client();
    let _ = ws.core.transport_opened();
    ws.core.heartbeat_started(4);
    assert_eq!(
        ws.core.heartbeat_fired(),
        vec![Action::SendText { text: "{\"ping\":\"ping\"}".to_string() }]
    );
    // After the close cancels the task, a late firing sends nothing.
    let _ = ws.core.transport_closed();
    assert!(ws.core.heartbeat_fired().is_empty());
}

#[test]
fn close_event_cancels_the_heartbeat_task() {
    let mut ws = client();
    let _ = ws.core.transport_opened();
    ws.core.heartbeat_started(7);
    let actions = ws.core.transport_closed();
    assert!(actions.contains(&Action::CancelInterval { task: 7 }));
    assert_eq!(ws.core.pinger.get_interval_id(), None);
    // No heartbeat frame goes out with, or after, the close handling.
    assert!(!actions
        .iter()
        .any(|a| matches!(a, Action::SendText { .. } | Action::StartHeartbeat { .. })));
}

#[test]
fn explicit_close_passes_code_and_reason_through() {
    let mut ws = client();
    let actions = ws.close(Some(4000), Some("bye".to_string()));
    assert_eq!(
        actions,
        vec![Action::CloseTransport { code: 4000, reason: Some("bye".to_string()) }]
    );
}

#[test]
fn close_without_code_defaults_to_normal_closure() {
    let mut ws = client();
    let actions = ws.close(None, None);
    assert_eq!(actions, vec![Action::CloseTransport { code: 1000, reason: None }]);
}

#[test]
fn dropped_connection_schedules_exactly_one_retry() {
    let mut ws = client();
    let _ = ws.core.transport_opened();
    let actions = ws.core.transport_closed();
    let retries = actions
        .iter()
        .filter(|a| matches!(a, Action::ScheduleRetry { .. }))
        .count();
    assert_eq!(retries, 1);
    assert!(actions.contains(&Action::ScheduleRetry { delay_ms: RETRY_DELAY_MS }));
}

#[test]
fn reconnect_cycle_returns_policy_to_idle() {
    let mut ws = client();
    let _ = ws.core.transport_opened();
    let _ = ws.core.transport_closed();
    ws.core.set_retry_cb(9);
    assert!(ws.core.reconnect.as_ref().unwrap().is_reconnecting());
    let retry_actions = ws.core.retry_fired(true);
    assert!(retry_actions.is_empty());
    let _ = ws.core.transport_opened();
    assert!(!ws.core.reconnect.as_ref().unwrap().is_reconnecting());
}

#[test]
fn failed_retry_reschedules_with_the_same_delay() {
    let mut ws = client();
    let _ = ws.core.transport_closed();
    ws.core.set_retry_cb(9);
    let actions = ws.core.retry_fired(false);
    assert_eq!(actions, vec![Action::ScheduleRetry { delay_ms: RETRY_DELAY_MS }]);
}

#[test]
fn explicit_close_cancels_pending_retry_and_suppresses_new_ones() {
    let mut ws = client();
    let _ = ws.core.transport_closed();
    ws.core.set_retry_cb(9);
    let actions = ws.close(Some(1000), None);
    assert_eq!(
        actions,
        vec![
            Action::CancelRetry { task: 9 },
            Action::CloseTransport { code: 1000, reason: None },
        ]
    );
    // The transport's own close event after an explicit close schedules nothing.
    let late = ws.core.transport_closed();
    assert!(!late.iter().any(|a| matches!(a, Action::ScheduleRetry { .. })));
}

#[test]
fn no_reconnect_disables_retries() {
    let factory = Websocket::<u64, u64>::connect("ws://example".to_string()).no_reconnect();
    let mut core: WsCore<u64, u64> = WsCore::new(factory);
    let actions = core.transport_closed();
    assert!(!actions.iter().any(|a| matches!(a, Action::ScheduleRetry { .. })));
}

#[test]
fn event_frame_routes_to_its_topic() {
    let mut ws = client();
    let outcome = ws.core.process_text_message("{\"trades\":{\"p\":1}}".to_string());
    assert_eq!(
        outcome,
        RouteOutcome::Event { topic: "trades".to_string(), data: "{\"p\":1}".to_string() }
    );
}

#[test]
fn frames_that_are_no_json_object_raise_a_local_error() {
    let mut ws = client();
    assert_eq!(
        ws.core.process_text_message("[1,2]".to_string()),
        RouteOutcome::LocalError { message: "can't deserialize".to_string() }
    );
    assert_eq!(
        ws.core.process_text_message("{broken".to_string()),
        RouteOutcome::LocalError { message: "can't deserialize".to_string() }
    );
}

#[test]
fn multi_key_frames_without_rpc_marker_are_rejected() {
    let mut ws = client();
    assert_eq!(
        ws.core.process_text_message("{\"a\":1,\"b\":2}".to_string()),
        RouteOutcome::LocalError { message: "expected a single-key object".to_string() }
    );
}

#[test]
fn binary_frames_route_like_their_text() {
    let mut ws = client();
    let bytes = "{\"orders\":[]}".as_bytes().to_vec();
    assert_eq!(
        ws.core.process_array_message(bytes),
        RouteOutcome::Event { topic: "orders".to_string(), data: "[]".to_string() }
    );
    let garbage = vec![0xff, 0xfe, 0x00];
    assert!(matches!(
        ws.core.process_array_message(garbage),
        RouteOutcome::LocalError { .. }
    ));
}

#[test]
fn round_trip_success_invokes_the_registered_callback_once() {
    let mut ws = client();
    let envelope = ws
        .prepare_rpc_request("sum".to_string(), Params::None, 100, 101)
        .unwrap();
    assert!(envelope.contains("\"id\":0"));
    let response = "{\"jsonrpc\":\"2.0\",\"result\":{\"v\":7},\"id\":0}".to_string();
    let outcome = ws.core.process_text_message(response.clone());
    assert_eq!(
        outcome,
        RouteOutcome::Rpc {
            dispatch: RpcDispatch::Invoke {
                id: 0,
                handler: 100,
                argument: "{\"v\":7}".to_string(),
            }
        }
    );
    // The entry left the table with the dispatch: a replay selects nothing.
    let replay = ws.core.process_text_message(response);
    assert_eq!(replay, RouteOutcome::Rpc { dispatch: RpcDispatch::NoHandler { id: 0 } });
}

#[test]
fn round_trip_failure_invokes_the_error_callback() {
    let mut ws = client();
    let _ = ws
        .prepare_rpc_request("sum".to_string(), Params::None, 100, 101)
        .unwrap();
    let response =
        "{\"jsonrpc\":\"2.0\",\"error\":{\"code\":-1,\"message\":\"boom\"},\"id\":0}".to_string();
    let outcome = ws.core.process_text_message(response);
    assert_eq!(
        outcome,
        RouteOutcome::Rpc {
            dispatch: RpcDispatch::Invoke { id: 0, handler: 101, argument: "boom".to_string() }
        }
    );
}

#[test]
fn null_id_response_invokes_no_callback() {
    let mut ws = client();
    let _ = ws
        .prepare_rpc_request("sum".to_string(), Params::None, 100, 101)
        .unwrap();
    let outcome =
        ws.core.process_text_message("{\"jsonrpc\":\"2.0\",\"result\":\"ok\",\"id\":null}".to_string());
    assert_eq!(outcome, RouteOutcome::Rpc { dispatch: RpcDispatch::Notification });
    // The registered pair is still there for the real response.
    assert_eq!(ws.core.rpc_subscriber.get_handler(0), Some(&100));
}

#[test]
fn string_id_response_resolves_like_numeric() {
    let mut ws = client();
    let _ = ws
        .prepare_rpc_request("sum".to_string(), Params::None, 100, 101)
        .unwrap();
    let outcome =
        ws.core.process_text_message("{\"jsonrpc\":\"2.0\",\"result\":1,\"id\":\"0\"}".to_string());
    assert_eq!(
        outcome,
        RouteOutcome::Rpc {
            dispatch: RpcDispatch::Invoke { id: 0, handler: 100, argument: "1".to_string() }
        }
    );
}

#[test]
fn malformed_string_id_fails_without_crashing() {
    let mut ws = client();
    let outcome =
        ws.core.process_text_message("{\"jsonrpc\":\"2.0\",\"result\":1,\"id\":\"abc\"}".to_string());
    assert_eq!(
        outcome,
        RouteOutcome::Rpc {
            dispatch: RpcDispatch::Failed { message: "malformed response id".to_string() }
        }
    );
}

#[test]
fn request_ids_survive_a_reconnect() {
    let mut ws = client();
    let _ = ws.prepare_rpc_request("a".to_string(), Params::None, 1, 2).unwrap();
    let _ = ws.core.transport_closed();
    ws.core.set_retry_cb(3);
    let _ = ws.core.retry_fired(true);
    let _ = ws.core.transport_opened();
    let second = ws.prepare_rpc_request("b".to_string(), Params::None, 1, 2).unwrap();
    assert!(second.contains("\"id\":1"));
}

#[test]
fn send_wraps_messages_in_transmit_actions() {
    let ws = client();
    assert_eq!(
        ws.send(WsMessage::Text("hi".to_string())),
        Action::SendText { text: "hi".to_string() }
    );
    assert_eq!(
        ws.send(WsMessage::Binary(vec![1, 2, 3])),
        Action::SendBinary { bytes: vec![1, 2, 3] }
    );
}

#[test]
fn send_text_rpc_transmits_the_envelope() {
    let mut ws = client();
    let action = ws.send_text_rpc("ping".to_string(), Params::None, 1, 2).unwrap();
    assert_eq!(
        action,
        Action::SendText {
            text: "{\"jsonrpc\":\"2.0\",\"method\":\"ping\",\"params\":null,\"id\":0}".to_string()
        }
    );
}

#[test]
fn send_binary_rpc_transmits_the_envelope_bytes() {
    let mut ws = client();
    let action = ws.send_binary_rpc("ping".to_string(), Params::None, 1, 2).unwrap();
    assert_eq!(
        action,
        Action::SendBinary {
            bytes: "{\"jsonrpc\":\"2.0\",\"method\":\"ping\",\"params\":null,\"id\":0}"
                .as_bytes()
                .to_vec()
        }
    );
}

#[test]
fn transport_errors_surface_the_description() {
    let ws = client();
    let actions = ws.core.transport_error(Some("broken pipe".to_string()));
    assert_eq!(
        actions,
        vec![
            Action::DispatchEvent {
                topic: "error".to_string(),
                data: "broken pipe".to_string()
            },
            Action::NotifyError { message: Some("broken pipe".to_string()) },
        ]
    );
    let silent = ws.core.transport_error(None);
    assert_eq!(silent, vec![Action::NotifyError { message: None }]);
}

#[test]
fn ready_state_decodes_the_transport_codes() {
    assert_eq!(ReadyState::from(0), ReadyState::Connecting);
    assert_eq!(ReadyState::from(1), ReadyState::Open);
    assert_eq!(ReadyState::from(2), ReadyState::Closing);
    assert_eq!(ReadyState::from(3), ReadyState::Closed);
    assert_eq!(ReadyState::from(9), ReadyState::Other(9));
}
