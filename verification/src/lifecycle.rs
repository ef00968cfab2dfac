//! The connection-lifecycle core.
//!
//! [`WsCore`] owns the event router, the RPC correlation table, the heartbeat
//! state and the reconnect policy. Every transport event — opened, message,
//! error, closed, a retry timer firing — is a method from the core's state to
//! a new state and a list of [`Action`]s; the host loop performs the actions
//! (sending frames, scheduling and cancelling timers, invoking user
//! callbacks) in order. The core itself never touches the transport, so each
//! decision carries an exact contract.

use std::collections::BTreeMap;
use vstd::prelude::*;
use vstd::string::{StrSliceExecFns, StringExecFns};
use vstd::utf8::{decode_utf8, valid_utf8};

use crate::emitter::Emitter;
use crate::factory::{ReconnectConfig, WsFactory};
use crate::simple_rpc::{
    decoded_response, response_outcome, RPCResponseView, RPCSubscriber, RpcErrorView,
};

verus! {

/// The heartbeat repeats at this fixed period, in milliseconds.
pub const HEARTBEAT_INTERVAL_MS: u32 = 10000;

/// A dropped connection is retried after this fixed delay, in milliseconds.
pub const RETRY_DELAY_MS: u32 = 1000;

/// One instruction to the host loop. The core decides; the host performs
/// them in list order.
#[derive(Clone, Debug, PartialEq)]
pub enum Action {
    /// Transmit a text frame on the current transport.
    SendText { text: String },
    /// Transmit a binary frame on the current transport.
    SendBinary { bytes: Vec<u8> },
    /// Schedule the repeating heartbeat timer; the host reports the task
    /// handle back through [`WsCore::heartbeat_started`].
    StartHeartbeat { interval_ms: u32 },
    /// Cancel the repeating timer task with this handle.
    CancelInterval { task: u64 },
    /// Schedule a one-shot reconnect attempt; the host reports the task
    /// handle back through [`WsCore::set_retry_cb`] and, when the task
    /// fires, calls [`WsCore::retry_fired`].
    ScheduleRetry { delay_ms: u32 },
    /// Cancel the pending one-shot reconnect task with this handle.
    CancelRetry { task: u64 },
    /// Ask the transport to close with this code and optional reason.
    CloseTransport { code: u16, reason: Option<String> },
    /// Invoke the user-supplied open callback, if one is registered.
    NotifyOpen,
    /// Invoke the user-supplied error callback, if one is registered.
    NotifyError { message: Option<String> },
    /// Invoke the user-supplied close callback, if one is registered.
    NotifyClose,
    /// Route `data` to the event callback registered under `topic` (the
    /// router's [`Emitter::emit`] selects the callback, if any).
    DispatchEvent { topic: String, data: String },
}

/// The abstract value of an [`Action`].
pub ghost enum ActionView {
    SendText { text: Seq<char> },
    SendBinary { bytes: Seq<u8> },
    StartHeartbeat { interval_ms: u32 },
    CancelInterval { task: u64 },
    ScheduleRetry { delay_ms: u32 },
    CancelRetry { task: u64 },
    CloseTransport { code: u16, reason: Option<Seq<char>> },
    NotifyOpen,
    NotifyError { message: Option<Seq<char>> },
    NotifyClose,
    DispatchEvent { topic: Seq<char>, data: Seq<char> },
}

impl View for Action {
    type V = ActionView;

    open spec fn view(&self) -> ActionView {
        match self {
            Action::SendText { text } => ActionView::SendText { text: text@ },
            Action::SendBinary { bytes } => ActionView::SendBinary { bytes: bytes@ },
            Action::StartHeartbeat { interval_ms } => ActionView::StartHeartbeat {
                interval_ms: *interval_ms,
            },
            Action::CancelInterval { task } => ActionView::CancelInterval { task: *task },
            Action::ScheduleRetry { delay_ms } => ActionView::ScheduleRetry {
                delay_ms: *delay_ms,
            },
            Action::CancelRetry { task } => ActionView::CancelRetry { task: *task },
            Action::CloseTransport { code, reason } => ActionView::CloseTransport {
                code: *code,
                reason: match reason {
                    Some(s) => Some(s@),
                    None => None,
                },
            },
            Action::NotifyOpen => ActionView::NotifyOpen,
            Action::NotifyError { message } => ActionView::NotifyError {
                message: match message {
                    Some(s) => Some(s@),
                    None => None,
                },
            },
            Action::NotifyClose => ActionView::NotifyClose,
            Action::DispatchEvent { topic, data } => ActionView::DispatchEvent {
                topic: topic@,
                data: data@,
            },
        }
    }
}

/// The abstract values of a list of actions.
pub open spec fn action_views(s: Seq<Action>) -> Seq<ActionView> {
    s.map_values(|a: Action| a@)
}

/// The heartbeat frame's text.
pub open spec fn ping_frame_text() -> Seq<char> {
    "{\"ping\":\"ping\"}"@
}

/// The heartbeat frame, `{"ping":"ping"}`.
pub fn ping_frame() -> (r: String)
    ensures
        r@ == ping_frame_text(),
{
    String::from_str("{\"ping\":\"ping\"}")
}

/// The subscribe frame announcing interest in a topic: the JSON text of the
/// one-entry object `{"subscribe": topic}`. Encoding is a function of the
/// topic alone, so the frame bears a name.
pub uninterp spec fn subscribe_frame_of(topic: Seq<char>) -> Seq<char>;

/// Relies on `serde_json::to_string` applied to a one-entry string map to
/// build `{"subscribe": topic}`, escaping the topic as JSON requires; the
/// text depends on the topic alone.
#[verifier::external_body]
fn encode_subscribe(topic: &str) -> (r: String)
    ensures
        r@ == subscribe_frame_of(topic@),
{
    let mut entry = BTreeMap::new();
    entry.insert("subscribe", topic);
    match serde_json::to_string(&entry) {
        Ok(text) => text,
        Err(_) => String::new(),
    }
}

/// What parsing a frame as a JSON object yields: the key/value-text pairs in
/// the object's (deterministic) order, or nothing when the text is not a
/// JSON object. Parsing is a function of the text alone, so the outcome
/// bears a name.
pub uninterp spec fn json_object_of(s: Seq<char>) -> Option<Seq<(Seq<char>, Seq<char>)>>;

/// Relies on `serde_json::from_str` to parse the text as a JSON object
/// (any other JSON document, and malformed text, is rejected) and on
/// `serde_json::Value`'s `to_string` for each value's canonical JSON text.
/// Keys come in the parsed map's order, which for `serde_json`'s default map
/// is sorted by key; the whole outcome depends on the text alone.
#[verifier::external_body]
fn json_entries(text: &str) -> (r: Option<Vec<(String, String)>>)
    ensures
        match r {
            Some(entries) => json_object_of(text@) == Some(
                Seq::new(entries@.len(), |i: int| (entries@[i].0@, entries@[i].1@)),
            ),
            None => json_object_of(text@) is None,
        },
{
    match serde_json::from_str::<serde_json::Map<String, serde_json::Value>>(text) {
        Ok(object) => Some(object.into_iter().map(|(k, v)| (k, v.to_string())).collect()),
        Err(_) => None,
    }
}

/// Relies on std's `str::from_utf8`: it succeeds exactly on valid UTF-8 and
/// returns the text those bytes spell; the message of a failure comes from
/// the error's std rendering.
#[verifier::external_body]
fn bytes_to_text(bytes: &Vec<u8>) -> (r: Result<String, String>)
    ensures
        match r {
            Ok(s) => valid_utf8(bytes@) && s@ == decode_utf8(bytes@),
            Err(_) => !valid_utf8(bytes@),
        },
{
    match std::str::from_utf8(bytes.as_slice()) {
        Ok(s) => Ok(s.to_string()),
        Err(e) => Err(e.to_string()),
    }
}

/// The heartbeat controller's state: the handle of the repeating keepalive
/// task, while one is active. It holds at most one task; starting a new one
/// hands the previous handle back so it is always cancelled.
pub struct Pinger {
    interval_id: Option<u64>,
}

impl Pinger {
    /// The active repeating task, if any.
    pub closed spec fn task(&self) -> Option<u64> {
        self.interval_id
    }

    pub fn new() -> (r: Self)
        ensures
            r.task() is None,
    {
        Pinger { interval_id: None }
    }

    /// Records the repeating task the host has scheduled and returns the
    /// previously active one, which the caller must cancel: at most one
    /// heartbeat runs at a time.
    pub fn ping(&mut self, interval_id: u64) -> (r: Option<u64>)
        ensures
            final(self).task() == Some(interval_id),
            r == old(self).task(),
    {
        let prev = self.interval_id;
        self.interval_id = Some(interval_id);
        prev
    }

    /// Stops tracking the active task, handing its handle back for the
    /// caller to cancel.
    pub fn close_ping(&mut self) -> (r: Option<u64>)
        ensures
            final(self).task() is None,
            r == old(self).task(),
    {
        let task = self.interval_id;
        self.interval_id = None;
        task
    }

    /// The active repeating task, if any.
    pub fn get_interval_id(&self) -> (r: Option<u64>)
        ensures
            r == self.task(),
    {
        self.interval_id
    }
}

/// The actions of a successful open, in order: cancel a leftover heartbeat
/// task (none may survive alongside the new one), notify the user, send one
/// keepalive frame immediately and start the repeating heartbeat, re-announce
/// every registered topic in registration order, and finally raise the local
/// `open` event.
pub open spec fn open_action_views(prev_heartbeat: Option<u64>, topics: Seq<Seq<char>>) -> Seq<
    ActionView,
> {
    (match prev_heartbeat {
        Some(task) => seq![ActionView::CancelInterval { task }],
        None => Seq::<ActionView>::empty(),
    }) + seq![
        ActionView::NotifyOpen,
        ActionView::SendText { text: ping_frame_text() },
        ActionView::StartHeartbeat { interval_ms: HEARTBEAT_INTERVAL_MS },
    ] + Seq::new(topics.len(), |i: int| ActionView::SendText { text: subscribe_frame_of(topics[i]) })
        + seq![ActionView::DispatchEvent { topic: "open"@, data: "open"@ }]
}

/// The lifecycle core: one per client, owning the router, the correlation
/// table, the heartbeat state and the reconnect policy. `C` is the host's
/// event-callback type, `R` its RPC-callback type.
pub struct WsCore<C, R> {
    pub url: String,
    pub is_closing: bool,
    pub reconnect: Option<ReconnectConfig>,
    pub pinger: Pinger,
    pub emitter: Emitter<C>,
    pub rpc_subscriber: RPCSubscriber<R>,
}

impl<C, R> WsCore<C, R> {
    /// The core's internal invariant: the router's registry is well-formed.
    pub open spec fn wf(&self) -> bool {
        self.emitter.wf()
    }

    pub fn new(factory: WsFactory) -> (r: Self)
        ensures
            r.wf(),
            r.url@ == factory.url@,
            r.reconnect == factory.reconnect,
            !r.is_closing,
            r.pinger.task() is None,
            r.emitter.topics() == Seq::<Seq<char>>::empty(),
            r.rpc_subscriber.next_id() == 0,
            r.rpc_subscriber.handlers() == Map::<u64, R>::empty(),
            r.rpc_subscriber.error_handlers() == Map::<u64, R>::empty(),
    {
        WsCore {
            url: factory.url,
            is_closing: false,
            reconnect: factory.reconnect,
            pinger: Pinger::new(),
            emitter: Emitter::new(),
            rpc_subscriber: RPCSubscriber::new(),
        }
    }

    /// The transport reports it has opened (first connection and every
    /// reconnect alike): the reconnect policy returns to idle, and the host
    /// is instructed as [`open_action_views`] lays out. The correlation
    /// table — its id counter included — and the topic registry survive
    /// untouched.
    pub fn transport_opened(&mut self) -> (r: Vec<Action>)
        requires
            old(self).wf(),
        ensures
            final(self).wf(),
            action_views(r@) == open_action_views(
                old(self).pinger.task(),
                old(self).emitter.topics(),
            ),
            final(self).pinger.task() is None,
            old(self).reconnect is Some ==> (final(self).reconnect matches Some(c)
                && !c.spec_is_reconnecting() && c.pending_retry() is None),
            old(self).reconnect is None ==> final(self).reconnect is None,
            final(self).emitter == old(self).emitter,
            final(self).rpc_subscriber == old(self).rpc_subscriber,
            final(self).is_closing == old(self).is_closing,
            final(self).url == old(self).url,
    {
        let ghost expected = open_action_views(
            old(self).pinger.task(),
            old(self).emitter.topics(),
        );
        let mut actions: Vec<Action> = Vec::new();
        match self.pinger.close_ping() {
            Some(task) => actions.push(Action::CancelInterval { task }),
            None => (),
        }
        match &mut self.reconnect {
            Some(cfg) => cfg.reset(),
            None => (),
        }
        actions.push(Action::NotifyOpen);
        actions.push(Action::SendText { text: ping_frame() });
        actions.push(Action::StartHeartbeat { interval_ms: HEARTBEAT_INTERVAL_MS });
        let ghost base = actions@.len() as int;
        proof {
            assert(action_views(actions@) =~= expected.subrange(0, base));
        }
        let names = self.emitter.get_handlers_names();
        let n = names.len();
        let mut i: usize = 0;
        while i < n
            invariant
                n == names@.len(),
                i <= n,
                names@.len() == old(self).emitter.topics().len(),
                forall|j: int| 0 <= j < n ==> names@[j]@ == old(self).emitter.topics()[j],
                base + n + 1 == expected.len(),
                actions@.len() == base + i,
                action_views(actions@) =~= expected.subrange(0, base + i),
                expected == open_action_views(
                    old(self).pinger.task(),
                    old(self).emitter.topics(),
                ),
            decreases n - i,
        {
            let frame = encode_subscribe(names[i].as_str());
            proof {
                assert(expected[base + i] == ActionView::SendText {
                    text: subscribe_frame_of(old(self).emitter.topics()[i as int]),
                });
            }
            actions.push(Action::SendText { text: frame });
            proof {
                assert(action_views(actions@) =~= expected.subrange(0, base + i + 1));
            }
            i += 1;
        }
        let ghost before = actions@;
        actions.push(
            Action::DispatchEvent {
                topic: String::from_str("open"),
                data: String::from_str("open"),
            },
        );
        proof {
            assert(expected[base + n] == ActionView::DispatchEvent {
                topic: "open"@,
                data: "open"@,
            });
            assert(action_views(actions@)[base + n] == actions@[base + n]@);
            assert forall|k: int| 0 <= k < expected.len() implies action_views(actions@)[k]
                == expected[k] by {
                if k < base + n {
                    assert(action_views(actions@)[k] == action_views(before)[k]);
                    assert(expected.subrange(0, base + n)[k] == expected[k]);
                }
            }
            assert(action_views(actions@) =~= expected);
        }
        actions
    }

    /// The host reports that it scheduled the repeating heartbeat task: the
    /// previously active one, if any, is handed back to be cancelled, so at
    /// most one heartbeat ever runs.
    pub fn heartbeat_started(&mut self, task: u64) -> (r: Option<u64>)
        ensures
            final(self).pinger.task() == Some(task),
            r == old(self).pinger.task(),
            final(self).emitter == old(self).emitter,
            final(self).rpc_subscriber == old(self).rpc_subscriber,
            final(self).reconnect == old(self).reconnect,
            final(self).is_closing == old(self).is_closing,
            final(self).url == old(self).url,
    {
        self.pinger.ping(task)
    }

    /// The repeating heartbeat task fired: send one keepalive frame on the
    /// current transport. A firing that races a close (no task is active any
    /// more) sends nothing.
    pub fn heartbeat_fired(&self) -> (r: Vec<Action>)
        ensures
            self.pinger.task() is Some ==> action_views(r@) == seq![
                ActionView::SendText { text: ping_frame_text() },
            ],
            self.pinger.task() is None ==> action_views(r@) == Seq::<ActionView>::empty(),
    {
        let mut actions: Vec<Action> = Vec::new();
        match self.pinger.get_interval_id() {
            Some(_task) => {
                actions.push(Action::SendText { text: ping_frame() });
                proof {
                    assert(action_views(actions@) =~= seq![
                        ActionView::SendText { text: ping_frame_text() },
                    ]);
                }
            },
            None => {
                proof {
                    assert(action_views(actions@) =~= Seq::<ActionView>::empty());
                }
            },
        }
        actions
    }

    /// The transport reports an error: the local `error` event carries the
    /// description when one is available, then the user's error callback is
    /// invoked. The core's state is untouched.
    pub fn transport_error(&self, message: Option<String>) -> (r: Vec<Action>)
        ensures
            action_views(r@) == error_action_views(
                match message {
                    Some(m) => Some(m@),
                    None => None,
                },
            ),
    {
        let ghost expected = error_action_views(
            match message {
                Some(ref m) => Some(m@),
                None => None,
            },
        );
        let mut actions: Vec<Action> = Vec::new();
        match message {
            Some(m) => {
                actions.push(
                    Action::DispatchEvent { topic: String::from_str("error"), data: m.clone() },
                );
                actions.push(Action::NotifyError { message: Some(m) });
            },
            None => {
                actions.push(Action::NotifyError { message: None });
            },
        }
        proof {
            assert(action_views(actions@) =~= expected);
        }
        actions
    }

    /// The transport reports it has closed: a retry is scheduled only while
    /// reconnection is enabled and no explicit close was requested, the local
    /// `close` event is raised, the heartbeat task is cancelled, and the
    /// user's close callback is invoked last. The correlation table and the
    /// topic registry survive for the next connection.
    pub fn transport_closed(&mut self) -> (r: Vec<Action>)
        requires
            old(self).wf(),
        ensures
            final(self).wf(),
            action_views(r@) == closed_action_views(
                old(self).reconnect is Some && !old(self).is_closing,
                old(self).pinger.task(),
            ),
            final(self).pinger.task() is None,
            final(self).emitter == old(self).emitter,
            final(self).rpc_subscriber == old(self).rpc_subscriber,
            final(self).reconnect == old(self).reconnect,
            final(self).is_closing == old(self).is_closing,
            final(self).url == old(self).url,
    {
        let ghost expected = closed_action_views(
            self.reconnect.is_some() && !self.is_closing,
            self.pinger.task(),
        );
        let mut actions: Vec<Action> = Vec::new();
        if self.reconnect.is_some() && !self.is_closing {
            actions.push(Action::ScheduleRetry { delay_ms: RETRY_DELAY_MS });
        }
        actions.push(
            Action::DispatchEvent {
                topic: String::from_str("close"),
                data: String::from_str("close"),
            },
        );
        match self.pinger.close_ping() {
            Some(task) => actions.push(Action::CancelInterval { task }),
            None => (),
        }
        actions.push(Action::NotifyClose);
        proof {
            assert(action_views(actions@) =~= expected);
        }
        actions
    }

    /// The host reports that it scheduled the retry task the last close
    /// asked for: the policy records the handle and is now retrying. Without
    /// a reconnect policy there is nothing to record.
    pub fn set_retry_cb(&mut self, cb: u64)
        ensures
            old(self).reconnect is Some ==> (final(self).reconnect matches Some(c)
                && c.spec_is_reconnecting() && c.pending_retry() == Some(cb)),
            old(self).reconnect is None ==> final(self).reconnect is None,
            final(self).pinger == old(self).pinger,
            final(self).emitter == old(self).emitter,
            final(self).rpc_subscriber == old(self).rpc_subscriber,
            final(self).is_closing == old(self).is_closing,
            final(self).url == old(self).url,
    {
        match &mut self.reconnect {
            Some(cfg) => cfg.set_retry_cb(cb),
            None => (),
        }
    }

    /// The scheduled retry fired and the host attempted to build a fresh
    /// transport at the configured address. On success the host wires the
    /// new transport and the coming open event finishes the reconnect; on
    /// failure one more retry is scheduled, the unbounded fixed-delay loop
    /// this client wants. Either way the fired task's handle is forgotten.
    pub fn retry_fired(&mut self, construct_ok: bool) -> (r: Vec<Action>)
        requires
            old(self).wf(),
        ensures
            final(self).wf(),
            construct_ok ==> action_views(r@) == Seq::<ActionView>::empty(),
            construct_ok ==> final(self).pinger.task() is None,
            !construct_ok ==> action_views(r@) == seq![
                ActionView::ScheduleRetry { delay_ms: RETRY_DELAY_MS },
            ],
            !construct_ok ==> final(self).pinger == old(self).pinger,
            old(self).reconnect matches Some(c0) ==> (final(self).reconnect matches Some(c)
                && c.pending_retry() is None && c.spec_is_reconnecting()
                == c0.spec_is_reconnecting()),
            old(self).reconnect is None ==> final(self).reconnect is None,
            final(self).emitter == old(self).emitter,
            final(self).rpc_subscriber == old(self).rpc_subscriber,
            final(self).is_closing == old(self).is_closing,
            final(self).url == old(self).url,
    {
        match &mut self.reconnect {
            Some(cfg) => {
                let _fired = cfg.take_retry_cb();
            },
            None => (),
        }
        let mut actions: Vec<Action> = Vec::new();
        if construct_ok {
            let _stale = self.pinger.close_ping();
        } else {
            actions.push(Action::ScheduleRetry { delay_ms: RETRY_DELAY_MS });
        }
        proof {
            if construct_ok {
                assert(action_views(actions@) =~= Seq::<ActionView>::empty());
            } else {
                assert(action_views(actions@) =~= seq![
                    ActionView::ScheduleRetry { delay_ms: RETRY_DELAY_MS },
                ]);
            }
        }
        actions
    }

    /// An explicit close: the closing flag suppresses any reconnect the
    /// coming close event might schedule, a pending retry is cancelled, and
    /// the transport is asked to close with exactly the given code and
    /// reason.
    pub fn close(&mut self, code: u16, reason: Option<String>) -> (r: Vec<Action>)
        requires
            old(self).wf(),
        ensures
            final(self).wf(),
            action_views(r@) == close_action_views(
                pending_retry_of(old(self).reconnect),
                code,
                match reason {
                    Some(s) => Some(s@),
                    None => None,
                },
            ),
            final(self).is_closing,
            old(self).reconnect matches Some(c0) ==> (final(self).reconnect matches Some(c)
                && c.pending_retry() is None && c.spec_is_reconnecting()
                == c0.spec_is_reconnecting()),
            old(self).reconnect is None ==> final(self).reconnect is None,
            final(self).pinger == old(self).pinger,
            final(self).emitter == old(self).emitter,
            final(self).rpc_subscriber == old(self).rpc_subscriber,
            final(self).url == old(self).url,
    {
        let ghost expected = close_action_views(
            pending_retry_of(self.reconnect),
            code,
            match reason {
                Some(ref s) => Some(s@),
                None => None,
            },
        );
        self.is_closing = true;
        let mut actions: Vec<Action> = Vec::new();
        match &mut self.reconnect {
            Some(cfg) => {
                match cfg.take_retry_cb() {
                    Some(task) => actions.push(Action::CancelRetry { task }),
                    None => (),
                }
            },
            None => (),
        }
        actions.push(Action::CloseTransport { code, reason });
        proof {
            assert(action_views(actions@) =~= expected);
        }
        actions
    }

    /// Handles an inbound RPC frame: the envelope is decoded and its id
    /// normalized ([`RPCSubscriber::get_response`]), and the matching
    /// callback — success or error, per the envelope's kind — is taken out
    /// of the table for the host to invoke, exactly as [`rpc_step`] lays
    /// out.
    pub fn process_rpc_message(&mut self, payload: String) -> (r: RpcDispatch<R>)
        requires
            old(self).wf(),
        ensures
            final(self).wf(),
            rpc_applied(*old(self), *final(self), payload@, r@),
    {
        match RPCSubscriber::<R>::get_response(payload) {
            Ok(resp) => match resp.id {
                Some(id) => {
                    let (on_success, _on_error) = self.rpc_subscriber.resolve(id);
                    match on_success {
                        Some(handler) => RpcDispatch::Invoke { id, handler, argument: resp.result },
                        None => RpcDispatch::NoHandler { id },
                    }
                },
                None => RpcDispatch::Notification,
            },
            Err(err) => match err.id {
                Some(id) => {
                    let (_on_success, on_error) = self.rpc_subscriber.resolve(id);
                    match on_error {
                        Some(handler) => RpcDispatch::Invoke { id, handler, argument: err.msg },
                        None => RpcDispatch::NoHandler { id },
                    }
                },
                None => RpcDispatch::Failed { message: err.msg },
            },
        }
    }

    /// Routes a decoded text frame: the frame must be a JSON object; a frame
    /// carrying the reserved key `jsonrpc` is RPC traffic; every other frame
    /// must have exactly one top-level key — the topic — and is dispatched
    /// with the value under it. A malformed frame raises the local `error`
    /// event and is dropped, exactly as [`route_of`] lays out.
    pub fn process_text_message(&mut self, payload: String) -> (r: RouteOutcome<R>)
        requires
            old(self).wf(),
        ensures
            final(self).wf(),
            route_applied(*old(self), *final(self), payload@, r@),
    {
        let entries_opt = json_entries(payload.as_str());
        match entries_opt {
            None => RouteOutcome::LocalError { message: String::from_str("can't deserialize") },
            Some(mut entries) => {
                let ghost entries0 = entries@;
                let ghost spec_entries = Seq::new(
                    entries0.len(),
                    |i: int| (entries0[i].0@, entries0[i].1@),
                );
                proof {
                    assert(json_object_of(payload@) == Some(spec_entries));
                }
                let jsonrpc_key = String::from_str("jsonrpc");
                let n = entries.len();
                let mut k: usize = 0;
                let mut found = false;
                while k < n
                    invariant
                        n == entries@.len(),
                        entries@ == entries0,
                        k <= n,
                        jsonrpc_key@ == "jsonrpc"@,
                        found <==> exists|i: int| 0 <= i < k && entries0[i].0@ == "jsonrpc"@,
                    decreases n - k,
                {
                    if entries[k].0 == jsonrpc_key {
                        found = true;
                    }
                    k += 1;
                }
                if found {
                    proof {
                        let i = choose|i: int| 0 <= i < n && entries0[i].0@ == "jsonrpc"@;
                        assert(spec_entries[i].0 == "jsonrpc"@);
                    }
                    RouteOutcome::Rpc { dispatch: self.process_rpc_message(payload) }
                } else {
                    proof {
                        assert forall|i: int|
                            0 <= i < spec_entries.len() implies spec_entries[i].0
                            != "jsonrpc"@ by {
                            assert(entries0[i].0@ != "jsonrpc"@);
                        }
                    }
                    if entries.len() == 1 {
                        let pair = match entries.pop() {
                            Some(p) => p,
                            None => {
                                return RouteOutcome::LocalError {
                                    message: String::from_str("expected a single-key object"),
                                };
                            },
                        };
                        proof {
                            assert(spec_entries[0] == (pair.0@, pair.1@));
                        }
                        RouteOutcome::Event { topic: pair.0, data: pair.1 }
                    } else {
                        RouteOutcome::LocalError {
                            message: String::from_str("expected a single-key object"),
                        }
                    }
                }
            },
        }
    }

    /// Routes a binary frame: the bytes must spell UTF-8 text, which is then
    /// routed as a text frame; bytes that do not raise the local `error`
    /// event and are dropped.
    pub fn process_array_message(&mut self, payload: Vec<u8>) -> (r: RouteOutcome<R>)
        requires
            old(self).wf(),
        ensures
            final(self).wf(),
            valid_utf8(payload@) ==> route_applied(
                *old(self),
                *final(self),
                decode_utf8(payload@),
                r@,
            ),
            !valid_utf8(payload@) ==> (r matches RouteOutcome::LocalError { .. } && *final(self)
                == *old(self)),
    {
        match bytes_to_text(&payload) {
            Ok(text) => self.process_text_message(text),
            Err(message) => RouteOutcome::LocalError { message },
        }
    }
}

/// The pending retry task of an optional reconnect policy.
pub open spec fn pending_retry_of(rc: Option<ReconnectConfig>) -> Option<u64> {
    match rc {
        Some(c) => c.pending_retry(),
        None => None,
    }
}

/// The actions of a transport error, in order: raise the local `error`
/// event carrying the description when one is available, then invoke the
/// user's error callback.
pub open spec fn error_action_views(message: Option<Seq<char>>) -> Seq<ActionView> {
    (match message {
        Some(m) => seq![ActionView::DispatchEvent { topic: "error"@, data: m }],
        None => Seq::<ActionView>::empty(),
    }) + seq![ActionView::NotifyError { message }]
}

/// The actions of the transport reporting closed, in order: schedule one
/// retry (only when `retry` holds: reconnection enabled and no explicit
/// close), raise the local `close` event, cancel the active heartbeat task,
/// and invoke the user's close callback.
pub open spec fn closed_action_views(retry: bool, heartbeat: Option<u64>) -> Seq<ActionView> {
    (if retry {
        seq![ActionView::ScheduleRetry { delay_ms: RETRY_DELAY_MS }]
    } else {
        Seq::<ActionView>::empty()
    }) + seq![ActionView::DispatchEvent { topic: "close"@, data: "close"@ }] + (match heartbeat {
        Some(task) => seq![ActionView::CancelInterval { task }],
        None => Seq::<ActionView>::empty(),
    }) + seq![ActionView::NotifyClose]
}

/// The actions of an explicit close, in order: cancel the pending retry
/// task, if any, then ask the transport to close with exactly the given
/// code and reason.
pub open spec fn close_action_views(
    pending_retry: Option<u64>,
    code: u16,
    reason: Option<Seq<char>>,
) -> Seq<ActionView> {
    (match pending_retry {
        Some(task) => seq![ActionView::CancelRetry { task }],
        None => Seq::<ActionView>::empty(),
    }) + seq![ActionView::CloseTransport { code, reason }]
}

/// The dispatch decision for one inbound RPC frame.
#[derive(Debug, PartialEq)]
pub enum RpcDispatch<R> {
    /// Invoke `handler` once with `argument`: the callback registered for
    /// the response's id, on the side — success or error — the envelope's
    /// kind selects.
    Invoke { id: u64, handler: R, argument: String },
    /// A well-formed response whose id no registered request matches: the
    /// frame is dropped.
    NoHandler { id: u64 },
    /// A response with a `null` id: a notification, dropped without error.
    Notification,
    /// A frame that failed response processing (malformed id, batched or
    /// unparsable envelope): dropped with a log line, never fatal.
    Failed { message: String },
}

/// The abstract value of an [`RpcDispatch`].
pub ghost enum RpcDispatchView<R> {
    Invoke { id: u64, handler: R, argument: Seq<char> },
    NoHandler { id: u64 },
    Notification,
    Failed { message: Seq<char> },
}

impl<R> View for RpcDispatch<R> {
    type V = RpcDispatchView<R>;

    open spec fn view(&self) -> RpcDispatchView<R> {
        match self {
            RpcDispatch::Invoke { id, handler, argument } => RpcDispatchView::Invoke {
                id: *id,
                handler: *handler,
                argument: argument@,
            },
            RpcDispatch::NoHandler { id } => RpcDispatchView::NoHandler { id: *id },
            RpcDispatch::Notification => RpcDispatchView::Notification,
            RpcDispatch::Failed { message } => RpcDispatchView::Failed { message: message@ },
        }
    }
}

/// What one decoded RPC response does to the callback tables, and which
/// dispatch it selects: a resolved id takes its callback pair out of both
/// tables and invokes the side the envelope's kind names; a `null` id and a
/// failed frame leave the tables untouched.
pub open spec fn rpc_step<R>(
    handlers: Map<u64, R>,
    errors: Map<u64, R>,
    outcome: Result<RPCResponseView, RpcErrorView>,
) -> (RpcDispatchView<R>, Map<u64, R>, Map<u64, R>) {
    match outcome {
        Ok(resp) => match resp.id {
            Some(id) => (
                if handlers.contains_key(id) {
                    RpcDispatchView::Invoke { id, handler: handlers[id], argument: resp.result }
                } else {
                    RpcDispatchView::NoHandler { id }
                },
                handlers.remove(id),
                errors.remove(id),
            ),
            None => (RpcDispatchView::Notification, handlers, errors),
        },
        Err(e) => match e.id {
            Some(id) => (
                if errors.contains_key(id) {
                    RpcDispatchView::Invoke { id, handler: errors[id], argument: e.msg }
                } else {
                    RpcDispatchView::NoHandler { id }
                },
                handlers.remove(id),
                errors.remove(id),
            ),
            None => (RpcDispatchView::Failed { message: e.msg }, handlers, errors),
        },
    }
}

/// Whether `post` and the dispatch `d` are what handling the RPC frame
/// `payload` from state `pre` must produce: the tables step as [`rpc_step`]
/// says of the decoded envelope, and everything else — the id counter
/// included — is untouched.
pub open spec fn rpc_applied<C, R>(
    pre: WsCore<C, R>,
    post: WsCore<C, R>,
    payload: Seq<char>,
    d: RpcDispatchView<R>,
) -> bool {
    let step = rpc_step(
        pre.rpc_subscriber.handlers(),
        pre.rpc_subscriber.error_handlers(),
        response_outcome(decoded_response(payload)),
    );
    &&& d == step.0
    &&& post.rpc_subscriber.handlers() == step.1
    &&& post.rpc_subscriber.error_handlers() == step.2
    &&& post.rpc_subscriber.next_id() == pre.rpc_subscriber.next_id()
    &&& post.emitter == pre.emitter
    &&& post.pinger == pre.pinger
    &&& post.reconnect == pre.reconnect
    &&& post.is_closing == pre.is_closing
    &&& post.url == pre.url
}

/// The routing decision for one decoded text frame.
#[derive(Debug, PartialEq)]
pub enum RouteOutcome<R> {
    /// Route `data` to the callback registered under `topic` (the router's
    /// [`Emitter::emit`] selects it, if any).
    Event { topic: String, data: String },
    /// The frame is malformed: raise the local `error` event with this
    /// message and drop the frame.
    LocalError { message: String },
    /// The frame is RPC traffic, already resolved against the correlation
    /// table.
    Rpc { dispatch: RpcDispatch<R> },
}

/// The abstract value of a [`RouteOutcome`].
pub ghost enum RouteOutcomeView<R> {
    Event { topic: Seq<char>, data: Seq<char> },
    LocalError { message: Seq<char> },
    Rpc { dispatch: RpcDispatchView<R> },
}

impl<R> View for RouteOutcome<R> {
    type V = RouteOutcomeView<R>;

    open spec fn view(&self) -> RouteOutcomeView<R> {
        match self {
            RouteOutcome::Event { topic, data } => RouteOutcomeView::Event {
                topic: topic@,
                data: data@,
            },
            RouteOutcome::LocalError { message } => RouteOutcomeView::LocalError {
                message: message@,
            },
            RouteOutcome::Rpc { dispatch } => RouteOutcomeView::Rpc { dispatch: dispatch@ },
        }
    }
}

/// The message raised when a frame is not valid JSON.
pub open spec fn parse_error_message() -> Seq<char> {
    "can't deserialize"@
}

/// The message raised when a frame is a JSON object but not a single-key
/// one.
pub open spec fn shape_error_message() -> Seq<char> {
    "expected a single-key object"@
}

/// The routing rule for a decoded text frame: it must be a JSON object; a
/// frame carrying the reserved key `jsonrpc` is RPC traffic; every other
/// frame must have exactly one top-level key — the topic — and is dispatched
/// with the value under it, as its canonical JSON text.
pub open spec fn route_of(s: Seq<char>) -> RouteView {
    match json_object_of(s) {
        None => RouteView::LocalError { message: parse_error_message() },
        Some(entries) => if exists|i: int|
            0 <= i < entries.len() && entries[i].0 == "jsonrpc"@ {
            RouteView::Rpc
        } else if entries.len() == 1 {
            RouteView::Event { topic: entries[0].0, data: entries[0].1 }
        } else {
            RouteView::LocalError { message: shape_error_message() }
        },
    }
}

/// Where a decoded text frame is routed.
pub ghost enum RouteView {
    Event { topic: Seq<char>, data: Seq<char> },
    LocalError { message: Seq<char> },
    Rpc,
}

/// Whether `post` and the outcome `r` are what routing the text frame `s`
/// from state `pre` must produce: an event or a malformed frame leaves the
/// state untouched; RPC traffic steps the correlation table as
/// [`rpc_applied`] says.
pub open spec fn route_applied<C, R>(
    pre: WsCore<C, R>,
    post: WsCore<C, R>,
    s: Seq<char>,
    r: RouteOutcomeView<R>,
) -> bool {
    match route_of(s) {
        RouteView::Event { topic, data } => r == RouteOutcomeView::Event::<R> { topic, data }
            && post == pre,
        RouteView::LocalError { message } => r == RouteOutcomeView::LocalError::<R> { message }
            && post == pre,
        RouteView::Rpc => (r matches RouteOutcomeView::Rpc { dispatch } && rpc_applied(
            pre,
            post,
            s,
            dispatch,
        )),
    }
}

/// Law: a registered request is resolved exactly once. With its callback
/// pair registered under `id`, a success envelope bearing `id` selects the
/// success callback with the envelope's result, a failure envelope selects
/// the error callback with the failure's message, and either dispatch takes
/// the pair out of both tables — so the same envelope delivered again
/// selects no callback at all.
pub proof fn lemma_round_trip_resolves_once<R>(
    handlers: Map<u64, R>,
    errors: Map<u64, R>,
    id: u64,
    on_success: R,
    on_error: R,
    text: Seq<char>,
)
    ensures
        ({
            let hs = handlers.insert(id, on_success);
            let es = errors.insert(id, on_error);
            let outcome = Ok::<RPCResponseView, RpcErrorView>(
                RPCResponseView { id: Some(id), result: text },
            );
            let step = rpc_step(hs, es, outcome);
            &&& step.0 == (RpcDispatchView::Invoke { id, handler: on_success, argument: text })
            &&& !step.1.contains_key(id)
            &&& !step.2.contains_key(id)
            &&& rpc_step(step.1, step.2, outcome).0 == RpcDispatchView::NoHandler::<R> { id }
        }),
        ({
            let hs = handlers.insert(id, on_success);
            let es = errors.insert(id, on_error);
            let outcome = Err::<RPCResponseView, RpcErrorView>(
                RpcErrorView { id: Some(id), msg: text },
            );
            let step = rpc_step(hs, es, outcome);
            &&& step.0 == (RpcDispatchView::Invoke { id, handler: on_error, argument: text })
            &&& !step.1.contains_key(id)
            &&& !step.2.contains_key(id)
            &&& rpc_step(step.1, step.2, outcome).0 == RpcDispatchView::NoHandler::<R> { id }
        }),
{
}

/// Law: a response whose id is `null` invokes no callback and raises no
/// error: a success envelope is a notification, a failure envelope is
/// dropped with its message, and either way both callback tables are left
/// exactly as they were.
pub proof fn lemma_null_id_invokes_nothing<R>(
    handlers: Map<u64, R>,
    errors: Map<u64, R>,
    text: Seq<char>,
)
    ensures
        rpc_step(handlers, errors, Ok(RPCResponseView { id: None, result: text })) == (
            RpcDispatchView::Notification::<R>,
            handlers,
            errors,
        ),
        rpc_step(handlers, errors, Err(RpcErrorView { id: None, msg: text })) == (
            RpcDispatchView::Failed::<R> { message: text },
            handlers,
            errors,
        ),
{
}

/// Law: at most one heartbeat task is ever active. An open while the task
/// `prev` was still active first cancels `prev`, sends exactly one keepalive
/// frame immediately, and starts exactly one repeating task; no other action
/// of the open touches a repeating timer.
pub proof fn lemma_open_keeps_one_heartbeat(prev: u64, topics: Seq<Seq<char>>)
    ensures
        ({
            let a = open_action_views(Some(prev), topics);
            &&& a[0] == (ActionView::CancelInterval { task: prev })
            &&& a[2] == (ActionView::SendText { text: ping_frame_text() })
            &&& a[3] == (ActionView::StartHeartbeat { interval_ms: HEARTBEAT_INTERVAL_MS })
            &&& forall|i: int| 0 <= i < a.len() && i != 3 ==> !(#[trigger] a[i] is StartHeartbeat)
            &&& forall|i: int| 0 <= i < a.len() && i != 0 ==> !(#[trigger] a[i] is CancelInterval)
        }),
{
    let a = open_action_views(Some(prev), topics);
    assert forall|i: int| 0 <= i < a.len() && i != 3 implies !(#[trigger] a[i]
        is StartHeartbeat) by {
        if 4 <= i < 4 + topics.len() {
            assert(a[i] == (ActionView::SendText { text: subscribe_frame_of(topics[i - 4]) }));
        }
    }
    assert forall|i: int| 0 <= i < a.len() && i != 0 implies !(#[trigger] a[i]
        is CancelInterval) by {
        if 4 <= i < 4 + topics.len() {
            assert(a[i] == (ActionView::SendText { text: subscribe_frame_of(topics[i - 4]) }));
        }
    }
}

} // verus!
