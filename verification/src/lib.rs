//! A resilient client core for a message-oriented duplex socket.
//!
//! The crate layers three concerns on top of a raw transport supplied by the
//! host environment: connection-lifecycle management with automatic
//! reconnection, a keepalive heartbeat, and request/response correlation for
//! JSON-RPC traffic multiplexed with free-form event messages.
//!
//! The transport and timer primitives themselves are out of scope: every
//! decision the client makes is a function from its state and an observed
//! event to a new state and a list of [`lifecycle::Action`]s, which the host
//! loop carries out in order. [`Websocket`] is the client-facing facade over
//! the lifecycle core.

use jsonrpc_core::Params;
use vstd::prelude::*;
use vstd::slice::slice_to_vec;
use vstd::utf8::encode_utf8;

use crate::factory::WsFactory;
use crate::lifecycle::{
    close_action_views, pending_retry_of, Action, ActionView, WsCore,
};
use crate::simple_rpc::encoded_call_of;

pub mod emitter;
pub mod factory;
pub mod lifecycle;
pub mod simple_rpc;

verus! {

/// An outbound application message.
#[derive(Debug)]
pub enum WsMessage {
    Text(String),
    Binary(Vec<u8>),
}

/// The abstract value of a [`WsMessage`].
pub ghost enum WsMessageView {
    Text(Seq<char>),
    Binary(Seq<u8>),
}

impl View for WsMessage {
    type V = WsMessageView;

    open spec fn view(&self) -> WsMessageView {
        match self {
            WsMessage::Text(s) => WsMessageView::Text(s@),
            WsMessage::Binary(b) => WsMessageView::Binary(b@),
        }
    }
}

/// A lifecycle event the host loop observes on the transport and feeds to
/// the core.
pub enum WsEvent {
    Open,
    Message(WsMessage),
    Error(Option<String>),
    Close,
}

/// The transport's reported connection state.
#[derive(Clone, Copy, Debug, PartialEq, Eq, Structural)]
pub enum ReadyState {
    Connecting,
    Open,
    Closing,
    Closed,
    Other(u16),
}

impl From<u16> for ReadyState {
    /// The state a transport's numeric ready-state code denotes.
    fn from(state: u16) -> (r: Self) {
        match state {
            0 => ReadyState::Connecting,
            1 => ReadyState::Open,
            2 => ReadyState::Closing,
            3 => ReadyState::Closed,
            _ => ReadyState::Other(state),
        }
    }
}

impl vstd::std_specs::convert::FromSpecImpl<u16> for ReadyState {
    open spec fn obeys_from_spec() -> bool {
        true
    }

    open spec fn from_spec(state: u16) -> Self {
        match state {
            0u16 => ReadyState::Connecting,
            1u16 => ReadyState::Open,
            2u16 => ReadyState::Closing,
            3u16 => ReadyState::Closed,
            _ => ReadyState::Other(state),
        }
    }
}

/// The client-facing facade: owns one lifecycle core and presents the
/// connect, send, subscribe and close operations application code uses.
/// `C` is the host's event-callback type, `R` its RPC-callback type.
pub struct Websocket<C, R> {
    pub core: WsCore<C, R>,
}

impl<C, R> Websocket<C, R> {
    /// The facade's internal invariant: the core's.
    pub open spec fn wf(&self) -> bool {
        self.core.wf()
    }

    pub fn new(core: WsCore<C, R>) -> (r: Self)
        ensures
            r.core == core,
    {
        Websocket { core }
    }

    /// Starts a configuration for a connection to `url`; reconnection is
    /// enabled until [`WsFactory::no_reconnect`] disables it.
    pub fn connect(url: String) -> (r: WsFactory)
        ensures
            r.url@ == url@,
            (r.reconnect matches Some(c) && !c.spec_is_reconnecting() && c.pending_retry()
                is None),
    {
        WsFactory::new(url)
    }

    /// An explicit close; a missing code defaults to the normal-closure code
    /// 1000. The transport receives exactly the given code and reason, and
    /// no reconnect will follow.
    pub fn close(&mut self, code: Option<u16>, reason: Option<String>) -> (r: Vec<Action>)
        requires
            old(self).wf(),
        ensures
            final(self).wf(),
            lifecycle::action_views(r@) == close_action_views(
                pending_retry_of(old(self).core.reconnect),
                match code {
                    Some(c) => c,
                    None => 1000u16,
                },
                match reason {
                    Some(s) => Some(s@),
                    None => None,
                },
            ),
            final(self).core.is_closing,
            final(self).core.pinger == old(self).core.pinger,
            final(self).core.emitter == old(self).core.emitter,
            final(self).core.rpc_subscriber == old(self).core.rpc_subscriber,
            final(self).core.url == old(self).core.url,
    {
        let effective = match code {
            Some(c) => c,
            None => 1000u16,
        };
        self.core.close(effective, reason)
    }

    /// The close a dropped facade performs: code 1000, no reason.
    pub fn close_from_drop(&mut self) -> (r: Vec<Action>)
        requires
            old(self).wf(),
        ensures
            final(self).wf(),
            lifecycle::action_views(r@) == close_action_views(
                pending_retry_of(old(self).core.reconnect),
                1000u16,
                None,
            ),
            final(self).core.is_closing,
            final(self).core.pinger == old(self).core.pinger,
            final(self).core.emitter == old(self).core.emitter,
            final(self).core.rpc_subscriber == old(self).core.rpc_subscriber,
            final(self).core.url == old(self).core.url,
    {
        self.core.close(1000u16, None)
    }

    /// The transmit instruction for one application message.
    pub fn send(&self, websocket_message: WsMessage) -> (r: Action)
        ensures
            match websocket_message@ {
                WsMessageView::Text(s) => r@ == (ActionView::SendText { text: s }),
                WsMessageView::Binary(b) => r@ == (ActionView::SendBinary { bytes: b }),
            },
    {
        match websocket_message {
            WsMessage::Text(payload) => Action::SendText { text: payload },
            WsMessage::Binary(payload) => Action::SendBinary { bytes: payload },
        }
    }

    /// Allocates the next request id, builds the request envelope — version
    /// tag, method, parameters and the id — and registers the callback pair
    /// under the id, without transmitting. `None` only when every id has
    /// been used up.
    pub fn prepare_rpc_request(
        &mut self,
        method: String,
        rpc_params: Params,
        callback: R,
        error_callback: R,
    ) -> (r: Option<String>)
        requires
            old(self).wf(),
        ensures
            final(self).wf(),
            old(self).core.rpc_subscriber.next_id() < u64::MAX ==> {
                &&& (r matches Some(text) && text@ == encoded_call_of(
                    old(self).core.rpc_subscriber.next_id(),
                    method@,
                    rpc_params,
                ))
                &&& final(self).core.rpc_subscriber.next_id() == old(
                    self,
                ).core.rpc_subscriber.next_id() + 1
                &&& final(self).core.rpc_subscriber.handlers() == old(
                    self,
                ).core.rpc_subscriber.handlers().insert(
                    old(self).core.rpc_subscriber.next_id(),
                    callback,
                )
                &&& final(self).core.rpc_subscriber.error_handlers() == old(
                    self,
                ).core.rpc_subscriber.error_handlers().insert(
                    old(self).core.rpc_subscriber.next_id(),
                    error_callback,
                )
            },
            old(self).core.rpc_subscriber.next_id() == u64::MAX ==> r is None && *final(self)
                == *old(self),
            final(self).core.emitter == old(self).core.emitter,
            final(self).core.pinger == old(self).core.pinger,
            final(self).core.reconnect == old(self).core.reconnect,
            final(self).core.is_closing == old(self).core.is_closing,
            final(self).core.url == old(self).core.url,
    {
        if self.core.rpc_subscriber.peek_next_id() == u64::MAX {
            return None;
        }
        let (request_id, raw_request) = self.core.rpc_subscriber.prepare_request(
            method.as_str(),
            rpc_params,
        );
        self.core.rpc_subscriber.set_handler(request_id, callback);
        self.core.rpc_subscriber.set_error_handler(request_id, error_callback);
        Some(raw_request)
    }

    /// Prepares a request and hands back the instruction to transmit its
    /// envelope as a text frame; `None` only when every id has been used up,
    /// in which case nothing was registered.
    pub fn send_text_rpc(
        &mut self,
        method: String,
        rpc_params: Params,
        callback: R,
        error_callback: R,
    ) -> (r: Option<Action>)
        requires
            old(self).wf(),
        ensures
            final(self).wf(),
            old(self).core.rpc_subscriber.next_id() < u64::MAX ==> {
                &&& (r matches Some(a) && a@ == (ActionView::SendText {
                    text: encoded_call_of(
                        old(self).core.rpc_subscriber.next_id(),
                        method@,
                        rpc_params,
                    ),
                }))
                &&& final(self).core.rpc_subscriber.next_id() == old(
                    self,
                ).core.rpc_subscriber.next_id() + 1
                &&& final(self).core.rpc_subscriber.handlers() == old(
                    self,
                ).core.rpc_subscriber.handlers().insert(
                    old(self).core.rpc_subscriber.next_id(),
                    callback,
                )
                &&& final(self).core.rpc_subscriber.error_handlers() == old(
                    self,
                ).core.rpc_subscriber.error_handlers().insert(
                    old(self).core.rpc_subscriber.next_id(),
                    error_callback,
                )
            },
            old(self).core.rpc_subscriber.next_id() == u64::MAX ==> r is None && *final(self)
                == *old(self),
            final(self).core.emitter == old(self).core.emitter,
            final(self).core.pinger == old(self).core.pinger,
            final(self).core.reconnect == old(self).core.reconnect,
            final(self).core.is_closing == old(self).core.is_closing,
            final(self).core.url == old(self).core.url,
    {
        match self.prepare_rpc_request(method, rpc_params, callback, error_callback) {
            Some(rpc_request) => Some(Action::SendText { text: rpc_request }),
            None => None,
        }
    }

    /// Prepares a request and hands back the instruction to transmit its
    /// envelope's UTF-8 bytes as a binary frame; `None` only when every id
    /// has been used up, in which case nothing was registered.
    pub fn send_binary_rpc(
        &mut self,
        method: String,
        rpc_params: Params,
        callback: R,
        error_callback: R,
    ) -> (r: Option<Action>)
        requires
            old(self).wf(),
        ensures
            final(self).wf(),
            old(self).core.rpc_subscriber.next_id() < u64::MAX ==> {
                &&& (r matches Some(a) && a@ == (ActionView::SendBinary {
                    bytes: encode_utf8(
                        encoded_call_of(
                            old(self).core.rpc_subscriber.next_id(),
                            method@,
                            rpc_params,
                        ),
                    ),
                }))
                &&& final(self).core.rpc_subscriber.next_id() == old(
                    self,
                ).core.rpc_subscriber.next_id() + 1
                &&& final(self).core.rpc_subscriber.handlers() == old(
                    self,
                ).core.rpc_subscriber.handlers().insert(
                    old(self).core.rpc_subscriber.next_id(),
                    callback,
                )
                &&& final(self).core.rpc_subscriber.error_handlers() == old(
                    self,
                ).core.rpc_subscriber.error_handlers().insert(
                    old(self).core.rpc_subscriber.next_id(),
                    error_callback,
                )
            },
            old(self).core.rpc_subscriber.next_id() == u64::MAX ==> r is None && *final(self)
                == *old(self),
            final(self).core.emitter == old(self).core.emitter,
            final(self).core.pinger == old(self).core.pinger,
            final(self).core.reconnect == old(self).core.reconnect,
            final(self).core.is_closing == old(self).core.is_closing,
            final(self).core.url == old(self).core.url,
    {
        match self.prepare_rpc_request(method, rpc_params, callback, error_callback) {
            Some(rpc_request) => {
                let data = slice_to_vec(rpc_request.as_str().as_bytes());
                Some(Action::SendBinary { bytes: data })
            },
            None => None,
        }
    }

    /// Registers an event callback under `handler_name`, replacing any
    /// earlier one; a new topic joins the re-subscription list in
    /// registration order.
    pub fn add_listener(&mut self, handler_name: String, handler: C)
        requires
            old(self).wf(),
        ensures
            final(self).wf(),
            final(self).core.emitter.as_map() == old(self).core.emitter.as_map().insert(
                handler_name@,
                handler,
            ),
            old(self).core.emitter.registered(handler_name@) ==> final(self).core.emitter.topics()
                == old(self).core.emitter.topics(),
            !old(self).core.emitter.registered(handler_name@)
                ==> final(self).core.emitter.topics()
                == old(self).core.emitter.topics().push(handler_name@),
            final(self).core.rpc_subscriber == old(self).core.rpc_subscriber,
            final(self).core.pinger == old(self).core.pinger,
            final(self).core.reconnect == old(self).core.reconnect,
            final(self).core.is_closing == old(self).core.is_closing,
            final(self).core.url == old(self).core.url,
    {
        self.core.emitter.on(handler_name, handler);
    }
}

} // verus!
