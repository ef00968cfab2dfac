//! Request/response correlation for the JSON-RPC traffic multiplexed over
//! the transport.
//!
//! [`RPCSubscriber`] hands out monotonically increasing request ids, builds
//! request envelopes, and keeps per-id success and error callbacks until a
//! matching response arrives. Decoding a response envelope is delegated to
//! the `jsonrpc_core` crate behind one trusted wrapper; everything decided
//! from the decoded envelope — id normalization, malformed-id rejection,
//! callback selection — is verified here.

use std::collections::HashMap;
use vstd::prelude::*;
use vstd::string::{StrSliceExecFns, StringExecFns};
use jsonrpc_core::{Id, Output, Params, Response};

verus! {

broadcast use vstd::std_specs::hash::group_hash_axioms;

/// A correlation id as it appears in a decoded response envelope: numeric,
/// textual (not yet parsed), or absent.
pub enum RawId {
    Num(u64),
    Text(String),
    Null,
}

/// The abstract value of a [`RawId`].
pub ghost enum IdView {
    Num(u64),
    Text(Seq<char>),
    Null,
}

impl View for RawId {
    type V = IdView;

    open spec fn view(&self) -> IdView {
        match self {
            RawId::Num(n) => IdView::Num(*n),
            RawId::Text(s) => IdView::Text(s@),
            RawId::Null => IdView::Null,
        }
    }
}

/// A decoded response envelope, before the correlation id is normalized:
/// a success carrying a result value (as its JSON text), a failure carrying
/// an error message, a batched response (unsupported), or text that is no
/// response envelope at all.
pub enum RawOutput {
    Success { id: RawId, result: String },
    Failure { id: RawId, message: String },
    Batch,
    Invalid { message: String },
}

/// The abstract value of a [`RawOutput`].
pub ghost enum OutputView {
    Success { id: IdView, result: Seq<char> },
    Failure { id: IdView, message: Seq<char> },
    Batch,
    Invalid { message: Seq<char> },
}

impl View for RawOutput {
    type V = OutputView;

    open spec fn view(&self) -> OutputView {
        match self {
            RawOutput::Success { id, result } => OutputView::Success {
                id: id@,
                result: result@,
            },
            RawOutput::Failure { id, message } => OutputView::Failure {
                id: id@,
                message: message@,
            },
            RawOutput::Batch => OutputView::Batch,
            RawOutput::Invalid { message } => OutputView::Invalid { message: message@ },
        }
    }
}

/// What decoding a given response text yields. Parsing is a function of the
/// text alone, so the outcome bears a name; nothing is assumed about it on
/// particular texts.
pub uninterp spec fn decoded_response(s: Seq<char>) -> OutputView;

/// Relies on `jsonrpc_core::Response::from_json` to parse the text as a
/// JSON-RPC response envelope (an empty text parses as an empty batch), on
/// `serde_json::Value`'s `to_string` for the result's canonical JSON text,
/// and on `serde_json::Error`'s `to_string` for the parse-failure message.
/// All three depend on the text alone.
#[verifier::external_body]
fn decode_response(json: &str) -> (r: RawOutput)
    ensures
        r@ == decoded_response(json@),
{
    let out = match Response::from_json(json) {
        Ok(Response::Single(o)) => o,
        Ok(Response::Batch(_)) => return RawOutput::Batch,
        Err(e) => return RawOutput::Invalid { message: e.to_string() },
    };
    let (id, outcome) = match out {
        Output::Success(s) => (s.id, Ok(s.result.to_string())),
        Output::Failure(f) => (f.id, Err(f.error.message)),
    };
    let id = match id { Id::Num(n) => RawId::Num(n), Id::Str(t) => RawId::Text(t), Id::Null => RawId::Null };
    match outcome {
        Ok(result) => RawOutput::Success { id, result },
        Err(message) => RawOutput::Failure { id, message },
    }
}

/// The request parameters type of `jsonrpc_core`. The client never looks
/// inside the parameters: they are carried through into the encoded request.
#[verifier::external_type_specification]
#[verifier::external_body]
pub struct ExParams(Params);

/// The JSON-RPC request envelope carrying version tag `2.0`, the given
/// method name, the given parameters and the given numeric id. Encoding is a
/// function of these three alone, so the text bears a name; nothing is
/// assumed about it on particular arguments.
pub uninterp spec fn encoded_call_of(id: u64, method: Seq<char>, params: Params) -> Seq<char>;

/// Relies on `serde_json::to_string` applied to a `jsonrpc_core` method-call
/// envelope built from the arguments: version tag `2.0`, the given method
/// name, the given parameters and the numeric id.
#[verifier::external_body]
fn encode_call(id: u64, method: &str, params: Params) -> (r: String)
    ensures
        r@ == encoded_call_of(id, method@, params),
{
    let call = jsonrpc_core::Call::MethodCall(jsonrpc_core::MethodCall {
        jsonrpc: Some(jsonrpc_core::Version::V2),
        method: method.to_string(),
        params,
        id: jsonrpc_core::Id::Num(id),
    });
    match serde_json::to_string(&call) {
        Ok(text) => text,
        Err(_) => String::new(),
    }
}

/// Whether `c` is an ASCII decimal digit.
pub open spec fn is_dec_digit(c: char) -> bool {
    48 <= c as u32 <= 57
}

/// The value of the digits `s` read onto the accumulator `acc`: `None` as
/// soon as a non-digit appears or the value outgrows `u64`.
pub open spec fn parse_u64_rec(s: Seq<char>, acc: u64) -> Option<u64>
    decreases s.len(),
{
    if s.len() == 0 {
        Some(acc)
    } else if !is_dec_digit(s[0]) {
        None
    } else {
        let d = (s[0] as u32 - 48) as u64;
        if acc * 10 + d > u64::MAX {
            None
        } else {
            parse_u64_rec(s.drop_first(), (acc * 10 + d) as u64)
        }
    }
}

/// The unsigned integer denoted by `s`: one or more ASCII decimal digits
/// whose value fits in `u64`, and `None` for every other text.
pub open spec fn parse_u64_spec(s: Seq<char>) -> Option<u64> {
    if s.len() == 0 {
        None
    } else {
        parse_u64_rec(s, 0)
    }
}

/// Reads an unsigned integer from `s`: one or more ASCII decimal digits
/// whose value fits in `u64`; every other text is rejected. A sign prefix is
/// rejected too (std's integer parser would accept a leading `+`): a
/// correlation id is a plain digit string.
pub fn parse_u64(s: &str) -> (r: Option<u64>)
    ensures
        r == parse_u64_spec(s@),
{
    let n = s.unicode_len();
    if n == 0 {
        return None;
    }
    let mut acc: u64 = 0;
    let mut i: usize = 0;
    proof {
        assert(s@.skip(0) =~= s@);
    }
    while i < n
        invariant
            n == s@.len(),
            i <= n,
            parse_u64_rec(s@.skip(i as int), acc) == parse_u64_spec(s@),
        decreases n - i,
    {
        let c = s.get_char(i);
        proof {
            assert(s@.skip(i as int)[0] == s@[i as int]);
        }
        let code = c as u32;
        if code < 48 || code > 57 {
            return None;
        }
        let d = (code - 48) as u64;
        let next = match acc.checked_mul(10) {
            Some(m) => m.checked_add(d),
            None => None,
        };
        match next {
            Some(v) => {
                proof {
                    assert(s@.skip(i as int).drop_first() =~= s@.skip(i as int + 1));
                }
                acc = v;
            },
            None => {
                return None;
            },
        }
        i += 1;
    }
    proof {
        assert(s@.skip(n as int) =~= Seq::<char>::empty());
    }
    Some(acc)
}

/// A numeric id found: `Some(Some(n))`; an id of `null`, denoting a
/// notification: `Some(None)`; a textual id that is no valid unsigned
/// integer: `None` (a malformed response).
pub open spec fn normalized_id(id: IdView) -> Option<Option<u64>> {
    match id {
        IdView::Num(n) => Some(Some(n)),
        IdView::Text(s) => match parse_u64_spec(s) {
            Some(n) => Some(Some(n)),
            None => None,
        },
        IdView::Null => Some(None),
    }
}

/// Normalizes a decoded correlation id as [`normalized_id`] describes.
pub fn normalize_id(id: RawId) -> (r: Option<Option<u64>>)
    ensures
        r == normalized_id(id@),
{
    match id {
        RawId::Num(n) => Some(Some(n)),
        RawId::Text(s) => match parse_u64(s.as_str()) {
            Some(n) => Some(Some(n)),
            None => None,
        },
        RawId::Null => Some(None),
    }
}

/// A successfully decoded response: the normalized correlation id (absent
/// for a notification) and the result value's JSON text.
#[derive(Debug, PartialEq)]
pub struct RPCResponse {
    pub id: Option<u64>,
    pub result: String,
}

/// The abstract value of an [`RPCResponse`].
pub ghost struct RPCResponseView {
    pub id: Option<u64>,
    pub result: Seq<char>,
}

impl View for RPCResponse {
    type V = RPCResponseView;

    open spec fn view(&self) -> RPCResponseView {
        RPCResponseView { id: self.id, result: self.result@ }
    }
}

/// A failed response: the normalized correlation id, when one was present
/// and well-formed, and the error message.
#[derive(Debug, PartialEq)]
pub struct RpcError {
    pub id: Option<u64>,
    pub msg: String,
}

/// The abstract value of an [`RpcError`].
pub ghost struct RpcErrorView {
    pub id: Option<u64>,
    pub msg: Seq<char>,
}

impl View for RpcError {
    type V = RpcErrorView;

    open spec fn view(&self) -> RpcErrorView {
        RpcErrorView { id: self.id, msg: self.msg@ }
    }
}

/// The message of the error raised when a textual correlation id is no
/// valid unsigned integer.
pub open spec fn malformed_id_message() -> Seq<char> {
    "malformed response id"@
}

/// The message of the error raised for a batched response envelope.
pub open spec fn batch_message() -> Seq<char> {
    "this is batch response"@
}

/// What processing a decoded envelope yields: a success envelope with a
/// well-formed (or absent) id resolves to a response; everything else is an
/// error, a malformed textual id failing the whole frame.
pub open spec fn response_outcome(d: OutputView) -> Result<RPCResponseView, RpcErrorView> {
    match d {
        OutputView::Success { id, result } => match normalized_id(id) {
            Some(opt) => Ok(RPCResponseView { id: opt, result }),
            None => Err(RpcErrorView { id: None, msg: malformed_id_message() }),
        },
        OutputView::Failure { id, message } => match normalized_id(id) {
            Some(opt) => Err(RpcErrorView { id: opt, msg: message }),
            None => Err(RpcErrorView { id: None, msg: malformed_id_message() }),
        },
        OutputView::Batch => Err(RpcErrorView { id: None, msg: batch_message() }),
        OutputView::Invalid { message } => Err(RpcErrorView { id: None, msg: message }),
    }
}

/// Assigns request ids and retains per-id success and error callbacks until
/// the matching response arrives. The callback type `C` is the host's own;
/// the table only stores and selects callbacks.
pub struct RPCSubscriber<C> {
    id: u64,
    subscriber: HashMap<u64, C>,
    error_subscriber: HashMap<u64, C>,
}

impl<C> RPCSubscriber<C> {
    /// The id the next prepared request will receive. Ids already handed out
    /// are exactly the values below it, so none is ever reused.
    pub closed spec fn next_id(&self) -> u64 {
        self.id
    }

    /// The success callbacks, keyed by request id.
    pub closed spec fn handlers(&self) -> Map<u64, C> {
        self.subscriber@
    }

    /// The error callbacks, keyed by request id.
    pub closed spec fn error_handlers(&self) -> Map<u64, C> {
        self.error_subscriber@
    }

    pub fn new() -> (r: Self)
        ensures
            r.next_id() == 0,
            r.handlers() == Map::<u64, C>::empty(),
            r.error_handlers() == Map::<u64, C>::empty(),
    {
        RPCSubscriber { id: 0, subscriber: HashMap::new(), error_subscriber: HashMap::new() }
    }

    /// The id the next prepared request will receive.
    pub fn peek_next_id(&self) -> (r: u64)
        ensures
            r == self.next_id(),
    {
        self.id
    }

    /// Allocates the next request id and builds the matching JSON-RPC
    /// request envelope, without transmitting it and without touching the
    /// callback tables. Ids grow strictly with every call.
    pub fn prepare_request(&mut self, method: &str, params: Params) -> (r: (u64, String))
        requires
            old(self).next_id() < u64::MAX,
        ensures
            r.0 == old(self).next_id(),
            r.1@ == encoded_call_of(old(self).next_id(), method@, params),
            final(self).next_id() == old(self).next_id() + 1,
            final(self).handlers() == old(self).handlers(),
            final(self).error_handlers() == old(self).error_handlers(),
    {
        let id = self.id;
        self.id = self.id + 1;
        let request = encode_call(id, method, params);
        (id, request)
    }

    /// Stores the success callback for `request_id`, replacing any earlier
    /// one.
    pub fn set_handler(&mut self, request_id: u64, handler: C)
        ensures
            final(self).handlers() == old(self).handlers().insert(request_id, handler),
            final(self).error_handlers() == old(self).error_handlers(),
            final(self).next_id() == old(self).next_id(),
    {
        self.subscriber.insert(request_id, handler);
    }

    /// Stores the error callback for `request_id`, replacing any earlier
    /// one.
    pub fn set_error_handler(&mut self, request_id: u64, error_handler: C)
        ensures
            final(self).error_handlers() == old(self).error_handlers().insert(
                request_id,
                error_handler,
            ),
            final(self).handlers() == old(self).handlers(),
            final(self).next_id() == old(self).next_id(),
    {
        self.error_subscriber.insert(request_id, error_handler);
    }

    /// The success callback stored for `request_id`, if any.
    pub fn get_handler(&self, request_id: u64) -> (r: Option<&C>)
        ensures
            match r {
                Some(c) => self.handlers().contains_key(request_id) && *c == self.handlers()[
                    request_id
                ],
                None => !self.handlers().contains_key(request_id),
            },
    {
        self.subscriber.get(&request_id)
    }

    /// The error callback stored for `request_id`, if any.
    pub fn get_error_handler(&self, request_id: u64) -> (r: Option<&C>)
        ensures
            match r {
                Some(c) => self.error_handlers().contains_key(request_id) && *c
                    == self.error_handlers()[request_id],
                None => !self.error_handlers().contains_key(request_id),
            },
    {
        self.error_subscriber.get(&request_id)
    }

    /// Removes and returns the callback pair stored for `request_id`: a
    /// response is dispatched at most once, so the entry leaves the table
    /// with it. Both sides of the pair leave, even when only one of them was
    /// registered: the id is answered and will not come again.
    pub fn resolve(&mut self, request_id: u64) -> (r: (Option<C>, Option<C>))
        ensures
            final(self).handlers() == old(self).handlers().remove(request_id),
            final(self).error_handlers() == old(self).error_handlers().remove(request_id),
            final(self).next_id() == old(self).next_id(),
            r.0 matches Some(c) ==> old(self).handlers().contains_key(request_id) && c == old(
                self,
            ).handlers()[request_id],
            r.0 is None ==> !old(self).handlers().contains_key(request_id),
            r.1 matches Some(c) ==> old(self).error_handlers().contains_key(request_id) && c
                == old(self).error_handlers()[request_id],
            r.1 is None ==> !old(self).error_handlers().contains_key(request_id),
    {
        let on_success = self.subscriber.remove(&request_id);
        let on_error = self.error_subscriber.remove(&request_id);
        (on_success, on_error)
    }

    /// Decodes `json` as a JSON-RPC response envelope and normalizes its
    /// correlation id, exactly as [`response_outcome`] describes applied to
    /// the decoded envelope: a malformed textual id, a batched envelope and
    /// unparsable text all fail the frame instead of crashing the client.
    pub fn get_response(json: String) -> (r: Result<RPCResponse, RpcError>)
        ensures
            match r {
                Ok(resp) => response_outcome(decoded_response(json@)) == Ok::<
                    RPCResponseView,
                    RpcErrorView,
                >(resp@),
                Err(e) => response_outcome(decoded_response(json@)) == Err::<
                    RPCResponseView,
                    RpcErrorView,
                >(e@),
            },
    {
        let decoded = decode_response(json.as_str());
        match decoded {
            RawOutput::Success { id, result } => match normalize_id(id) {
                Some(opt) => Ok(RPCResponse { id: opt, result }),
                None => Err(RpcError { id: None, msg: malformed_id_text() }),
            },
            RawOutput::Failure { id, message } => match normalize_id(id) {
                Some(opt) => Err(RpcError { id: opt, msg: message }),
                None => Err(RpcError { id: None, msg: malformed_id_text() }),
            },
            RawOutput::Batch => Err(RpcError { id: None, msg: batch_text() }),
            RawOutput::Invalid { message } => Err(RpcError { id: None, msg: message }),
        }
    }
}

/// The [`malformed_id_message`] text as a `String`.
fn malformed_id_text() -> (r: String)
    ensures
        r@ == malformed_id_message(),
{
    String::from_str("malformed response id")
}

/// The [`batch_message`] text as a `String`.
fn batch_text() -> (r: String)
    ensures
        r@ == batch_message(),
{
    String::from_str("this is batch response")
}

/// Law: request ids never repeat and grow strictly. `counters` holds the
/// table's id counter as observed before successive `prepare_request` calls;
/// each call returns the counter it saw and leaves it strictly larger, and
/// no other operation changes it, so the returned ids — the counter values
/// themselves — are strictly increasing across the whole sequence, a
/// simulated reconnect included.
pub proof fn lemma_request_ids_strictly_increasing(counters: Seq<u64>)
    requires
        forall|i: int| 0 <= i < counters.len() - 1 ==> #[trigger] counters[i] < counters[i + 1],
    ensures
        forall|i: int, j: int| 0 <= i < j < counters.len() ==> counters[i] < counters[j],
    decreases counters.len(),
{
    if counters.len() > 1 {
        lemma_request_ids_strictly_increasing(counters.drop_last());
        assert forall|i: int, j: int| 0 <= i < j < counters.len() implies counters[i]
            < counters[j] by {
            if j == counters.len() - 1 {
                assert(counters.drop_last()[j - 1] == counters[j - 1]);
                if i < j - 1 {
                    assert(counters.drop_last()[i] == counters[i]);
                }
            } else {
                assert(counters.drop_last()[i] == counters[i]);
                assert(counters.drop_last()[j] == counters[j]);
            }
        }
    }
}

/// Law: a response with a textual id resolves exactly as the response with
/// the numeric id the text denotes — the whole processing outcome is the
/// same, so the same callback entry is selected. Texts denoting no unsigned
/// integer are not covered: those fail the frame as malformed.
pub proof fn lemma_text_id_resolves_as_numeric(s: Seq<char>, n: u64, text: Seq<char>)
    requires
        parse_u64_spec(s) == Some(n),
    ensures
        normalized_id(IdView::Text(s)) == normalized_id(IdView::Num(n)),
        response_outcome(OutputView::Success { id: IdView::Text(s), result: text })
            == response_outcome(OutputView::Success { id: IdView::Num(n), result: text }),
        response_outcome(OutputView::Failure { id: IdView::Text(s), message: text })
            == response_outcome(OutputView::Failure { id: IdView::Num(n), message: text }),
{
}

} // verus!
