//! Connection session: the single owner of one multiplexed socket.
//!
//! The session holds the subscription registry and the connection state
//! machine `Connected -> Reconnecting -> Connected | Failed`. It decides
//! everything: what frame a submission sends, how an inbound frame is
//! routed, and which frames a reconnect replays. The socket itself, the
//! timer, and the queue of submissions live with the caller, which feeds
//! events in and performs the returned frames and replies; the session
//! never blocks and handles exactly one event per call.

use vstd::prelude::*;

verus! {

use vstd::slice::slice_to_vec;
use vstd::utf8::{valid_utf8, decode_utf8};
use crate::MsgId;
use crate::error::{Error, WsResult, ResponseError, spec_error_body};
use crate::format::Format;
use crate::operation::{
    Operation, operation_valid, spec_encode_operation, encode_operation,
    lemma_encode_operation_len,
};
use crate::registry::{
    Registry, SubModel, apply_cursor, spec_submit_cursor,
};
use crate::text::bytes_to_string;
use crate::wire::{
    Kind, Header, encode_frame, decode_frame, spec_frame_parts, frame_wellformed, spec_frame_kind,
    spec_frame_id, spec_frame_cursor, lemma_frame_parts_agree,
};

/// Reconnect attempts a session makes before giving up, unless configured
/// otherwise.
pub const DEFAULT_MAX_RECONNECT_ATTEMPTS: u32 = 100;

/// Seconds between reconnect attempts.
pub const RECONNECT_DELAY_SECS: u64 = 5;

/// Seconds between keep-alive pings.
pub const PING_INTERVAL_SECS: u64 = 30;

/// Where the physical connection stands.
#[derive(Clone, Copy, Debug, PartialEq, Eq, Structural)]
pub enum ConnState {
    /// The socket is up.
    Connected,
    /// The socket was lost; reconnection is under way.
    Reconnecting {
        /// Attempts already failed.
        attempts: u32,
    },
    /// The reconnect budget is exhausted; every caller sees a terminal
    /// error.
    Failed,
}

/// One message observed on the socket, reduced to plain values.
#[derive(Debug)]
pub enum MessageEvent {
    /// A text message; the protocol is binary, so this is unexpected.
    Text,
    /// A binary frame.
    Binary(Vec<u8>),
    /// A ping that wants a pong back.
    Ping(Vec<u8>),
    /// An unsolicited pong; servers may send these.
    Pong,
    /// The server closed the connection.
    Close,
    /// A raw protocol frame; servers may send these.
    Raw,
}

/// What the caller must send back after an event, if anything.
#[derive(Debug, PartialEq, Eq)]
pub enum MessageReply {
    /// Nothing to send.
    Ignore,
    /// Answer the ping with this pong payload.
    Pong(Vec<u8>),
}

/// A subscription model the session can hold: its operation encodes and
/// its cursors fit the wire format's length field.
pub open spec fn model_ok(e: SubModel) -> bool {
    &&& operation_valid(e.op)
    &&& e.init_cursor.len() <= u16::MAX
    &&& (e.cursor matches Some(c) ==> c.len() <= u16::MAX)
}

/// Every registered subscription is one the session can hold.
pub open spec fn models_ok(m: Map<MsgId, SubModel>) -> bool {
    forall|k: MsgId| #[trigger] m.dom().contains(k) ==> model_ok(m[k])
}

/// The cursor a replay of a subscription carries: the last observed one,
/// or the one captured at subscribe time if none has been observed yet.
pub open spec fn spec_replay_cursor(e: SubModel) -> Seq<u8> {
    match e.cursor {
        Option::Some(c) => c,
        Option::None => e.init_cursor,
    }
}

/// The frame that opens (or resumes) a subscription.
pub open spec fn spec_request_frame(e: SubModel, cursor: Seq<u8>) -> Seq<u8> {
    spec_frame_parts(
        Kind::Subscription,
        e.id,
        0,
        e.format,
        e.deltas,
        cursor,
        spec_encode_operation(e.op),
    )
}

/// How one binary frame moves the subscription table, and what the
/// handler returns for it. A malformed frame changes nothing and reports
/// the malformed format; `Start` acknowledges; `End` completes its
/// subscription; every other kind routes a message to its subscription,
/// which succeeds, finds no entry, or finds the consumer gone and removes
/// the entry.
pub open spec fn frame_transition(
    pre: Map<MsgId, SubModel>,
    data: Seq<u8>,
    post: Map<MsgId, SubModel>,
    r: Result<(), Error>,
) -> bool {
    if !frame_wellformed(data) {
        post == pre && r == Result::<(), Error>::Err(Error::UnexpectedMessageFormat)
    } else {
        let k = spec_frame_kind(data);
        let fid = spec_frame_id(data);
        let cur = spec_frame_cursor(data);
        let routed_map = if k == Kind::Continue && cur.len() > 0 {
            apply_cursor(pre, fid, cur)
        } else {
            pre
        };
        &&& (k == Kind::Start ==> post == pre && r is Ok)
        &&& (k == Kind::End ==> post == pre.remove(fid) && r is Ok)
        &&& (k != Kind::Start && k != Kind::End ==> {
            &&& (!routed_map.dom().contains(fid) ==> post == routed_map && r is Ok)
            &&& (r is Ok ==> post == routed_map)
            &&& (r is Err ==> post == routed_map.remove(fid) && routed_map.dom().contains(fid)
                && r->Err_0 is Custom)
        })
    }
}

/// The session: registry plus connection state machine. The sole owner of
/// the socket's logic; all registry mutation happens through it.
pub struct Session {
    registry: Registry,
    conn: ConnState,
    max_attempts: u32,
}

impl Session {
    /// The registered subscriptions, by logical id.
    pub closed spec fn subs(&self) -> Map<MsgId, SubModel> {
        self.registry@
    }

    /// The registered subscriptions, in storage order.
    pub closed spec fn sub_entries(&self) -> Seq<SubModel> {
        self.registry.entries()
    }

    /// Where the connection stands.
    pub closed spec fn conn_state(&self) -> ConnState {
        self.conn
    }

    /// The configured reconnect budget.
    pub closed spec fn spec_max_attempts(&self) -> u32 {
        self.max_attempts
    }

    /// Well-formedness: distinct ids, and every entry one the session can
    /// hold.
    pub closed spec fn inv(&self) -> bool {
        &&& self.registry.wf()
        &&& models_ok(self.registry@)
    }

    /// A fresh session on a just-opened connection.
    pub fn new(max_attempts: u32) -> (r: Session)
        ensures
            r.inv(),
            r.subs() == Map::<MsgId, SubModel>::empty(),
            r.conn_state() == ConnState::Connected,
            r.spec_max_attempts() == max_attempts,
    {
        Session { registry: Registry::new(), conn: ConnState::Connected, max_attempts }
    }

    /// How many subscriptions are open.
    pub fn subscription_count(&self) -> (r: usize)
        requires
            self.inv(),
        ensures
            r == self.subs().dom().len(),
            r == self.sub_entries().len(),
    {
        self.registry.count()
    }

    /// Whether a subscription with this id is registered.
    pub fn has_subscription(&self, id: MsgId) -> (r: bool)
        ensures
            r == self.subs().dom().contains(id),
    {
        self.registry.contains(id)
    }

    /// Where the connection stands.
    pub fn connection(&self) -> (r: ConnState)
        ensures
            r == self.conn_state(),
    {
        self.conn
    }

    /// Whether the session has given up for good.
    pub fn is_failed(&self) -> (r: bool)
        ensures
            r == (self.conn_state() is Failed),
    {
        matches!(self.conn, ConnState::Failed)
    }

    /// Accepts one submission: registers the subscription and returns the
    /// frame to write, carrying the last cursor this id has observed (or
    /// none). The result also says whether an entry already carried the
    /// id — a caller error worth logging; the old entry's channel was
    /// closed and replaced.
    pub fn submit(
        &mut self,
        id: MsgId,
        operation: Operation,
        format: Format,
        deltas: bool,
        sink: futures::channel::mpsc::UnboundedSender<WsResult>,
    ) -> (r: (Vec<u8>, bool))
        requires
            old(self).inv(),
            operation_valid(operation),
        ensures
            final(self).inv(),
            final(self).conn_state() == old(self).conn_state(),
            final(self).subs() == old(self).subs().insert(
                id,
                SubModel {
                    id,
                    op: operation,
                    format,
                    deltas,
                    init_cursor: spec_submit_cursor(old(self).subs(), id),
                    cursor: Option::None,
                },
            ),
            r.0@ == spec_frame_parts(
                Kind::Subscription,
                id,
                0,
                format,
                deltas,
                spec_submit_cursor(old(self).subs(), id),
                spec_encode_operation(operation),
            ),
            r.1 == old(self).subs().dom().contains(id),
    {
        let cursor = self.registry.submit_cursor(id);
        let cursor_copy = slice_to_vec(cursor.as_slice());
        proof {
            if self.registry@.dom().contains(id) {
                assert(model_ok(self.registry@[id]));
            }
            lemma_encode_operation_len(operation);
        }
        let payload = encode_operation(&operation);
        let header = Header { kind: Kind::Subscription, id, counter: 0, format, deltas, cursor };
        let frame = encode_frame(&header, payload.as_slice());
        proof {
            lemma_frame_parts_agree(header, payload@);
        }
        let replaced = self.registry.register(
            id,
            operation,
            format,
            deltas,
            cursor_copy,
            sink,
        );
        proof {
            assert forall|k: MsgId| #[trigger]
                self.registry@.dom().contains(k) implies model_ok(self.registry@[k]) by {
                if k != id {
                    assert(old(self).subs().dom().contains(k));
                }
            }
        }
        (frame, replaced)
    }

    /// Records that writing a submission's frame failed: the subscription
    /// just created is dropped and its channel closed, which the caller
    /// observes as the backend being unavailable. The connection state is
    /// untouched — reconnection is triggered by the read side.
    pub fn send_failed(&mut self, id: MsgId)
        requires
            old(self).inv(),
        ensures
            final(self).inv(),
            final(self).conn_state() == old(self).conn_state(),
            final(self).subs() == old(self).subs().remove(id),
    {
        self.registry.complete(id);
        proof {
            assert forall|k: MsgId| #[trigger]
                self.registry@.dom().contains(k) implies model_ok(self.registry@[k]) by {
                assert(old(self).subs().dom().contains(k));
            }
        }
    }

    /// Routes one already-classified message to a subscription.
    fn route_msg(&mut self, id: MsgId, msg: WsResult) -> (r: Result<(), Error>)
        requires
            old(self).inv(),
        ensures
            final(self).inv(),
            final(self).conn_state() == old(self).conn_state(),
            !old(self).subs().dom().contains(id) ==> final(self).subs() == old(self).subs()
                && r is Ok,
            r is Ok ==> final(self).subs() == old(self).subs(),
            r is Err ==> final(self).subs() == old(self).subs().remove(id) && old(self).subs().dom().contains(id) && r->Err_0 is Custom,
    {
        let outcome = self.registry.route(id, msg);
        proof {
            assert forall|k: MsgId| #[trigger]
                self.registry@.dom().contains(k) implies model_ok(self.registry@[k]) by {
                assert(old(self).subs().dom().contains(k));
            }
        }
        match outcome {
            crate::registry::RouteOutcome::Delivered => Ok(()),
            crate::registry::RouteOutcome::NoEntry => Ok(()),
            crate::registry::RouteOutcome::Dropped => Err(
                Error::Custom("failed to send message: receiver dropped".to_owned()),
            ),
        }
    }

    /// Handles one binary frame from the socket: decodes it, updates the
    /// cursor on a `Continue` that carries one, completes the subscription
    /// on `End`, and forwards payloads and server errors to the right
    /// subscription. A malformed frame is dropped with an error for this
    /// iteration only; the connection and every subscription stay as they
    /// were.
    pub fn handle_frame(&mut self, data: &[u8]) -> (r: Result<(), Error>)
        requires
            old(self).inv(),
        ensures
            final(self).inv(),
            final(self).conn_state() == old(self).conn_state(),
            frame_transition(old(self).subs(), data@, final(self).subs(), r),
    {
        let decoded = decode_frame(data);
        match decoded {
            None => Err(Error::UnexpectedMessageFormat),
            Some((header, payload)) => {
                let id = header.id;
                match header.kind {
                    Kind::Start => Ok(()),
                    Kind::End => {
                        self.registry.complete(id);
                        proof {
                            assert forall|k: MsgId| #[trigger]
                                self.registry@.dom().contains(k) implies model_ok(
                                self.registry@[k],
                            ) by {
                                assert(old(self).subs().dom().contains(k));
                            }
                        }
                        Ok(())
                    },
                    Kind::Continue => {
                        if header.cursor.len() > 0 {
                            self.registry.update_cursor(id, header.cursor);
                            proof {
                                assert forall|k: MsgId| #[trigger]
                                    self.registry@.dom().contains(k) implies model_ok(
                                    self.registry@[k],
                                ) by {
                                    assert(old(self).subs().dom().contains(k));
                                }
                            }
                        }
                        self.route_msg(id, Ok(payload))
                    },
                    Kind::ContinueWithError => {
                        let msg = classify_error_payload(payload);
                        self.route_msg(id, msg)
                    },
                    Kind::Error => {
                        let msg: WsResult = match bytes_to_string(payload) {
                            Some(s) => Err(Error::ErrorMsg(s)),
                            None => Err(Error::UnexpectedMessageFormat),
                        };
                        self.route_msg(id, msg)
                    },
                    Kind::Subscription => {
                        self.route_msg(id, Err(Error::UnexpectedMessageFormat))
                    },
                }
            },
        }
    }

    /// Handles one socket message: answers pings, ignores pongs and raw
    /// frames, reports text and close as unexpected, and treats binary
    /// frames as `handle_frame` does.
    pub fn handle_message(&mut self, ev: MessageEvent) -> (r: Result<MessageReply, Error>)
        requires
            old(self).inv(),
        ensures
            final(self).inv(),
            final(self).conn_state() == old(self).conn_state(),
            match ev {
                MessageEvent::Text => final(self).subs() == old(self).subs() && r == Result::<
                    MessageReply,
                    Error,
                >::Err(Error::UnexpectedMessage),
                MessageEvent::Close => final(self).subs() == old(self).subs() && r == Result::<
                    MessageReply,
                    Error,
                >::Err(Error::UnexpectedClose),
                MessageEvent::Pong => final(self).subs() == old(self).subs() && r == Result::<
                    MessageReply,
                    Error,
                >::Ok(MessageReply::Ignore),
                MessageEvent::Raw => final(self).subs() == old(self).subs() && r == Result::<
                    MessageReply,
                    Error,
                >::Ok(MessageReply::Ignore),
                MessageEvent::Ping(p) => final(self).subs() == old(self).subs() && r == Result::<
                    MessageReply,
                    Error,
                >::Ok(MessageReply::Pong(p)),
                MessageEvent::Binary(data) => {
                    &&& (r matches Err(e) ==> frame_transition(
                        old(self).subs(),
                        data@,
                        final(self).subs(),
                        Result::<(), Error>::Err(e),
                    ))
                    &&& (r matches Ok(reply) ==> reply == MessageReply::Ignore && frame_transition(
                        old(self).subs(),
                        data@,
                        final(self).subs(),
                        Result::<(), Error>::Ok(()),
                    ))
                },
            },
    {
        match ev {
            MessageEvent::Text => Err(Error::UnexpectedMessage),
            MessageEvent::Close => Err(Error::UnexpectedClose),
            MessageEvent::Pong => Ok(MessageReply::Ignore),
            MessageEvent::Raw => Ok(MessageReply::Ignore),
            MessageEvent::Ping(p) => Ok(MessageReply::Pong(p)),
            MessageEvent::Binary(data) => {
                match self.handle_frame(data.as_slice()) {
                    Ok(()) => Ok(MessageReply::Ignore),
                    Err(e) => Err(e),
                }
            },
        }
    }

    /// Notes that the read side observed a closed or errored socket:
    /// reconnection begins. No subscription is touched.
    pub fn on_disconnect(&mut self)
        requires
            old(self).inv(),
        ensures
            final(self).inv(),
            final(self).subs() == old(self).subs(),
            final(self).sub_entries() == old(self).sub_entries(),
            final(self).conn_state() == (ConnState::Reconnecting { attempts: 0 }),
            final(self).spec_max_attempts() == old(self).spec_max_attempts(),
    {
        self.conn = ConnState::Reconnecting { attempts: 0 };
    }

    /// Notes one failed reconnect attempt. When the budget is exhausted
    /// the session fails for good: every subscription's channel is closed
    /// and later submissions see the backend as shut down.
    pub fn reconnect_failed(&mut self) -> (give_up: bool)
        requires
            old(self).inv(),
            old(self).conn_state() matches ConnState::Reconnecting { .. },
        ensures
            final(self).inv(),
            final(self).spec_max_attempts() == old(self).spec_max_attempts(),
            give_up == (old(self).conn_state()->Reconnecting_attempts + 1
                >= old(self).spec_max_attempts()),
            !give_up ==> final(self).subs() == old(self).subs() && final(self).sub_entries()
                == old(self).sub_entries() && final(self).conn_state() == (ConnState::Reconnecting {
                attempts: (old(self).conn_state()->Reconnecting_attempts + 1) as u32,
            }),
            give_up ==> final(self).subs() == Map::<MsgId, SubModel>::empty() && final(self).conn_state() == ConnState::Failed,
    {
        let attempts = match self.conn {
            ConnState::Reconnecting { attempts } => attempts,
            _ => 0,
        };
        if self.max_attempts == 0 || attempts >= self.max_attempts - 1 {
            self.registry.close_all();
            self.conn = ConnState::Failed;
            proof {
                assert(models_ok(self.registry@));
            }
            true
        } else {
            self.conn = ConnState::Reconnecting { attempts: attempts + 1 };
            false
        }
    }

    /// Notes a successful reconnect and returns, for every still-open
    /// subscription, the frame that resumes it: its retained operation
    /// with its last-acknowledged cursor (or the one captured at subscribe
    /// time). Exactly one frame per subscription, in registration order;
    /// no entry is removed or altered by reconnection alone.
    pub fn on_reconnected(&mut self) -> (frames: Vec<Vec<u8>>)
        requires
            old(self).inv(),
        ensures
            final(self).inv(),
            final(self).subs() == old(self).subs(),
            final(self).sub_entries() == old(self).sub_entries(),
            final(self).conn_state() == ConnState::Connected,
            final(self).spec_max_attempts() == old(self).spec_max_attempts(),
            frames@.len() == old(self).sub_entries().len(),
            forall|i: int|
                0 <= i < frames@.len() ==> frames@[i]@ == spec_request_frame(
                    old(self).sub_entries()[i],
                    spec_replay_cursor(old(self).sub_entries()[i]),
                ),
    {
        let n = self.registry.count();
        let mut frames: Vec<Vec<u8>> = Vec::new();
        let mut i: usize = 0;
        while i < n
            invariant
                self == old(self),
                self.inv(),
                0 <= i <= n == self.sub_entries().len(),
                frames@.len() == i,
                forall|j: int|
                    0 <= j < i ==> frames@[j]@ == spec_request_frame(
                        self.sub_entries()[j],
                        spec_replay_cursor(self.sub_entries()[j]),
                    ),
            decreases n - i,
        {
            let sub = self.registry.sub_at(i);
            proof {
                self.registry.lemma_entry_in_map(i as int);
                assert(model_ok(self.registry@[self.registry.entries()[i as int].id]));
                lemma_encode_operation_len(sub.operation);
            }
            let payload = encode_operation(&sub.operation);
            let cursor: Vec<u8> = match &sub.last_cursor {
                Some(c) => slice_to_vec(c.as_slice()),
                None => slice_to_vec(sub.initial_cursor.as_slice()),
            };
            let header = Header {
                kind: Kind::Subscription,
                id: sub.id,
                counter: 0,
                format: sub.format,
                deltas: sub.deltas,
                cursor,
            };
            let frame = encode_frame(&header, payload.as_slice());
            proof {
                lemma_frame_parts_agree(header, payload@);
            }
            frames.push(frame);
            i = i + 1;
        }
        self.conn = ConnState::Connected;
        frames
    }
}

/// Classifies the payload of a `ContinueWithError` frame, as it is
/// forwarded to the subscription: a structured `{status, error}` body
/// becomes a typed server error; other readable text becomes a generic
/// message; anything else is reported as malformed.
pub fn classify_error_payload(payload: Vec<u8>) -> (r: WsResult)
    ensures
        r is Err,
        payload@.len() > 0 && payload@[0] == 123 ==> {
            if spec_error_body(payload@) is Some && valid_utf8(spec_error_body(payload@)->Some_0.1) {
                r matches Err(Error::ErrorResponse(re)) && re.status as int == spec_error_body(
                    payload@,
                )->Some_0.0 && re.error@ == decode_utf8(spec_error_body(payload@)->Some_0.1)
            } else {
                r == Result::<Vec<u8>, Error>::Err(Error::UnexpectedMessageFormat)
            }
        },
        !(payload@.len() > 0 && payload@[0] == 123) ==> {
            if valid_utf8(payload@) {
                r matches Err(Error::ErrorMsg(s)) && s@ == decode_utf8(payload@)
            } else {
                r == Result::<Vec<u8>, Error>::Err(Error::UnexpectedMessageFormat)
            }
        },
{
    let starts_object = payload.len() > 0 && payload[0] == 123;
    if starts_object {
        match ResponseError::parse(payload.as_slice()) {
            Some(re) => Err(Error::ErrorResponse(re)),
            None => Err(Error::UnexpectedMessageFormat),
        }
    } else {
        match bytes_to_string(payload) {
            Some(s) => Err(Error::ErrorMsg(s)),
            None => Err(Error::UnexpectedMessageFormat),
        }
    }
}

} // verus!
