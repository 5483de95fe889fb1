//! Per-connection session: the state machine that gates event delivery
//! through a client-supplied filter and enforces the liveness policy.
//!
//! The surrounding program owns the connection and the timer; it feeds every
//! inbound message and every timer tick into the session and carries out what
//! the session decides (send a probe, send a reply, push an event, close).

use vstd::prelude::*;
use crate::json::JsonField;
use crate::json::JsonFieldV;
use crate::json::doc_view;
use crate::json::json_doc_of;
use crate::json::parse_json_obj;

verus! {

/// How often a liveness probe is sent while a session is active.
pub const HEARTBEAT_INTERVAL_MS: u64 = 5000;

/// How long a session may go without an inbound signal before it is closed.
pub const CLIENT_TIMEOUT_MS: u64 = 15000;

/// A client-configurable predicate over one event domain, replaceable
/// wholesale from a JSON document the client sends.
pub trait EventFilter<E>: View + Sized {
    /// Whether the filter lets an event through.
    spec fn spec_matches(&self, event: &E) -> bool;

    /// What decoding a parsed filter document yields.
    spec fn spec_from_doc(d: Seq<JsonFieldV>) -> Option<Self::V>;

    /// Decide whether an event passes this filter.
    fn matches(&self, event: &E) -> (r: bool)
        ensures
            r == self.spec_matches(event),
    ;

    /// Decode a parsed filter document.
    fn from_doc(d: &Vec<JsonField>) -> (r: Option<Self>)
        ensures
            r is Some <==> Self::spec_from_doc(doc_view(d@)) is Some,
            (r matches Some(f) ==> Self::spec_from_doc(doc_view(d@)) == Some(f@)),
    ;
}

/// What a filter-update text yields: parse the JSON, then decode the filter.
pub open spec fn spec_filter_update<E, F: EventFilter<E>>(text: Seq<char>) -> Option<F::V> {
    match json_doc_of(text) {
        Some(d) => F::spec_from_doc(d),
        None => None,
    }
}

/// The life of one connection.
#[derive(Clone, Copy, PartialEq, Eq, Structural, Debug)]
pub enum SessionState {
    Starting,
    Active,
    Closing,
    Terminated,
}

/// One inbound client message, already classified by the transport: a
/// liveness probe, a probe reply, a text payload, or anything else.
pub enum ClientMessage {
    Ping,
    Pong,
    Text(String),
    Other,
}

/// One client's live connection: its state, the time of its last inbound
/// signal, and its current filter (none means "match everything").
pub struct EventWebSocket<E, F: EventFilter<E>> {
    pub state: SessionState,
    pub last_heartbeat: u64,
    pub filter: Option<F>,
    pub marker: core::marker::PhantomData<E>,
}

impl<E, F: EventFilter<E>> EventWebSocket<E, F> {
    /// A session as it becomes active: no filter yet, last signal now.
    pub fn start(now_ms: u64) -> (s: Self)
        ensures
            s.state == SessionState::Active,
            s.last_heartbeat == now_ms,
            s.filter is None,
    {
        EventWebSocket {
            state: SessionState::Active,
            last_heartbeat: now_ms,
            filter: None,
            marker: core::marker::PhantomData,
        }
    }

    /// One periodic liveness check: an active session more than
    /// `CLIENT_TIMEOUT_MS` past its last inbound signal moves to closing,
    /// whether or not probes were sent before; an active session also asks
    /// for a probe to be sent.
    pub fn heartbeat_tick(&mut self, now_ms: u64) -> (probe: bool)
        ensures
            final(self).last_heartbeat == old(self).last_heartbeat,
            final(self).filter == old(self).filter,
            final(self).state == (if old(self).state == SessionState::Active && now_ms > old(
                self,
            ).last_heartbeat + CLIENT_TIMEOUT_MS {
                SessionState::Closing
            } else {
                old(self).state
            }),
            probe == (old(self).state == SessionState::Active),
    {
        let probe = self.state == SessionState::Active;
        if probe && now_ms > CLIENT_TIMEOUT_MS && self.last_heartbeat < now_ms
            - CLIENT_TIMEOUT_MS {
            self.state = SessionState::Closing;
        }
        probe
    }

    /// One inbound client message. Any recognized message refreshes the last
    /// inbound signal. A text payload that parses and decodes as a filter
    /// replaces the session's filter wholesale; one that does not leaves the
    /// previous filter in place. An unrecognized message is a protocol
    /// violation and moves the session to closing. A probe is answered.
    pub fn on_client_message(&mut self, msg: &ClientMessage, now_ms: u64) -> (pong: bool)
        ensures
            final(self).state == (if msg is Other {
                SessionState::Closing
            } else {
                old(self).state
            }),
            final(self).last_heartbeat == (if msg is Other {
                old(self).last_heartbeat
            } else {
                now_ms
            }),
            (match msg {
                ClientMessage::Text(t) => match spec_filter_update::<E, F>(t@) {
                    Some(fv) => final(self).filter matches Some(f) && f@ == fv,
                    None => final(self).filter == old(self).filter,
                },
                _ => final(self).filter == old(self).filter,
            }),
            pong == (msg is Ping),
    {
        match msg {
            ClientMessage::Ping => {
                self.last_heartbeat = now_ms;
                true
            },
            ClientMessage::Pong => {
                self.last_heartbeat = now_ms;
                false
            },
            ClientMessage::Text(t) => {
                self.last_heartbeat = now_ms;
                match parse_json_obj(t.as_str()) {
                    Some(doc) => match F::from_doc(&doc) {
                        Some(f) => {
                            self.filter = Some(f);
                        },
                        None => {},
                    },
                    None => {},
                }
                false
            },
            ClientMessage::Other => {
                self.state = SessionState::Closing;
                false
            },
        }
    }

    /// Whether a dispatched event is pushed to this client: always when no
    /// filter is set, else exactly when the filter matches.
    pub fn should_deliver(&self, event: &E) -> (r: bool)
        ensures
            r == (match self.filter {
                Some(f) => f.spec_matches(event),
                None => true,
            }),
    {
        match &self.filter {
            Some(f) => f.matches(event),
            None => true,
        }
    }

    /// Final termination: the surrounding program unsubscribes the handle
    /// from the hub and releases the connection.
    pub fn close(&mut self)
        ensures
            final(self).state == SessionState::Terminated,
            final(self).filter == old(self).filter,
            final(self).last_heartbeat == old(self).last_heartbeat,
    {
        self.state = SessionState::Terminated;
    }
}

} // verus!
