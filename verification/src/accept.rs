//! The accept loop, as a state machine.
//!
//! The listening socket lives outside the library: its owner blocks on
//! accept, classifies what came back, and feeds the event in here.
//! `AcceptorState` decides whether to dispatch the connection, retry,
//! or stop, and keeps count of the handlers in flight so that the
//! configured scheduling mode is honoured: at most one at a time in
//! sequential mode, at most the pool bound in bounded concurrent mode.

use vstd::prelude::*;

use crate::config::ConcurrencyMode;
use crate::config::ListenerConfig;

verus! {

/// How serving ended.
#[derive(Clone, Copy, Debug, PartialEq, Eq, Structural)]
pub enum ServeOutcome {
    /// The listening socket was closed; an orderly end, not an error.
    Closed,
    /// An unrecoverable accept failure ended the loop.
    Fatal,
}

/// What one accept on the listening socket came to, classified.
#[derive(Clone, Copy, Debug, PartialEq, Eq, Structural)]
pub enum AcceptEvent {
    /// A connection was accepted.
    Incoming,
    /// A transient failure, e.g. resource temporarily unavailable.
    Transient,
    /// An unrecoverable failure of the listener.
    Fatal,
    /// The listening socket itself was closed.
    ClosedListener,
}

/// What the owner of the listening socket is told to do next.
#[derive(Clone, Copy, Debug, PartialEq, Eq, Structural)]
pub enum AcceptDecision {
    /// Hand the accepted connection to a handler.
    Dispatch,
    /// Note the transient failure and accept again.
    Retry,
    /// Leave the accept loop; `AcceptorState::done` says how it ended.
    Stop,
}

/// The failure kinds an accept may report, mirroring the operating
/// system's error kinds as far as the loop tells them apart.
#[derive(Clone, Copy, Debug, PartialEq, Eq, Structural)]
pub enum IoErrorKind {
    /// The operation would block.
    WouldBlock,
    /// The call was interrupted.
    Interrupted,
    /// The operation timed out.
    TimedOut,
    /// The connection was aborted before it was accepted.
    ConnectionAborted,
    /// The peer reset the connection.
    ConnectionReset,
    /// Any other failure.
    Other,
}

/// The accept failures the loop survives: per-connection or momentary
/// conditions, as opposed to a failure of the listener itself.
pub open spec fn is_transient_kind(kind: IoErrorKind) -> bool {
    ||| kind is WouldBlock
    ||| kind is Interrupted
    ||| kind is TimedOut
    ||| kind is ConnectionAborted
    ||| kind is ConnectionReset
}

/// Classify a failed accept.  A failure after the listening socket was
/// closed on purpose is the orderly end of the loop; otherwise a
/// transient kind is retried and anything else is fatal.
pub fn classify_accept_error(kind: IoErrorKind, listener_closed: bool) -> (event: AcceptEvent)
    ensures
        listener_closed ==> event is ClosedListener,
        !listener_closed && is_transient_kind(kind) ==> event is Transient,
        !listener_closed && !is_transient_kind(kind) ==> event is Fatal,
{
    if listener_closed {
        AcceptEvent::ClosedListener
    } else {
        match kind {
            IoErrorKind::WouldBlock => AcceptEvent::Transient,
            IoErrorKind::Interrupted => AcceptEvent::Transient,
            IoErrorKind::TimedOut => AcceptEvent::Transient,
            IoErrorKind::ConnectionAborted => AcceptEvent::Transient,
            IoErrorKind::ConnectionReset => AcceptEvent::Transient,
            IoErrorKind::Other => AcceptEvent::Fatal,
        }
    }
}

/// The accept loop's state: the configured scheduling mode, how many
/// handlers are in flight, and how the loop ended, once it has.
pub struct AcceptorState {
    /// The scheduling mode, copied from the configuration.
    pub mode: ConcurrencyMode,
    /// How many dispatched handlers have not returned yet.
    pub in_flight: usize,
    /// `None` while the loop runs; the outcome once it stopped.
    pub done: Option<ServeOutcome>,
}

impl AcceptorState {
    /// What the count always satisfies when the state is driven
    /// through `new`, `on_event` and `handler_returned`: sequential
    /// mode never has two handlers in flight, and a bounded pool never
    /// exceeds its bound.
    pub open spec fn wf(self) -> bool {
        &&& (self.mode is Sequential ==> self.in_flight <= 1)
        &&& (self.mode matches ConcurrencyMode::Concurrent { pool_bound: Some(b) }
            ==> self.in_flight <= b)
    }

    /// Whether a newly accepted connection may be dispatched now:
    /// the loop still runs, and the scheduling mode has room —
    /// sequential mode only with no handler in flight, a bounded pool
    /// only below its bound.
    pub open spec fn can_dispatch(self) -> bool {
        &&& self.done is None
        &&& self.in_flight < usize::MAX
        &&& (self.mode is Sequential ==> self.in_flight == 0)
        &&& (self.mode matches ConcurrencyMode::Concurrent { pool_bound: Some(b) }
            ==> self.in_flight < b)
    }

    /// A fresh accept loop for a configuration: running, nothing in
    /// flight.
    pub fn new(config: &ListenerConfig) -> (s: AcceptorState)
        ensures
            s.wf(),
            s.mode == config.mode,
            s.in_flight == 0,
            s.done is None,
    {
        AcceptorState { mode: config.mode, in_flight: 0, done: None }
    }

    /// Whether a connection accepted now may be dispatched; in
    /// sequential or bounded mode the owner of the socket waits for
    /// `handler_returned` before accepting when this is false.
    pub fn may_dispatch(&self) -> (b: bool)
        ensures
            b == self.can_dispatch(),
    {
        if self.done.is_some() {
            return false;
        }
        if self.in_flight == usize::MAX {
            return false;
        }
        match self.mode {
            ConcurrencyMode::Sequential => self.in_flight == 0,
            ConcurrencyMode::Concurrent { pool_bound: Some(b) } => self.in_flight < b,
            ConcurrencyMode::Concurrent { pool_bound: None } => true,
        }
    }

    /// Take in one classified accept event.  An incoming connection is
    /// dispatched and counted; a transient failure leaves the state
    /// untouched and the loop retrying; a fatal failure or a closed
    /// listener stops the loop with the matching outcome, and handlers
    /// still in flight run to completion.
    pub fn on_event(&mut self, event: AcceptEvent) -> (decision: AcceptDecision)
        requires
            old(self).wf(),
            old(self).done is None,
            event is Incoming ==> old(self).can_dispatch(),
        ensures
            final(self).wf(),
            final(self).mode == old(self).mode,
            (event is Incoming ==> decision is Dispatch && final(self).in_flight == old(
                self,
            ).in_flight + 1 && final(self).done is None),
            (event is Transient ==> decision is Retry && *final(self) == *old(self)),
            (event is Fatal ==> decision is Stop && final(self).done == Some(ServeOutcome::Fatal)
                && final(self).in_flight == old(self).in_flight),
            (event is ClosedListener ==> decision is Stop && final(self).done == Some(
                ServeOutcome::Closed,
            ) && final(self).in_flight == old(self).in_flight),
    {
        match event {
            AcceptEvent::Incoming => {
                self.in_flight = self.in_flight + 1;
                AcceptDecision::Dispatch
            },
            AcceptEvent::Transient => AcceptDecision::Retry,
            AcceptEvent::Fatal => {
                self.done = Some(ServeOutcome::Fatal);
                AcceptDecision::Stop
            },
            AcceptEvent::ClosedListener => {
                self.done = Some(ServeOutcome::Closed);
                AcceptDecision::Stop
            },
        }
    }

    /// Note that one dispatched handler returned, successfully or not:
    /// a handler failure never reaches the accept loop.
    pub fn handler_returned(&mut self)
        requires
            old(self).wf(),
            old(self).in_flight >= 1,
        ensures
            final(self).wf(),
            final(self).in_flight == old(self).in_flight - 1,
            final(self).mode == old(self).mode,
            final(self).done == old(self).done,
    {
        self.in_flight = self.in_flight - 1;
    }
}

/// Law (sequential exclusion): in sequential mode no second connection
/// is dispatched while a handler is in flight — the next client is
/// accepted strictly after the first handler has returned.
pub proof fn lemma_sequential_excludes_overlap(s: AcceptorState)

    requires
        s.mode is Sequential,
        s.in_flight >= 1,
    ensures
        !s.can_dispatch(),
{
}

/// Law (sequential exclusion, invariant form): a well-formed
/// sequential acceptor never has two handlers in flight.
pub proof fn lemma_sequential_at_most_one(s: AcceptorState)
    requires
        s.wf(),
        s.mode is Sequential,
    ensures
        s.in_flight <= 1,
{
}

/// Law (sequential exclusion, step form): in sequential mode a
/// dispatch makes a second dispatch impossible until the dispatched
/// handler has returned.
pub proof fn lemma_sequential_second_accept_waits(pre: AcceptorState, post: AcceptorState)
    requires
        pre.mode is Sequential,
        pre.can_dispatch(),
        post.mode == pre.mode,
        post.in_flight == pre.in_flight + 1,
    ensures
        !post.can_dispatch(),
{
}

/// Law (concurrent overlap): in unbounded concurrent mode a running
/// acceptor may dispatch a second connection while one handler is
/// still in flight, so two connections can be mid-handler at once.
pub proof fn lemma_concurrent_allows_overlap(s: AcceptorState)
    requires
        s.mode matches ConcurrencyMode::Concurrent { pool_bound: None },
        s.done is None,
        s.in_flight == 1,
    ensures
        s.can_dispatch(),
{
}

/// Law (bounded pool): with a bounded pool, a saturated acceptor
/// dispatches nothing until a handler returns.
pub proof fn lemma_bounded_pool_blocks(s: AcceptorState, bound: usize)
    requires
        s.mode == (ConcurrencyMode::Concurrent { pool_bound: Some(bound) }),
        s.in_flight >= bound,
    ensures
        !s.can_dispatch(),
{
}

} // verus!
