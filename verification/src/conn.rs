//! Lifecycle of one accepted connection.
//!
//! A `Connection` walks the phases
//! `Accepted -> Reading -> {Responding | Failed} -> Closed`.
//! The socket itself lives outside the library: each step here returns
//! a `ConnAction` telling the owner of the socket what to do next, and
//! the owner reports back what the read or write came to.  `Closed` is
//! absorbing, and only the very first step may ask for a read: once a
//! read has failed or timed out, a connection is never read again.

use vstd::prelude::*;

use crate::config::ListenerConfig;
use crate::config::compute_response;
use crate::config::response_of;
use crate::decode::decode_request;
use crate::decode::lossy_decode;

verus! {

/// Why handling one connection failed.
#[derive(Clone, Copy, Debug, PartialEq, Eq, Structural)]
pub enum HandlerError {
    /// No bytes arrived within the configured read deadline.
    ReadTimeout,
    /// The read itself failed.
    ReadError,
    /// The write failed, e.g. because the peer already disconnected.
    WriteError,
}

/// Where a connection stands in its lifecycle.
#[derive(Clone, Copy, Debug, PartialEq, Eq, Structural)]
pub enum ConnPhase {
    /// Just accepted; nothing read yet.
    Accepted,
    /// Waiting for the request bytes.
    Reading,
    /// Request read and decoded; the response is being written.
    Responding,
    /// Aborted by a read or write failure; carries its error.
    Failed,
    /// Serviced or abandoned; terminal.
    Closed,
}

/// What one read of the socket came to.
pub enum ReadOutcome {
    /// The bytes that arrived; a short or empty read is a complete
    /// request of the bytes actually received.
    Received(Vec<u8>),
    /// No bytes arrived before the read deadline.
    TimedOut,
    /// The read failed.
    Failed,
}

/// What the write of the response came to.
pub enum WriteOutcome {
    /// The whole response was written.
    Written,
    /// The write failed.
    Failed,
}

/// What the owner of the socket is asked to do next.
pub enum ConnAction {
    /// Read up to the configured buffer size, honouring the read
    /// deadline, and report a `ReadOutcome`.
    Read,
    /// Write these bytes in full and report a `WriteOutcome`.
    Write(Vec<u8>),
    /// Close the socket.
    Close,
}

/// The steps a connection may take, with the action each one hands
/// out.  `Failed` and `Closed` take no further action-bearing step.
pub open spec fn conn_transition(pre: ConnPhase, post: ConnPhase, action: ConnAction) -> bool {
    match pre {
        ConnPhase::Accepted => post is Reading && action is Read,
        ConnPhase::Reading => (post is Responding && action is Write) || (post is Failed
            && action is Close),
        ConnPhase::Responding => (post is Closed || post is Failed) && action is Close,
        ConnPhase::Failed => false,
        ConnPhase::Closed => false,
    }
}

/// The lifecycle order of the phases: every step moves a connection
/// forward along `Accepted -> Reading -> {Responding | Failed} ->
/// Closed`, and nothing leaves `Closed`.
pub open spec fn phase_next(pre: ConnPhase, post: ConnPhase) -> bool {
    match pre {
        ConnPhase::Accepted => post is Reading,
        ConnPhase::Reading => post is Responding || post is Failed,
        ConnPhase::Responding => post is Closed || post is Failed,
        ConnPhase::Failed => post is Closed,
        ConnPhase::Closed => false,
    }
}

/// One accepted connection: its peer, its lifecycle phase, the request
/// it carried, and the error that ended it early, if one did.
pub struct Connection {
    /// Textual address of the peer.
    pub peer: String,
    /// Where the connection stands.
    pub phase: ConnPhase,
    /// The request bytes, once read.
    pub request: Option<Vec<u8>>,
    /// The request decoded as UTF-8 with lossy substitution.
    pub decoded: Option<String>,
    /// The failure that aborted the connection, if any.
    pub error: Option<HandlerError>,
}

impl Connection {
    /// What every phase guarantees of the fields: before the read
    /// nothing is recorded, a responding connection carries its
    /// decoded request, and a failed one carries its error.
    pub open spec fn wf(self) -> bool {
        &&& (self.phase is Accepted || self.phase is Reading ==> self.request is None
            && self.decoded is None && self.error is None)
        &&& (self.phase is Responding ==> self.request is Some && self.decoded is Some
            && self.error is None && self.decoded->0@ == lossy_decode(self.request->0@))
        &&& (self.phase is Failed ==> self.error is Some)
    }

    /// A freshly accepted connection: phase `Accepted`, nothing read.
    pub fn accept(peer: String) -> (c: Connection)
        ensures
            c.wf(),
            c.peer == peer,
            c.phase is Accepted,
            c.request is None,
            c.decoded is None,
            c.error is None,
    {
        Connection { peer, phase: ConnPhase::Accepted, request: None, decoded: None, error: None }
    }

    /// Start servicing: the one step that asks for a read.
    pub fn begin(&mut self) -> (action: ConnAction)
        requires
            old(self).wf(),
            old(self).phase is Accepted,
        ensures
            final(self).wf(),
            conn_transition(old(self).phase, final(self).phase, action),
            final(self).phase is Reading,
            action is Read,
            final(self).peer == old(self).peer,
            final(self).request == old(self).request,
            final(self).decoded == old(self).decoded,
            final(self).error == old(self).error,
    {
        self.phase = ConnPhase::Reading;
        ConnAction::Read
    }

    /// Take in what the read came to; the caller reads at most
    /// `config.read_buffer_size` bytes.  Received bytes — the full
    /// buffer, a short read, or none at all — are the complete
    /// request: they are decoded, the response owed under the
    /// configured payload is computed, and the connection turns to
    /// writing it.  A timeout or read failure aborts the connection
    /// with the matching error, and the socket is to be closed.
    pub fn on_read(&mut self, config: &ListenerConfig, outcome: ReadOutcome) -> (action:
        ConnAction)
        requires
            old(self).wf(),
            old(self).phase is Reading,
            (outcome matches ReadOutcome::Received(bytes) ==> bytes@.len()
                <= config.read_buffer_size),
        ensures
            final(self).wf(),
            conn_transition(old(self).phase, final(self).phase, action),
            final(self).peer == old(self).peer,
            (match outcome {
                ReadOutcome::Received(bytes) => {
                    &&& final(self).phase is Responding
                    &&& final(self).request == Some(bytes)
                    &&& (final(self).decoded matches Some(d) && d@ == lossy_decode(bytes@))
                    &&& final(self).error is None
                    &&& (action matches ConnAction::Write(r) && r@ == response_of(
                        config.payload,
                        bytes@,
                    ))
                },
                ReadOutcome::TimedOut => {
                    &&& final(self).phase is Failed
                    &&& final(self).error == Some(HandlerError::ReadTimeout)
                    &&& action is Close
                },
                ReadOutcome::Failed => {
                    &&& final(self).phase is Failed
                    &&& final(self).error == Some(HandlerError::ReadError)
                    &&& action is Close
                },
            }),
            (outcome matches ReadOutcome::Received(bytes) && bytes@.len() == 0 ==> (final(self).decoded matches Some(d) && d@.len() == 0)),
    {
        match outcome {
            ReadOutcome::Received(bytes) => {
                let decoded = decode_request(&bytes);
                let response = compute_response(&config.payload, &bytes);
                self.request = Some(bytes);
                self.decoded = Some(decoded);
                self.phase = ConnPhase::Responding;
                ConnAction::Write(response)
            },
            ReadOutcome::TimedOut => {
                self.phase = ConnPhase::Failed;
                self.error = Some(HandlerError::ReadTimeout);
                ConnAction::Close
            },
            ReadOutcome::Failed => {
                self.phase = ConnPhase::Failed;
                self.error = Some(HandlerError::ReadError);
                ConnAction::Close
            },
        }
    }

    /// Take in what the write came to.  A full write closes the
    /// connection serviced; a failed write aborts it with
    /// `WriteError`.  Either way the socket is to be closed, and
    /// there is no retry.
    pub fn on_write(&mut self, outcome: WriteOutcome) -> (action: ConnAction)
        requires
            old(self).wf(),
            old(self).phase is Responding,
        ensures
            final(self).wf(),
            conn_transition(old(self).phase, final(self).phase, action),
            final(self).peer == old(self).peer,
            final(self).request == old(self).request,
            final(self).decoded == old(self).decoded,
            action is Close,
            (outcome is Written ==> final(self).phase is Closed && final(self).error is None),
            (outcome is Failed ==> final(self).phase is Failed && final(self).error == Some(
                HandlerError::WriteError,
            )),
    {
        match outcome {
            WriteOutcome::Written => {
                self.phase = ConnPhase::Closed;
                ConnAction::Close
            },
            WriteOutcome::Failed => {
                self.phase = ConnPhase::Failed;
                self.error = Some(HandlerError::WriteError);
                ConnAction::Close
            },
        }
    }

    /// Settle the connection's record once the socket is closed: a
    /// failed connection moves to `Closed` and yields its error, a
    /// serviced one stays as it is and yields `Ok`.
    pub fn finish(&mut self) -> (r: Result<(), HandlerError>)
        requires
            old(self).wf(),
            old(self).phase is Failed || old(self).phase is Closed,
        ensures
            final(self).wf(),
            final(self).phase is Closed,
            final(self).peer == old(self).peer,
            final(self).request == old(self).request,
            final(self).decoded == old(self).decoded,
            final(self).error == old(self).error,
            (old(self).phase is Closed ==> *final(self) == *old(self) && r is Ok),
            (old(self).phase is Failed ==> phase_next(old(self).phase, final(self).phase) && r
                == Err::<(), HandlerError>(old(self).error->0)),
    {
        match self.phase {
            ConnPhase::Closed => Ok(()),
            _ => {
                self.phase = ConnPhase::Closed;
                match self.error {
                    Some(e) => Err(e),
                    // a failed connection always carries its error
                    None => Ok(()),
                }
            },
        }
    }
}

/// Law: `Closed` is terminal — no step, with or without an action,
/// leaves it, so every connection reaches `Closed` at most once.
pub proof fn lemma_closed_is_terminal(post: ConnPhase, action: ConnAction)
    ensures
        !conn_transition(ConnPhase::Closed, post, action),
        !phase_next(ConnPhase::Closed, post),
{
}

/// Law: a read is asked for only from `Accepted` — after a read error,
/// a timeout or a write, no step of a connection reads again.
pub proof fn lemma_read_only_from_accepted(pre: ConnPhase, post: ConnPhase, action: ConnAction)
    requires
        conn_transition(pre, post, action),
        action is Read,
    ensures
        pre is Accepted,
{
}

/// Law: every action-bearing step follows the lifecycle order
/// `Accepted -> Reading -> {Responding | Failed} -> Closed`.
pub proof fn lemma_transition_follows_lifecycle(pre: ConnPhase, post: ConnPhase, action: ConnAction)
    requires
        conn_transition(pre, post, action),
    ensures
        phase_next(pre, post),
{
}

/// Law: every phase but `Closed` has a next phase, so an accepted
/// connection is never stuck short of `Closed`.
pub proof fn lemma_open_phase_advances(pre: ConnPhase)
    requires
        !(pre is Closed),
    ensures
        exists|post: ConnPhase| phase_next(pre, post),
{
    match pre {
        ConnPhase::Accepted => {
            assert(phase_next(pre, ConnPhase::Reading));
        },
        ConnPhase::Reading => {
            assert(phase_next(pre, ConnPhase::Responding));
        },
        ConnPhase::Responding => {
            assert(phase_next(pre, ConnPhase::Closed));
        },
        ConnPhase::Failed => {
            assert(phase_next(pre, ConnPhase::Closed));
        },
        ConnPhase::Closed => {
        },
    }
}

} // verus!
