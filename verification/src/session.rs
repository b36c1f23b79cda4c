//! Session management: the reaction to transport state-change events, the
//! single offer/answer negotiation of a session, and the registry that maps a
//! request path to its session with insert-on-create and remove-on-delete.
use crate::http::SessionError;
use crate::signal::ReadinessBarrier;
use crate::signal::TerminationSignal;
use vstd::prelude::*;

verus! {

/// ICE connection states as the transport engine reports them.
#[derive(Clone, Copy, PartialEq, Eq, Structural, Debug)]
pub enum IceConnectionState {
    New,
    Checking,
    Connected,
    Completed,
    Disconnected,
    Failed,
    Closed,
}

/// Peer/session states as the transport engine reports them.
#[derive(Clone, Copy, PartialEq, Eq, Structural, Debug)]
pub enum PeerConnectionState {
    New,
    Connecting,
    Connected,
    Disconnected,
    Failed,
    Closed,
}

/// One transport state-change observation.
#[derive(Clone, Copy, PartialEq, Eq, Structural, Debug)]
pub enum TransportEvent {
    Ice(IceConnectionState),
    Peer(PeerConnectionState),
}

/// Reaction of a session to one transport state-change event: ICE reaching
/// `Connected` releases the readiness barrier (idempotently, so repeated
/// reports release at most once); the peer session reaching `Failed` raises
/// the termination signal. No other event changes anything.
pub fn on_transport_event(
    barrier: &mut ReadinessBarrier,
    signal: &mut TerminationSignal,
    ev: TransportEvent,
)
    requires
        old(signal).wf(),
    ensures
        final(signal).wf(),
        ev == TransportEvent::Ice(IceConnectionState::Connected) ==> final(barrier).is_released(),
        ev != TransportEvent::Ice(IceConnectionState::Connected) ==> *final(barrier) == *old(
            barrier,
        ),
        old(barrier).is_released() ==> *final(barrier) == *old(barrier),
        ev == TransportEvent::Peer(PeerConnectionState::Failed) ==> final(signal).pending() == 1,
        ev != TransportEvent::Peer(PeerConnectionState::Failed) ==> *final(signal) == *old(signal),
        old(signal).pending() == 1 ==> *final(signal) == *old(signal),
{
    match ev {
        TransportEvent::Ice(s) => {
            if s == IceConnectionState::Connected {
                barrier.release();
            }
        },
        TransportEvent::Peer(s) => {
            if s == PeerConnectionState::Failed {
                signal.raise();
            }
        },
    }
}

/// Whether one transport observation triggers a barrier release.
pub open spec fn triggers_release(ev: TransportEvent) -> bool {
    ev == TransportEvent::Ice(IceConnectionState::Connected)
}

/// Over any sequence of transport state-change events, the readiness barrier
/// performs its armed-to-released transition at most once, however many times
/// the transport reports ICE `Connected`.
pub proof fn lemma_ice_releases_at_most_once(evs: Seq<TransportEvent>)
    ensures
        crate::signal::release_transitions(
            evs.map(|i: int, ev: TransportEvent| triggers_release(ev)),
        ) <= 1,
{
    crate::signal::lemma_barrier_releases_at_most_once(
        evs.map(|i: int, ev: TransportEvent| triggers_release(ev)),
    );
}

/// Phase of the one offer/answer exchange a session supports.
#[derive(Clone, Copy, PartialEq, Eq, Structural, Debug)]
pub enum NegotiationPhase {
    /// No offer has been applied yet.
    AwaitingOffer,
    /// The offer was accepted; the answer awaits candidate gathering.
    AnswerPending,
    /// The answer was returned; no renegotiation is supported.
    Finalized,
    /// Negotiation failed; the session is unusable.
    Failed,
}

/// The negotiation state of one session. A session performs exactly one
/// offer/answer exchange: a second exchange is refused, and a finalized or
/// failed session never returns to an earlier phase.
pub struct SessionNegotiation {
    phase: NegotiationPhase,
}

impl SessionNegotiation {
    /// The current phase.
    pub closed spec fn phase(self) -> NegotiationPhase {
        self.phase
    }

    /// A new session awaits its offer.
    pub fn new() -> (r: Self)
        ensures
            r.phase() == NegotiationPhase::AwaitingOffer,
    {
        SessionNegotiation { phase: NegotiationPhase::AwaitingOffer }
    }

    /// Starts the one offer/answer exchange. Succeeds only from the initial
    /// phase; any later attempt is refused and changes nothing, so at most
    /// one exchange ever begins.
    pub fn begin_exchange(&mut self) -> (r: Result<(), SessionError>)
        ensures
            r is Ok <==> old(self).phase() == NegotiationPhase::AwaitingOffer,
            r is Ok ==> final(self).phase() == NegotiationPhase::AnswerPending,
            r is Err ==> *final(self) == *old(self) && r == Err::<(), SessionError>(
                SessionError::AlreadyNegotiated,
            ),
    {
        match self.phase {
            NegotiationPhase::AwaitingOffer => {
                self.phase = NegotiationPhase::AnswerPending;
                Ok(())
            },
            _ => Err(SessionError::AlreadyNegotiated),
        }
    }

    /// Finishes the exchange once candidate gathering is complete, from the
    /// local description the transport then holds: with one present its text
    /// is the answer and the session is finalized; with none the session
    /// fails with a negotiation error. Outside the pending phase the call is
    /// refused and changes nothing.
    pub fn finalize(&mut self, local_description: Option<String>) -> (r: Result<
        String,
        SessionError,
    >)
        ensures
            old(self).phase() != NegotiationPhase::AnswerPending ==> *final(self) == *old(self)
                && r == Err::<String, SessionError>(SessionError::AlreadyNegotiated),
            old(self).phase() == NegotiationPhase::AnswerPending ==> (match local_description {
                Some(sdp) => r == Ok::<String, SessionError>(sdp) && final(self).phase()
                    == NegotiationPhase::Finalized,
                None => r == Err::<String, SessionError>(SessionError::NoLocalDescription)
                    && final(self).phase() == NegotiationPhase::Failed,
            }),
    {
        match self.phase {
            NegotiationPhase::AnswerPending => {
                match local_description {
                    Some(sdp) => {
                        self.phase = NegotiationPhase::Finalized;
                        Ok(sdp)
                    },
                    None => {
                        self.phase = NegotiationPhase::Failed;
                        Err(SessionError::NoLocalDescription)
                    },
                }
            },
            _ => Err(SessionError::AlreadyNegotiated),
        }
    }
}

/// What a negotiation observes over its life, for stating its guarantee.
#[derive(Clone, Copy, PartialEq, Eq, Structural, Debug)]
pub enum NegotiationOp {
    /// An offer arrived and an exchange was attempted.
    Begin,
    /// Gathering completed; the payload says whether a local description was
    /// present.
    Finalize(bool),
}

/// The phase transition each operation performs.
pub open spec fn negotiation_step(p: NegotiationPhase, op: NegotiationOp) -> NegotiationPhase {
    match op {
        NegotiationOp::Begin => if p == NegotiationPhase::AwaitingOffer {
            NegotiationPhase::AnswerPending
        } else {
            p
        },
        NegotiationOp::Finalize(present) => if p == NegotiationPhase::AnswerPending {
            if present {
                NegotiationPhase::Finalized
            } else {
                NegotiationPhase::Failed
            }
        } else {
            p
        },
    }
}

/// The phase after a sequence of operations on a fresh session.
pub open spec fn negotiation_run(ops: Seq<NegotiationOp>) -> NegotiationPhase
    decreases ops.len(),
{
    if ops.len() == 0 {
        NegotiationPhase::AwaitingOffer
    } else {
        negotiation_step(negotiation_run(ops.drop_last()), ops.last())
    }
}

/// How many operations in a run actually began an exchange.
pub open spec fn exchanges_begun(ops: Seq<NegotiationOp>) -> nat
    decreases ops.len(),
{
    if ops.len() == 0 {
        0
    } else {
        exchanges_begun(ops.drop_last()) + if negotiation_run(ops.drop_last())
            == NegotiationPhase::AwaitingOffer && negotiation_run(ops)
            != NegotiationPhase::AwaitingOffer {
            1nat
        } else {
            0nat
        }
    }
}

/// A session performs at most one offer/answer exchange: over any sequence of
/// operations, at most one leaves the initial phase, and the session never
/// returns to it.
pub proof fn lemma_single_exchange(ops: Seq<NegotiationOp>)
    ensures
        exchanges_begun(ops) == if negotiation_run(ops) == NegotiationPhase::AwaitingOffer {
            0nat
        } else {
            1nat
        },
        exchanges_begun(ops) <= 1,
    decreases ops.len(),
{
    if ops.len() > 0 {
        lemma_single_exchange(ops.drop_last());
    }
}

/// The per-session state the library tracks: the readiness barrier and
/// termination signal shared by the two playout tasks — the only state they
/// share — and the negotiation phase.
pub struct Session {
    pub barrier: ReadinessBarrier,
    pub signal: TerminationSignal,
    pub negotiation: SessionNegotiation,
}

/// A fresh session: barrier armed, nothing pending in the termination slot,
/// no exchange begun.
pub fn new_session() -> (r: Session)
    ensures
        !r.barrier.is_released(),
        r.signal.wf(),
        r.signal.pending() == 0,
        r.negotiation.phase() == NegotiationPhase::AwaitingOffer,
{
    Session {
        barrier: ReadinessBarrier::new(),
        signal: TerminationSignal::new(),
        negotiation: SessionNegotiation::new(),
    }
}

} // verus!
