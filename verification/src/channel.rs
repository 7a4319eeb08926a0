//! Declarations of the standard message-channel types the orchestrator
//! communicates through, and the trusted calls into them.
//!
//! One thread per connected session performs the blocking I/O; the
//! orchestrator exchanges values with it solely through two
//! unidirectional, unbounded, FIFO-ordered queues.  Nothing is assumed
//! here about the values a channel yields: every decision taken on a
//! received value is made, and verified, in the orchestrator itself.
//! What these calls do maintain is the ghost model of the traffic: each
//! session's outbound and inbound histories and its handshake flag, so
//! that the delivery layer can state exactly what was queued to whom.

use vstd::prelude::*;

use std::sync::mpsc::Receiver;
use std::sync::mpsc::Sender;

use crate::messages::{ClientToGame, GameToClient, GameToMain, MainToGame};
use crate::session::GameClientInterface;

verus! {

#[verifier::external_type_specification]
#[verifier::external_body]
#[verifier::reject_recursive_types(T)]
pub struct ExSender<T>(Sender<T>);

#[verifier::external_type_specification]
#[verifier::external_body]
#[verifier::reject_recursive_types(T)]
pub struct ExReceiver<T>(Receiver<T>);

/// Relies on std::sync::mpsc::Sender::send: queues the value for the
/// session thread; it fails only when the receiving half has
/// disconnected, and then the value has not been delivered.  A send is
/// allowed only with no earlier message still awaiting acknowledgment;
/// a delivered message is recorded in the outbound history and awaits
/// its acknowledgment.
#[verifier::external_body]
pub(crate) fn send_to_client(gci: &mut GameClientInterface, message: GameToClient) -> (ok: bool)
    requires
        !old(gci).awaiting_ack@,
    ensures
        final(gci).index == old(gci).index,
        final(gci).state == old(gci).state,
        final(gci).transmitter == old(gci).transmitter,
        final(gci).receiver == old(gci).receiver,
        final(gci).awaiting_ack@ == ok,
        ok ==> final(gci).sent@ == old(gci).sent@.push(message),
        !ok ==> final(gci).sent == old(gci).sent,
        final(gci).received == old(gci).received,
{
    gci.transmitter.send(message).is_ok()
}

/// Relies on std::sync::mpsc::Receiver::recv: blocks until the session
/// thread sends a value; None when the sending half has disconnected.
/// A consumed value is recorded in the inbound history.  The blocking
/// wait completes the handshake for the outstanding outbound message,
/// whatever value arrives: whether that value was the acknowledgment is
/// the caller's decision.
#[verifier::external_body]
pub(crate) fn recv_reply(gci: &mut GameClientInterface) -> (r: Option<ClientToGame>)
    ensures
        final(gci).index == old(gci).index,
        final(gci).state == old(gci).state,
        final(gci).transmitter == old(gci).transmitter,
        final(gci).receiver == old(gci).receiver,
        !final(gci).awaiting_ack@,
        final(gci).sent == old(gci).sent,
        (r matches Some(reply) ==> final(gci).received@ == old(gci).received@.push(reply)),
        r is None ==> final(gci).received == old(gci).received,
{
    gci.receiver.recv().ok()
}

/// Relies on std::sync::mpsc::Receiver::try_recv: yields a pending value
/// without blocking; None when none is pending or the channel has
/// closed.  A consumed value is recorded in the inbound history.
#[verifier::external_body]
pub(crate) fn try_recv_from_client(gci: &mut GameClientInterface) -> (r: Option<ClientToGame>)
    ensures
        final(gci).index == old(gci).index,
        final(gci).state == old(gci).state,
        final(gci).transmitter == old(gci).transmitter,
        final(gci).receiver == old(gci).receiver,
        final(gci).awaiting_ack == old(gci).awaiting_ack,
        final(gci).sent == old(gci).sent,
        (r matches Some(message) ==> final(gci).received@ == old(gci).received@.push(message)),
        r is None ==> final(gci).received == old(gci).received,
{
    gci.receiver.try_recv().ok()
}

/// Relies on std::sync::mpsc::Receiver::try_recv: yields a newly accepted
/// connection's channel pair without blocking, if one is pending.
#[verifier::external_body]
pub(crate) fn try_recv_new_client(receiver: &Receiver<MainToGame>) -> Option<MainToGame> {
    receiver.try_recv().ok()
}

/// The channel back to the owning process, together with the ghost
/// history of what was signalled over it.
pub struct MainLink {
    /// Outbound queue towards the owning process.
    pub transmitter: Sender<GameToMain>,
    /// Every value queued to the owning process, oldest first;
    /// maintained by the trusted send call alone.
    pub sent: Ghost<Seq<GameToMain>>,
}

impl MainLink {
    /// Wraps the process-facing transmitter; nothing signalled yet.
    pub fn new(transmitter: Sender<GameToMain>) -> (r: MainLink)
        ensures
            r.sent@ == Seq::<GameToMain>::empty(),
    {
        MainLink { transmitter, sent: Ghost(Seq::empty()) }
    }
}

/// Relies on std::sync::mpsc::Sender::send: queues the value for the
/// owning process; it fails only when the receiving half has
/// disconnected, and then the value has not been delivered.  A delivered
/// value is recorded in the link's history.
#[verifier::external_body]
pub(crate) fn send_to_main(link: &mut MainLink, message: GameToMain) -> (ok: bool)
    ensures
        final(link).transmitter == old(link).transmitter,
        ok ==> final(link).sent@ == old(link).sent@.push(message),
        !ok ==> final(link).sent@ == old(link).sent@,
{
    link.transmitter.send(message).is_ok()
}

} // verus!
