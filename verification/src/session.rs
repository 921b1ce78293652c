//! The session's view of the broker connection.
//!
//! The connection itself (socket, acknowledgment bookkeeping, signal
//! delivery) is an outside capability; what reaches this crate is the
//! stream of notifications it yields, modelled by [`Notification`].  This
//! module holds the two decisions the session makes over that stream: the
//! order in which topics must be subscribed, and when a pending subscribe
//! handshake is acknowledged, has to keep waiting, or has failed.

use vstd::prelude::*;

use crate::switch::Switch;

verus! {

/// One inbound publication: a topic, the broker's retained flag, and the
/// raw payload bytes, not yet decoded as text.
pub struct PublishMsg {
    pub topic: String,
    pub retain: bool,
    pub payload: Vec<u8>,
}

/// One notification from the connection's stream, reduced to what the
/// decision logic reads.
pub enum Notification {
    /// An outgoing request left the connection: the acknowledgment event
    /// a pending subscribe handshake waits for.
    Outgoing,
    /// An inbound publication to dispatch to the switches.
    Publish(PublishMsg),
    /// Any other inbound event; carries nothing the logic reads.
    OtherIncoming,
    /// The stream yielded an error: the connection is gone.
    StreamError,
}

/// What a pending subscribe handshake does with one notification.
pub enum HandshakeStep {
    /// The outgoing acknowledgment arrived: this subscribe is done and the
    /// next one may be issued.
    Acked,
    /// Not the awaited event: keep draining the stream.
    Waiting,
    /// The connection dropped mid-handshake: fatal for startup.
    Failed,
}

/// Decides how a pending subscribe handshake advances on one notification:
/// an outgoing event acknowledges it, a stream error is fatal, and
/// anything inbound leaves it waiting.
pub fn handshake_step(n: &Notification) -> (r: HandshakeStep)
    ensures
        r is Acked <==> n is Outgoing,
        r is Failed <==> n is StreamError,
        r is Waiting <==> !(n is Outgoing) && !(n is StreamError),
{
    match n {
        Notification::Outgoing => HandshakeStep::Acked,
        Notification::StreamError => HandshakeStep::Failed,
        Notification::Publish(_) => HandshakeStep::Waiting,
        Notification::OtherIncoming => HandshakeStep::Waiting,
    }
}

/// The full startup subscription order for a registry: every switch's two
/// topics, switches in registry order, light-state before counter within
/// each switch.  Each topic must be subscribed and acknowledged before the
/// next is issued, and all of them before business dispatch begins.
pub fn subscription_plan(switches: &Vec<Switch>) -> (topics: Vec<String>)
    ensures
        topics@.len() == 2 * switches@.len(),
        forall|i: int|
            0 <= i < switches@.len() ==> topics@[2 * i]@ == switches@[i]@.light_state_topic
                && topics@[2 * i + 1]@ == switches@[i]@.counter_topic,
{
    let mut topics: Vec<String> = Vec::new();
    let n = switches.len();
    let mut i: usize = 0;
    while i < n
        invariant
            i <= n,
            n == switches@.len(),
            topics@.len() == 2 * i,
            forall|j: int|
                0 <= j < i ==> topics@[2 * j]@ == switches@[j]@.light_state_topic
                    && topics@[2 * j + 1]@ == switches@[j]@.counter_topic,
        decreases n - i,
    {
        let mut pair = switches[i].add_subscriptions();
        topics.append(&mut pair);
        i = i + 1;
    }
    topics
}

} // verus!
