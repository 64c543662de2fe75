//! Health monitoring: the ping/pong actor's counters and replies.
use vstd::prelude::*;

verus! {

/// Ping message sent from one peer to another.
pub struct PingMessage {
    pub from_node: String,
    /// Sender's peer id text
    pub from_peer: String,
    pub sequence: u64,
    pub timestamp: i64,
}

/// Response to a ping message.
pub struct PongReply {
    pub from_node: String,
    pub received_sequence: u64,
}

/// Broadcast message to all peers.
pub struct BroadcastMessage {
    pub from_node: String,
    /// Sender's peer id text
    pub from_peer: String,
    pub content: String,
    pub timestamp: i64,
}

/// Acknowledgment of broadcast receipt.
pub struct AckReply {
    pub from_node: String,
    pub success: bool,
}

/// Request for actor statistics.
pub struct GetStatsMessage;

/// Statistics response.
pub struct StatsReply {
    pub node_id: String,
    pub pings_received: u64,
    pub pongs_sent: u64,
}

/// Actor that handles ping/pong health checks and broadcast messages.
pub struct HealthActor {
    /// Identifier for this node (used in responses)
    pub node_id: String,
    pub ping_count: u64,
    pub pong_count: u64,
}

impl HealthActor {
    pub fn new(node_id: String) -> (r: Self)
        ensures
            r.node_id == node_id,
            r.ping_count == 0,
            r.pong_count == 0,
    {
        HealthActor { node_id, ping_count: 0, pong_count: 0 }
    }

    /// (pings received, pongs sent).
    pub fn get_stats(&self) -> (r: (u64, u64))
        ensures
            r == (self.ping_count, self.pong_count),
    {
        (self.ping_count, self.pong_count)
    }

    /// Counts the ping, answers it with a pong naming this node and echoing the
    /// sequence number, and counts the pong.
    pub fn handle_ping(&mut self, msg: PingMessage) -> (r: PongReply)
        requires
            old(self).ping_count < u64::MAX,
            old(self).pong_count < u64::MAX,
        ensures
            final(self).ping_count == old(self).ping_count + 1,
            final(self).pong_count == old(self).pong_count + 1,
            final(self).node_id == old(self).node_id,
            r.from_node@ == old(self).node_id@,
            r.received_sequence == msg.sequence,
    {
        self.ping_count = self.ping_count + 1;
        let from_node = self.node_id.clone();
        self.pong_count = self.pong_count + 1;
        PongReply { from_node, received_sequence: msg.sequence }
    }

    /// Acknowledges a broadcast.
    pub fn handle_broadcast(&self, _msg: BroadcastMessage) -> (r: AckReply)
        ensures
            r.from_node@ == self.node_id@,
            r.success,
    {
        AckReply { from_node: self.node_id.clone(), success: true }
    }

    /// Reports the counters.
    pub fn handle_get_stats(&self, _msg: GetStatsMessage) -> (r: StatsReply)
        ensures
            r.node_id@ == self.node_id@,
            r.pings_received == self.ping_count,
            r.pongs_sent == self.pong_count,
    {
        StatsReply { node_id: self.node_id.clone(), pings_received: self.ping_count, pongs_sent: self.pong_count }
    }
}

/// What the ping loop does with one remote ping actor.
#[derive(Clone, Copy, Debug, PartialEq, Eq, Structural)]
pub enum PingStep {
    /// Not a peer to ping: this node's own actor, or one with no peer id
    Ignore,
    /// A peer, but no longer known or backed off after repeated failures
    Skip,
    /// Send it a ping
    Send,
}

/// How a sent ping turned out.
#[derive(Clone, Copy, Debug, PartialEq, Eq, Structural)]
pub enum PingOutcome {
    /// A pong came back: the peer is healthy
    Success,
    /// No pong from a peer still known: a failure is counted
    Failure,
    /// No pong, and the peer was removed meanwhile: nothing is counted
    PeerGone,
}

/// The step for the actor of `target` (its peer id text, if it has one): ignore this
/// node's own actor and actors without a peer id; skip peers no longer known or backed
/// off; ping the rest.
pub open spec fn ping_decision(target: Option<String>, local_peer: Seq<char>, known: bool, backed_off: bool) -> PingStep {
    match target {
        None => PingStep::Ignore,
        Some(t) => if t@ == local_peer {
            PingStep::Ignore
        } else if !known || backed_off {
            PingStep::Skip
        } else {
            PingStep::Send
        },
    }
}

/// The step for the actor of `target`, as `ping_decision` states it.
pub fn ping_step(target: &Option<String>, local_peer: &String, known: bool, backed_off: bool) -> (r: PingStep)
    ensures
        r == ping_decision(*target, local_peer@, known, backed_off),
{
    match target {
        None => PingStep::Ignore,
        Some(t) => if *t == *local_peer {
            PingStep::Ignore
        } else if !known || backed_off {
            PingStep::Skip
        } else {
            PingStep::Send
        },
    }
}

/// The outcome of a ping: success on a pong; otherwise a failure, unless the peer was
/// removed meanwhile.
pub fn ping_outcome(ponged: bool, still_known: bool) -> (r: PingOutcome)
    ensures
        r == if ponged {
            PingOutcome::Success
        } else if still_known {
            PingOutcome::Failure
        } else {
            PingOutcome::PeerGone
        },
{
    if ponged {
        PingOutcome::Success
    } else if still_known {
        PingOutcome::Failure
    } else {
        PingOutcome::PeerGone
    }
}

/// The ping a round sends: from this node, numbered with the round's sequence.
pub fn ping_message(node_id: &String, local_peer: &String, sequence: u64, timestamp: i64) -> (r: PingMessage)
    ensures
        r.from_node@ == node_id@,
        r.from_peer@ == local_peer@,
        r.sequence == sequence,
        r.timestamp == timestamp,
{
    PingMessage { from_node: node_id.clone(), from_peer: local_peer.clone(), sequence, timestamp }
}

/// The ping loop's round counter.
pub struct PingLoop {
    sequence: u64,
}

impl PingLoop {
    /// The number of the current round (0 before the first).
    pub closed spec fn round(&self) -> u64 {
        self.sequence
    }

    /// Before the first round.
    pub fn new() -> (r: Self)
        ensures
            r.round() == 0,
    {
        PingLoop { sequence: 0 }
    }

    /// The number of the current round.
    pub fn sequence(&self) -> (r: u64)
        ensures
            r == self.round(),
    {
        self.sequence
    }

    /// Starts the next round, numbered one more than the last: round `r` is the `r`-th.
    pub fn next_round(&mut self) -> (r: u64)
        requires
            old(self).round() < u64::MAX,
        ensures
            r == old(self).round() + 1,
            final(self).round() == r,
    {
        self.sequence = self.sequence + 1;
        self.sequence
    }

    /// The ping this round sends to the actor of `target`: one, from this node and
    /// numbered with the current round, exactly when `ping_decision` says to send.
    pub fn ping_for(
        &self,
        node_id: &String,
        local_peer: &String,
        target: &Option<String>,
        known: bool,
        backed_off: bool,
        timestamp: i64,
    ) -> (r: Option<PingMessage>)
        ensures
            (r is Some) == (ping_decision(*target, local_peer@, known, backed_off) == PingStep::Send),
            r matches Some(m) ==> m.from_node@ == node_id@ && m.from_peer@ == local_peer@ && m.sequence == self.round()
                && m.timestamp == timestamp,
    {
        match ping_step(target, local_peer, known, backed_off) {
            PingStep::Send => Some(ping_message(node_id, local_peer, self.sequence, timestamp)),
            _ => None,
        }
    }
}

} // verus!
