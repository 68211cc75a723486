use crate::channel_error::ChannelError;
use crate::types::{height_le, Height};
use vstd::prelude::*;

verus! {

/// A unit of cross-chain communication, as observed on its source chain.
/// Channels are numbered; a timeout height or timestamp of zero means none.
#[derive(Clone, Debug)]
pub struct Packet {
    pub source_port: String,
    pub source_channel: u64,
    pub destination_port: String,
    pub destination_channel: u64,
    pub sequence: u64,
    pub data: Vec<u8>,
    pub timeout_height: Height,
    pub timeout_timestamp: u64,
}

/// The message that a relay of a packet submits.
#[derive(Clone, Copy, Debug, PartialEq, Eq, Structural)]
pub enum PacketMessageKind {
    Receive,
    Acknowledge,
    Timeout,
}

/// The unit of mutual exclusion between relays.
#[derive(Clone, Copy, Debug, PartialEq, Eq, Structural)]
pub struct PacketKey {
    pub source_channel: u64,
    pub destination_channel: u64,
    pub sequence: u64,
    pub kind: PacketMessageKind,
}

pub open spec fn height_is_zero(h: Height) -> bool {
    h.revision_number == 0 && h.revision_height == 0
}

/// A packet has timed out on its destination once the destination reached
/// the packet's timeout height or its timeout timestamp, where it has one.
pub open spec fn timed_out(packet: Packet, dst_height: Height, dst_timestamp: u64) -> bool {
    (!height_is_zero(packet.timeout_height) && height_le(packet.timeout_height, dst_height)) || (
    packet.timeout_timestamp != 0 && packet.timeout_timestamp <= dst_timestamp)
}

impl Packet {
    pub fn key(&self, kind: PacketMessageKind) -> (r: PacketKey)
        ensures
            r == (PacketKey {
                source_channel: self.source_channel,
                destination_channel: self.destination_channel,
                sequence: self.sequence,
                kind,
            }),
    {
        PacketKey {
            source_channel: self.source_channel,
            destination_channel: self.destination_channel,
            sequence: self.sequence,
            kind,
        }
    }

    pub fn is_timed_out(&self, dst_height: &Height, dst_timestamp: u64) -> (r: bool)
        ensures
            r == timed_out(*self, *dst_height, dst_timestamp),
    {
        let zero = self.timeout_height.revision_number == 0
            && self.timeout_height.revision_height == 0;
        (!zero && self.timeout_height.le(dst_height)) || (self.timeout_timestamp != 0
            && self.timeout_timestamp <= dst_timestamp)
    }
}

/// Where a packet stands in its lifecycle, from what the two chains hold.
#[derive(Clone, Copy, Debug, PartialEq, Eq, Structural)]
pub enum PacketState {
    /// No commitment on the source and no receipt on the destination.
    Unsent,
    SentUnreceived,
    ReceivedUnacked,
    /// The commitment is gone from the source and the destination received it.
    Acknowledged,
    /// Sent, not received, and past its timeout on the destination.
    TimedOut,
}

pub open spec fn packet_state_of(committed: bool, received: bool, is_timed_out: bool) -> PacketState {
    if !committed {
        if received {
            PacketState::Acknowledged
        } else {
            PacketState::Unsent
        }
    } else if received {
        PacketState::ReceivedUnacked
    } else if is_timed_out {
        PacketState::TimedOut
    } else {
        PacketState::SentUnreceived
    }
}

/// The lifecycle state of a packet: `committed` tells whether the source
/// still holds its commitment, `received` whether the destination holds its
/// receipt, `is_timed_out` whether it is past its timeout on the destination.
pub fn packet_state(committed: bool, received: bool, is_timed_out: bool) -> (r: PacketState)
    ensures
        r == packet_state_of(committed, received, is_timed_out),
{
    if !committed {
        if received {
            PacketState::Acknowledged
        } else {
            PacketState::Unsent
        }
    } else if received {
        PacketState::ReceivedUnacked
    } else if is_timed_out {
        PacketState::TimedOut
    } else {
        PacketState::SentUnreceived
    }
}

/// The sub-relayer that a full-cycle relay hands a packet to, if any.
pub open spec fn dispatch_of(state: PacketState) -> Option<PacketMessageKind> {
    match state {
        PacketState::SentUnreceived => Some(PacketMessageKind::Receive),
        PacketState::ReceivedUnacked => Some(PacketMessageKind::Acknowledge),
        PacketState::TimedOut => Some(PacketMessageKind::Timeout),
        PacketState::Unsent | PacketState::Acknowledged => None,
    }
}

/// The full-cycle relay: receive a packet that was sent, acknowledge one
/// that was received, time out one that expired; nothing for a packet that
/// is not pending.
pub fn full_cycle_dispatch(state: PacketState) -> (r: Option<PacketMessageKind>)
    ensures
        r == dispatch_of(state),
{
    match state {
        PacketState::SentUnreceived => Some(PacketMessageKind::Receive),
        PacketState::ReceivedUnacked => Some(PacketMessageKind::Acknowledge),
        PacketState::TimedOut => Some(PacketMessageKind::Timeout),
        PacketState::Unsent | PacketState::Acknowledged => None,
    }
}

/// The filter that lets every packet through.
#[derive(Clone, Copy, Debug, PartialEq, Eq, Structural)]
pub struct AllowAll;

impl AllowAll {
    pub fn should_relay_packet(&self, packet: &Packet) -> (r: Result<bool, ChannelError>)
        ensures
            r is Ok && r->Ok_0,
    {
        Ok(true)
    }
}

/// What the relayer stack does with one packet, outermost stage first.
#[derive(Clone, Copy, Debug, PartialEq, Eq, Structural)]
pub enum RelayDecision {
    /// Another relay holds the packet's key: wait for it.
    WaitForLock,
    /// The filter rejected the packet: done, with success and no submission.
    Filtered,
    /// The packet is not pending: done, with success and no submission.
    NothingToDo,
    /// Submit this message, under the retry stage.
    Submit(PacketMessageKind),
}

pub open spec fn relay_decision_of(lock_acquired: bool, eligible: bool, state: PacketState) -> RelayDecision {
    if !lock_acquired {
        RelayDecision::WaitForLock
    } else if !eligible {
        RelayDecision::Filtered
    } else {
        match dispatch_of(state) {
            Some(kind) => RelayDecision::Submit(kind),
            None => RelayDecision::NothingToDo,
        }
    }
}

/// The decision of the relayer stack: the lock stage first, then the
/// filter, then the full-cycle relay.
pub fn relay_decision(lock_acquired: bool, eligible: bool, state: PacketState) -> (r: RelayDecision)
    ensures
        r == relay_decision_of(lock_acquired, eligible, state),
{
    if !lock_acquired {
        RelayDecision::WaitForLock
    } else if !eligible {
        RelayDecision::Filtered
    } else {
        match full_cycle_dispatch(state) {
            Some(kind) => RelayDecision::Submit(kind),
            None => RelayDecision::NothingToDo,
        }
    }
}

/// The number of decisions in `ds` that submit a message to a chain.
pub open spec fn submission_count(ds: Seq<RelayDecision>) -> nat
    decreases ds.len(),
{
    if ds.len() == 0 {
        0
    } else {
        submission_count(ds.drop_last()) + if ds.last() is Submit {
            1nat
        } else {
            0nat
        }
    }
}

/// Where the filter rejects every packet, no relay submits anything, however
/// many packets are dispatched and whatever their state and their locks.
pub proof fn lemma_filter_short_circuit(locks: Seq<bool>, states: Seq<PacketState>)
    requires
        locks.len() == states.len(),
    ensures
        submission_count(
            Seq::new(states.len(), |i: int| relay_decision_of(locks[i], false, states[i])),
        ) == 0,
    decreases states.len(),
{
    let ds = Seq::new(states.len(), |i: int| relay_decision_of(locks[i], false, states[i]));
    if states.len() > 0 {
        lemma_filter_short_circuit(locks.drop_last(), states.drop_last());
        assert(ds.drop_last() =~= Seq::new(
            states.drop_last().len(),
            |i: int| relay_decision_of(locks.drop_last()[i], false, states.drop_last()[i]),
        ));
    }
}

} // verus!
