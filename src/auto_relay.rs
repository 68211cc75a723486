use crate::packet::Packet;
use crate::types::Height;
use vstd::prelude::*;

verus! {

/// An observation emitted by a chain.
#[derive(Clone, Debug)]
pub enum ChainEvent {
    SendPacket(Packet),
    WriteAcknowledgement(Packet),
    TimeoutReached(Packet),
    Other,
}

impl ChainEvent {
    /// The events that carry a packet to relay.
    pub open spec fn relayable(&self) -> bool {
        !(self is Other)
    }

    pub fn is_relayable(&self) -> (r: bool)
        ensures
            r == self.relayable(),
    {
        !matches!(self, ChainEvent::Other)
    }

    pub fn packet(&self) -> (r: Option<&Packet>)
        ensures
            r.is_some() == self.relayable(),
            match self {
                ChainEvent::SendPacket(p) => r == Some(p),
                ChainEvent::WriteAcknowledgement(p) => r == Some(p),
                ChainEvent::TimeoutReached(p) => r == Some(p),
                ChainEvent::Other => r.is_none(),
            },
    {
        match self {
            ChainEvent::SendPacket(p) => Some(p),
            ChainEvent::WriteAcknowledgement(p) => Some(p),
            ChainEvent::TimeoutReached(p) => Some(p),
            ChainEvent::Other => None,
        }
    }
}

/// `r` lists, in ascending order, exactly the indices of `events` whose event
/// is relayable and, where `height` is given, stands at that height.
pub open spec fn lists_targets(events: Seq<(Height, ChainEvent)>, height: Option<Height>, r: Seq<usize>) -> bool {
    &&& forall|a: int, b: int| 0 <= a < b < r.len() ==> r[a] < r[b]
    &&& forall|a: int| 0 <= a < r.len() ==> r[a] < events.len()
    &&& forall|i: int|
        0 <= i < events.len() ==> (r.contains(i as usize) <==> is_target(events[i], height))
}

pub open spec fn is_target(event: (Height, ChainEvent), height: Option<Height>) -> bool {
    event.1.relayable() && match height {
        Some(h) => event.0 == h,
        None => true,
    }
}

/// The events of a batch that are dispatched to the packet relayer, as
/// indices into it: all relayable ones, or, where the scheduler fans out the
/// events of one height, those at `height`.
pub fn relay_targets(events: &Vec<(Height, ChainEvent)>, height: Option<Height>) -> (r: Vec<usize>)
    ensures
        lists_targets(events@, height, r@),
{
    let mut r: Vec<usize> = Vec::new();
    let mut i: usize = 0;
    while i < events.len()
        invariant
            i <= events@.len(),
            forall|a: int, b: int| 0 <= a < b < r@.len() ==> r@[a] < r@[b],
            forall|a: int| 0 <= a < r@.len() ==> r@[a] < i,
            forall|j: int| 0 <= j < i ==> (r@.contains(j as usize) <==> is_target(events@[j], height)),
        decreases events.len() - i,
    {
        let at_height = match height {
            Some(h) => events[i].0 == h,
            None => true,
        };
        let ghost before = r@;
        if events[i].1.is_relayable() && at_height {
            r.push(i);
            proof {
                assert forall|j: int| 0 <= j <= i implies (r@.contains(j as usize) <==> is_target(events@[j], height)) by {
                    if j < i {
                        if r@.contains(j as usize) {
                            let k = choose|k: int| 0 <= k < r@.len() && r@[k] == j as usize;
                            if k < before.len() {
                                assert(before[k] == j as usize);
                            }
                        }
                        if before.contains(j as usize) {
                            let k = choose|k: int| 0 <= k < before.len() && before[k] == j as usize;
                            assert(r@[k] == j as usize);
                        }
                    } else {
                        assert(r@[before.len() as int] == i);
                    }
                }
            }
        } else {
            proof {
                assert(!before.contains(i)) by {
                    if before.contains(i) {
                        let k = choose|k: int| 0 <= k < before.len() && before[k] == i;
                    }
                }
            }
        }
        i = i + 1;
    }
    r
}

/// Where one direction's event loop stands.
#[derive(Clone, Copy, Debug, PartialEq, Eq, Structural)]
pub enum DirectionState {
    Idle,
    Subscribed,
    /// An event was handed to the packet relayer; the loop reads on once the
    /// dispatch is done.
    Relaying,
    Stopped,
}

/// What happens to a direction's event loop.
#[derive(Clone, Copy, Debug, PartialEq, Eq, Structural)]
pub enum LoopInput {
    Start,
    /// The subscription yielded an event; tells whether it is relayable.
    Event(bool),
    /// The relay of the current event was dispatched (it may still run, or
    /// have failed: a failure is logged, and the loop goes on).
    Dispatched,
    /// The subscription ended, or the loop failed.
    Ended,
    Stop,
}

/// What the loop's driver does next.
#[derive(Clone, Copy, Debug, PartialEq, Eq, Structural)]
pub enum LoopAction {
    Subscribe,
    DispatchRelay,
    /// Read the next event.
    Continue,
    /// Cancel the loop and the relays it dispatched, letting a submission in
    /// flight complete.
    Shutdown,
    Nothing,
}

pub open spec fn direction_step_of(state: DirectionState, input: LoopInput) -> (DirectionState, LoopAction) {
    match (state, input) {
        (DirectionState::Stopped, _) => (DirectionState::Stopped, LoopAction::Nothing),
        (_, LoopInput::Stop) => (DirectionState::Stopped, LoopAction::Shutdown),
        (_, LoopInput::Ended) => (DirectionState::Stopped, LoopAction::Shutdown),
        (DirectionState::Idle, LoopInput::Start) => (DirectionState::Subscribed, LoopAction::Subscribe),
        (DirectionState::Subscribed, LoopInput::Event(true)) => (DirectionState::Relaying, LoopAction::DispatchRelay),
        (DirectionState::Subscribed, LoopInput::Event(false)) => (DirectionState::Subscribed, LoopAction::Continue),
        (DirectionState::Relaying, LoopInput::Dispatched) => (DirectionState::Subscribed, LoopAction::Continue),
        (s, _) => (s, LoopAction::Nothing),
    }
}

/// The event loop of one direction: `Idle`, then `Subscribed` once started;
/// a relayable event is dispatched and the loop reads on once the dispatch
/// is done; a stop or the end of the subscription stops it for good. Inputs
/// that do not fit the state change nothing.
pub fn direction_step(state: DirectionState, input: LoopInput) -> (r: (DirectionState, LoopAction))
    ensures
        r == direction_step_of(state, input),
{
    match (state, input) {
        (DirectionState::Stopped, _) => (DirectionState::Stopped, LoopAction::Nothing),
        (_, LoopInput::Stop) => (DirectionState::Stopped, LoopAction::Shutdown),
        (_, LoopInput::Ended) => (DirectionState::Stopped, LoopAction::Shutdown),
        (DirectionState::Idle, LoopInput::Start) => (DirectionState::Subscribed, LoopAction::Subscribe),
        (DirectionState::Subscribed, LoopInput::Event(true)) => (DirectionState::Relaying, LoopAction::DispatchRelay),
        (DirectionState::Subscribed, LoopInput::Event(false)) => (DirectionState::Subscribed, LoopAction::Continue),
        (DirectionState::Relaying, LoopInput::Dispatched) => (DirectionState::Subscribed, LoopAction::Continue),
        (s, _) => (s, LoopAction::Nothing),
    }
}

/// The two direction loops of a bidirectional relay. Whether the end of one
/// loop stops the other is a choice made when the relay is set up.
#[derive(Clone, Copy, Debug, PartialEq, Eq, Structural)]
pub struct BiRelayState {
    pub forward: DirectionState,
    pub reverse: DirectionState,
    pub stop_other_on_end: bool,
}

/// One of the two directions of a bidirectional relay.
#[derive(Clone, Copy, Debug, PartialEq, Eq, Structural)]
pub enum Direction {
    Forward,
    Reverse,
}

impl BiRelayState {
    pub fn new(stop_other_on_end: bool) -> (r: Self)
        ensures
            r == (BiRelayState { forward: DirectionState::Idle, reverse: DirectionState::Idle, stop_other_on_end }),
    {
        BiRelayState { forward: DirectionState::Idle, reverse: DirectionState::Idle, stop_other_on_end }
    }

    /// Starts both loops; the actions are those of the forward and the
    /// reverse loop.
    pub fn start(&mut self) -> (r: (LoopAction, LoopAction))
        ensures
            final(self).stop_other_on_end == old(self).stop_other_on_end,
            (final(self).forward, r.0) == direction_step_of(old(self).forward, LoopInput::Start),
            (final(self).reverse, r.1) == direction_step_of(old(self).reverse, LoopInput::Start),
    {
        let (f, fa) = direction_step(self.forward, LoopInput::Start);
        let (b, ba) = direction_step(self.reverse, LoopInput::Start);
        self.forward = f;
        self.reverse = b;
        (fa, ba)
    }

    /// Stops the bidirectional relay: both loops stop.
    pub fn stop(&mut self) -> (r: (LoopAction, LoopAction))
        ensures
            final(self).forward == DirectionState::Stopped,
            final(self).reverse == DirectionState::Stopped,
            final(self).stop_other_on_end == old(self).stop_other_on_end,
            (final(self).forward, r.0) == direction_step_of(old(self).forward, LoopInput::Stop),
            (final(self).reverse, r.1) == direction_step_of(old(self).reverse, LoopInput::Stop),
    {
        let (f, fa) = direction_step(self.forward, LoopInput::Stop);
        let (b, ba) = direction_step(self.reverse, LoopInput::Stop);
        self.forward = f;
        self.reverse = b;
        (fa, ba)
    }

    /// Feeds `input` to the loop of direction `dir`; where that loop ends
    /// and the relay was set up so, the other loop is stopped too. The
    /// actions are those of `dir`'s loop and of the other one.
    pub fn step(&mut self, dir: Direction, input: LoopInput) -> (r: (LoopAction, LoopAction))
        ensures
            final(self).stop_other_on_end == old(self).stop_other_on_end,
            ({
                let (mine, other) = match dir {
                    Direction::Forward => (old(self).forward, old(self).reverse),
                    Direction::Reverse => (old(self).reverse, old(self).forward),
                };
                let (mine2, other2) = match dir {
                    Direction::Forward => (final(self).forward, final(self).reverse),
                    Direction::Reverse => (final(self).reverse, final(self).forward),
                };
                &&& (mine2, r.0) == direction_step_of(mine, input)
                &&& if old(self).stop_other_on_end && input == LoopInput::Ended {
                    (other2, r.1) == direction_step_of(other, LoopInput::Stop)
                } else {
                    other2 == other && r.1 == LoopAction::Nothing
                }
            }),
    {
        let (mine, other) = match dir {
            Direction::Forward => (self.forward, self.reverse),
            Direction::Reverse => (self.reverse, self.forward),
        };
        let (mine2, act) = direction_step(mine, input);
        let (other2, other_act) = if self.stop_other_on_end && input == LoopInput::Ended {
            direction_step(other, LoopInput::Stop)
        } else {
            (other, LoopAction::Nothing)
        };
        match dir {
            Direction::Forward => {
                self.forward = mine2;
                self.reverse = other2;
            },
            Direction::Reverse => {
                self.reverse = mine2;
                self.forward = other2;
            },
        }
        (act, other_act)
    }
}

/// The state of a loop after `inputs`, from `state`.
pub open spec fn direction_run(state: DirectionState, inputs: Seq<LoopInput>) -> DirectionState
    decreases inputs.len(),
{
    if inputs.len() == 0 {
        state
    } else {
        direction_run(direction_step_of(state, inputs[0]).0, inputs.drop_first())
    }
}

/// A stopped loop stays stopped, and dispatches nothing, whatever comes after.
pub proof fn lemma_stopped_is_final(inputs: Seq<LoopInput>)
    ensures
        direction_run(DirectionState::Stopped, inputs) == DirectionState::Stopped,
        forall|i: int| 0 <= i < inputs.len() ==> direction_step_of(DirectionState::Stopped, #[trigger] inputs[i]).1 == LoopAction::Nothing,
    decreases inputs.len(),
{
    if inputs.len() > 0 {
        lemma_stopped_is_final(inputs.drop_first());
    }
}

} // verus!
