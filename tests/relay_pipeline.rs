use packet_relay::auto_relay::{
    direction_step, relay_targets, BiRelayState, ChainEvent, Direction, DirectionState, LoopAction, LoopInput,
};
use packet_relay::components::{AutoRelayStrategy, DefaultComponents, ExtraComponents};
use packet_relay::lock::PacketLocks;
use packet_relay::packet::{
    full_cycle_dispatch, packet_state, relay_decision, AllowAll, Packet, PacketMessageKind, PacketState,
    RelayDecision,
};
use packet_relay::types::Height;
use packet_relay::update_client::{update_client_decision, UpdateClientDecision};

fn packet(seq: u64) -> Packet {
    Packet {
        source_port: "transfer".to_string(),
        source_channel: 0,
        destination_port: "transfer".to_string(),
        destination_channel: 3,
        sequence: seq,
        data: vec![1, 2, 3],
        timeout_height: Height::new(1, 100),
        timeout_timestamp: 0,
    }
}

#[test]
fn lock_exclusivity_on_one_key() {
    let mut locks = PacketLocks::new();
    let key = packet(1).key(PacketMessageKind::Receive);
    assert!(locks.try_acquire(key));
    assert!(locks.is_held(&key));
    assert!(!locks.try_acquire(key));
    assert!(!locks.try_acquire(key));
    locks.release(&key);
    assert!(!locks.is_held(&key));
    assert!(locks.try_acquire(key));
}

#[test]
fn distinct_keys_do_not_block() {
    let mut locks = PacketLocks::new();
    let a = packet(1).key(PacketMessageKind::Receive);
    let b = packet(2).key(PacketMessageKind::Receive);
    let c = packet(1).key(PacketMessageKind::Acknowledge);
    assert!(locks.try_acquire(a));
    assert!(locks.try_acquire(b));
    assert!(locks.try_acquire(c));
    locks.release(&b);
    assert!(locks.is_held(&a) && locks.is_held(&c) && !locks.is_held(&b));
    locks.release(&b);
    assert!(locks.is_held(&a));
}

#[test]
fn timeout_by_height_and_timestamp() {
    let p = packet(1);
    assert!(!p.is_timed_out(&Height::new(1, 99), 0));
    assert!(p.is_timed_out(&Height::new(1, 100), 0));
    assert!(p.is_timed_out(&Height::new(2, 1), 0));
    let mut q = packet(2);
    q.timeout_height = Height::new(0, 0);
    q.timeout_timestamp = 5_000;
    assert!(!q.is_timed_out(&Height::new(9, 9), 4_999));
    assert!(q.is_timed_out(&Height::new(0, 1), 5_000));
    q.timeout_timestamp = 0;
    assert!(!q.is_timed_out(&Height::new(99, 99), u64::MAX));
}

#[test]
fn lifecycle_dispatch() {
    assert_eq!(packet_state(true, false, false), PacketState::SentUnreceived);
    assert_eq!(packet_state(true, false, true), PacketState::TimedOut);
    assert_eq!(packet_state(true, true, true), PacketState::ReceivedUnacked);
    assert_eq!(packet_state(false, true, false), PacketState::Acknowledged);
    assert_eq!(packet_state(false, false, true), PacketState::Unsent);
    assert_eq!(full_cycle_dispatch(PacketState::SentUnreceived), Some(PacketMessageKind::Receive));
    assert_eq!(full_cycle_dispatch(PacketState::ReceivedUnacked), Some(PacketMessageKind::Acknowledge));
    assert_eq!(full_cycle_dispatch(PacketState::TimedOut), Some(PacketMessageKind::Timeout));
    assert_eq!(full_cycle_dispatch(PacketState::Acknowledged), None);
    assert_eq!(full_cycle_dispatch(PacketState::Unsent), None);
}

#[test]
fn filter_short_circuit() {
    let states = [
        PacketState::SentUnreceived,
        PacketState::ReceivedUnacked,
        PacketState::TimedOut,
        PacketState::Unsent,
        PacketState::Acknowledged,
    ];
    let mut submissions = 0;
    for i in 0..100 {
        let d = relay_decision(true, false, states[i % states.len()]);
        assert_eq!(d, RelayDecision::Filtered);
        if matches!(d, RelayDecision::Submit(_)) {
            submissions += 1;
        }
    }
    assert_eq!(submissions, 0);
}

#[test]
fn relay_decisions_in_stage_order() {
    assert_eq!(relay_decision(false, true, PacketState::SentUnreceived), RelayDecision::WaitForLock);
    assert_eq!(relay_decision(false, false, PacketState::SentUnreceived), RelayDecision::WaitForLock);
    assert_eq!(
        relay_decision(true, true, PacketState::SentUnreceived),
        RelayDecision::Submit(PacketMessageKind::Receive)
    );
    assert_eq!(relay_decision(true, true, PacketState::Acknowledged), RelayDecision::NothingToDo);
}

#[test]
fn allow_all_accepts_every_packet() {
    assert!(AllowAll.should_relay_packet(&packet(1)).unwrap());
    assert!(AllowAll.should_relay_packet(&packet(u64::MAX)).unwrap());
}

#[test]
fn update_client_skip_wait_build() {
    let client = Height::new(1, 10);
    assert_eq!(update_client_decision(&client, &Height::new(1, 10), &vec![]), UpdateClientDecision::Skip);
    assert_eq!(update_client_decision(&client, &Height::new(1, 9), &vec![]), UpdateClientDecision::Skip);
    assert_eq!(update_client_decision(&client, &Height::new(1, 12), &vec![Height::new(1, 11)]), UpdateClientDecision::Build);
    assert_eq!(
        update_client_decision(&client, &Height::new(1, 12), &vec![Height::new(1, 11), Height::new(1, 15)]),
        UpdateClientDecision::Wait
    );
    assert_eq!(update_client_decision(&client, &Height::new(2, 1), &vec![]), UpdateClientDecision::Build);
}

#[test]
fn relay_targets_all_and_by_height() {
    let events = vec![
        (Height::new(1, 5), ChainEvent::SendPacket(packet(1))),
        (Height::new(1, 5), ChainEvent::Other),
        (Height::new(1, 6), ChainEvent::WriteAcknowledgement(packet(2))),
        (Height::new(1, 5), ChainEvent::TimeoutReached(packet(3))),
    ];
    assert_eq!(relay_targets(&events, None), vec![0, 2, 3]);
    assert_eq!(relay_targets(&events, Some(Height::new(1, 5))), vec![0, 3]);
    assert_eq!(relay_targets(&events, Some(Height::new(1, 7))), Vec::<usize>::new());
    assert_eq!(events[2].1.packet().map(|p| p.sequence), Some(2));
    assert!(events[1].1.packet().is_none());
}

#[test]
fn direction_loop_states() {
    let (s, a) = direction_step(DirectionState::Idle, LoopInput::Start);
    assert_eq!((s, a), (DirectionState::Subscribed, LoopAction::Subscribe));
    let (s, a) = direction_step(s, LoopInput::Event(false));
    assert_eq!((s, a), (DirectionState::Subscribed, LoopAction::Continue));
    let (s, a) = direction_step(s, LoopInput::Event(true));
    assert_eq!((s, a), (DirectionState::Relaying, LoopAction::DispatchRelay));
    let (s, a) = direction_step(s, LoopInput::Dispatched);
    assert_eq!((s, a), (DirectionState::Subscribed, LoopAction::Continue));
    let (s, a) = direction_step(s, LoopInput::Stop);
    assert_eq!((s, a), (DirectionState::Stopped, LoopAction::Shutdown));
    let (s, a) = direction_step(s, LoopInput::Start);
    assert_eq!((s, a), (DirectionState::Stopped, LoopAction::Nothing));
}

#[test]
fn bidirectional_stop_stops_both() {
    let mut bi = BiRelayState::new(false);
    assert_eq!(bi.start(), (LoopAction::Subscribe, LoopAction::Subscribe));
    assert_eq!(bi.step(Direction::Forward, LoopInput::Ended), (LoopAction::Shutdown, LoopAction::Nothing));
    assert_eq!(bi.reverse, DirectionState::Subscribed);
    assert_eq!(bi.stop(), (LoopAction::Nothing, LoopAction::Shutdown));
    assert_eq!((bi.forward, bi.reverse), (DirectionState::Stopped, DirectionState::Stopped));

    let mut linked = BiRelayState::new(true);
    linked.start();
    assert_eq!(linked.step(Direction::Reverse, LoopInput::Ended), (LoopAction::Shutdown, LoopAction::Shutdown));
    assert_eq!((linked.forward, linked.reverse), (DirectionState::Stopped, DirectionState::Stopped));
}

#[test]
fn component_sets() {
    let d = DefaultComponents::config();
    assert!(!d.retry && !d.batched_sender);
    assert_eq!(d.strategy, AutoRelayStrategy::Concurrent);
    let e = ExtraComponents::config();
    assert!(e.retry && e.batched_sender);
    assert_eq!(e.strategy, AutoRelayStrategy::Parallel);
}
