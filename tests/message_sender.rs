use packet_relay::message_sender::{source_heights, EventCountMismatch, SendIbcMessagesWithUpdateClient};
use packet_relay::types::{Height, IbcMessage};

fn h(n: u64) -> Height {
    Height::new(1, n)
}

fn msg(height: Option<u64>, tag: u8) -> IbcMessage {
    IbcMessage::new(height.map(h), vec![tag])
}

#[test]
fn heights_are_distinct_and_ascending() {
    let msgs = vec![msg(Some(7), 1), msg(None, 2), msg(Some(5), 3), msg(Some(7), 4), msg(Some(2), 5)];
    assert_eq!(source_heights(&msgs), vec![h(2), h(5), h(7)]);
    assert_eq!(source_heights(&vec![]), Vec::<Height>::new());
    assert_eq!(source_heights(&vec![msg(None, 1)]), Vec::<Height>::new());
}

#[test]
fn heights_order_by_revision_first() {
    let msgs = vec![
        IbcMessage::new(Some(Height::new(2, 1)), vec![]),
        IbcMessage::new(Some(Height::new(1, 9)), vec![]),
    ];
    assert_eq!(source_heights(&msgs), vec![Height::new(1, 9), Height::new(2, 1)]);
}

#[test]
fn update_client_ordering_five_seven_five() {
    let msgs = vec![msg(Some(5), 10), msg(Some(7), 11), msg(Some(5), 12)];
    let mut sender = SendIbcMessagesWithUpdateClient::new(msgs);
    let mut asked = Vec::new();
    while let Some(height) = sender.next_height() {
        asked.push(height);
        let update = IbcMessage::new(None, vec![100 + height.revision_height as u8]);
        sender.add_update_messages(vec![update]);
    }
    assert_eq!(asked, vec![h(5), h(7)]);
    let (batch, count) = sender.into_batch();
    assert_eq!(count, 2);
    let payloads: Vec<u8> = batch.iter().map(|m| m.payload[0]).collect();
    assert_eq!(payloads, vec![105, 107, 10, 11, 12]);
}

#[test]
fn event_count_round_trip() {
    let events: Vec<Vec<u32>> = vec![vec![1], vec![2, 2], vec![3], vec![4], vec![]];
    let r = SendIbcMessagesWithUpdateClient::user_events(events, 2, 3).unwrap();
    assert_eq!(r, vec![vec![3], vec![4], vec![]]);
    let none: Vec<Vec<u32>> = vec![vec![9]];
    assert_eq!(SendIbcMessagesWithUpdateClient::user_events(none, 1, 0).unwrap(), Vec::<Vec<u32>>::new());
    let plain: Vec<Vec<u32>> = vec![vec![1], vec![2]];
    assert_eq!(SendIbcMessagesWithUpdateClient::user_events(plain, 0, 2).unwrap(), vec![vec![1], vec![2]]);
}

#[test]
fn event_count_mismatch_is_an_error() {
    let events: Vec<Vec<u32>> = vec![vec![1], vec![2]];
    assert_eq!(
        SendIbcMessagesWithUpdateClient::user_events(events, 2, 1),
        Err(EventCountMismatch { update_count: 2, message_count: 1, received: 2 })
    );
    let events: Vec<Vec<u32>> = vec![vec![1]];
    assert_eq!(
        SendIbcMessagesWithUpdateClient::user_events(events, 3, 0),
        Err(EventCountMismatch { update_count: 3, message_count: 0, received: 1 })
    );
}

#[test]
fn no_heights_means_no_injection() {
    let sender = SendIbcMessagesWithUpdateClient::new(vec![msg(None, 1), msg(None, 2)]);
    assert_eq!(sender.next_height(), None);
    let (batch, count) = sender.into_batch();
    assert_eq!(count, 0);
    assert_eq!(batch.len(), 2);
}
