use minecli::network::{
    network_step, queue_step, transmission, NetworkAction, NetworkCommand, NetworkEvent,
    Transmission,
};

type Event = NetworkEvent<u32, &'static str>;
type Step = NetworkAction<u32, &'static str>;

/// Runs the network task over some events until it ends, and returns what it
/// hands on and how many events it saw.
fn run(events: Vec<Event>) -> (Vec<Result<u32, &'static str>>, usize) {
    let mut handed_on = Vec::new();
    let mut seen: usize = 0;
    for event in events {
        seen += 1;
        match network_step(event) {
            NetworkAction::ForwardPacket(packet) => handed_on.push(Ok(packet)),
            NetworkAction::ForwardErrorAndStop(error) => {
                handed_on.push(Err(error));
                break;
            }
            NetworkAction::SendQueued => {}
            NetworkAction::Stop => break,
        }
    }
    (handed_on, seen)
}

#[test]
fn packets_are_handed_on() {
    assert_eq!(network_step(Event::Received(7)), Step::ForwardPacket(7));
    assert_eq!(network_step(Event::Forwarded), Step::SendQueued);
}

#[test]
fn queue_is_sent_when_nothing_happens() {
    assert_eq!(network_step(Event::Tick), Step::SendQueued);
}

#[test]
fn network_task_stops() {
    assert_eq!(network_step(Event::ReceiveFailed("gone")), Step::ForwardErrorAndStop("gone"));
    assert_eq!(network_step(Event::ForwardRefused), Step::Stop);
    assert_eq!(network_step(Event::Shutdown), Step::Stop);
}

#[test]
fn what_is_received_is_handed_on_in_order_and_an_error_last() {
    let events = vec![
        Event::Tick,
        Event::Received(1),
        Event::Forwarded,
        Event::Received(2),
        Event::Forwarded,
        Event::ReceiveFailed("gone"),
        Event::Received(3),
        Event::ReceiveFailed("again"),
    ];
    assert_eq!(run(events), (vec![Ok(1), Ok(2), Err("gone")], 6));
}

#[test]
fn nothing_is_handed_on_after_shutdown() {
    let events = vec![Event::Received(1), Event::Forwarded, Event::Shutdown, Event::Received(2)];
    assert_eq!(run(events), (vec![Ok(1)], 3));
}

#[test]
fn whole_queue_is_sent_in_order() {
    let mut queue = vec![
        NetworkCommand::SendPong(1),
        NetworkCommand::SendChat("hi".to_string()),
        NetworkCommand::SendPong(1),
    ]
    .into_iter();
    let mut sent = Vec::new();
    while let Some(sending) = queue_step(queue.next()) {
        sent.push(format!("{:?}", sending));
    }
    assert_eq!(
        sent,
        vec![
            "Pong { timestamp_ms: 1 }",
            "Chat { format: \"commonmark\", content: \"hi\" }",
            "Pong { timestamp_ms: 1 }",
        ]
    );
}

#[test]
fn empty_queue_sends_nothing() {
    assert!(queue_step(None).is_none());
}

#[test]
fn chat_goes_out_as_commonmark() {
    match transmission(NetworkCommand::SendChat("**hi**".to_string())) {
        Transmission::Chat { format, content } => {
            assert_eq!(format, "commonmark");
            assert_eq!(content, "**hi**");
        }
        other => panic!("{:?}", other),
    }
}

#[test]
fn pong_carries_its_timestamp() {
    match transmission(NetworkCommand::SendPong(-42)) {
        Transmission::Pong { timestamp_ms } => assert_eq!(timestamp_ms, -42),
        other => panic!("{:?}", other),
    }
}
