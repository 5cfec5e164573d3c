use binary_options_tools_js::stream::{
    BridgeState, Pull, RawStreamIterator, SourceEvent, StreamBridge, StreamIterator,
};

type Event = SourceEvent<u32, String>;

fn run(events: Vec<Event>) -> (Vec<Pull<u32, String>>, BridgeState) {
    let mut bridge = StreamBridge::new();
    let mut out = Vec::new();
    for event in events {
        out.push(bridge.pull(event));
    }
    (out, bridge.state())
}

#[test]
fn fresh_bridge_is_active() {
    let bridge = StreamBridge::new();
    assert_eq!(bridge.state(), BridgeState::Active);
    assert!(bridge.wants_poll());
    assert!(!bridge.is_terminated());
}

#[test]
fn items_pass_through_in_order() {
    let (out, state) = run(vec![Event::Item(1), Event::Item(2), Event::Item(3)]);
    assert_eq!(out, vec![Pull::Item(1), Pull::Item(2), Pull::Item(3)]);
    assert_eq!(state, BridgeState::Active);
}

#[test]
fn end_of_stream_is_permanent() {
    let (out, state) = run(vec![
        Event::Item(1),
        Event::Closed,
        Event::Item(2),
        Event::Failed("late".to_string()),
        Event::Closed,
    ]);
    assert_eq!(
        out,
        vec![
            Pull::Item(1),
            Pull::EndOfStream,
            Pull::EndOfStream,
            Pull::EndOfStream,
            Pull::EndOfStream,
        ]
    );
    assert_eq!(state, BridgeState::Ended);
}

#[test]
fn error_is_reported_once_then_end() {
    let (out, state) = run(vec![
        Event::Item(7),
        Event::Failed("connection lost".to_string()),
        Event::Failed("connection lost".to_string()),
        Event::Item(8),
    ]);
    assert_eq!(
        out,
        vec![
            Pull::Item(7),
            Pull::TransportError("connection lost".to_string()),
            Pull::EndOfStream,
            Pull::EndOfStream,
        ]
    );
    assert_eq!(state, BridgeState::Errored);
}

#[test]
fn timeout_ends_the_stream() {
    let (out, state) = run(vec![Event::TimedOut, Event::Item(1)]);
    assert_eq!(out, vec![Pull::EndOfStream, Pull::EndOfStream]);
    assert_eq!(state, BridgeState::Ended);
}

#[test]
fn terminated_bridge_does_not_want_a_poll() {
    let mut bridge = StreamBridge::new();
    assert_eq!(bridge.pull(Event::Closed), Pull::EndOfStream);
    assert!(!bridge.wants_poll());
    assert!(bridge.is_terminated());
    let mut failed = StreamBridge::new();
    let _ = failed.pull(Event::Failed("x".to_string()));
    assert!(!failed.wants_poll());
}

#[test]
fn close_stops_an_active_bridge_only() {
    let mut bridge = StreamBridge::new();
    bridge.close();
    assert_eq!(bridge.state(), BridgeState::Ended);
    let mut failed = StreamBridge::new();
    let _ = failed.pull(Event::Failed("x".to_string()));
    failed.close();
    assert_eq!(failed.state(), BridgeState::Errored);
}

#[test]
fn each_item_is_delivered_to_exactly_one_pull() {
    let events: Vec<Event> = (0..50).map(Event::Item).collect();
    let (out, _) = run(events);
    for (index, pull) in out.iter().enumerate() {
        assert_eq!(*pull, Pull::Item(index as u32));
    }
}

#[test]
fn pull_into_result() {
    assert_eq!(Pull::<u32, String>::Item(3).into_result(), Ok(Some(3)));
    assert_eq!(Pull::<u32, String>::EndOfStream.into_result(), Ok(None));
    assert_eq!(
        Pull::<u32, String>::TransportError("e".to_string()).into_result(),
        Err("e".to_string())
    );
}

#[test]
fn raw_iterator_hands_out_messages_then_fuses() {
    let mut iterator = RawStreamIterator::new();
    assert!(iterator.wants_poll());
    assert_eq!(
        iterator.next(SourceEvent::Item("42[\"ping\"]".to_string())),
        Ok(Some("42[\"ping\"]".to_string()))
    );
    assert_eq!(
        iterator.next(SourceEvent::Failed("socket closed".to_string())),
        Err("socket closed".to_string())
    );
    assert!(!iterator.wants_poll());
    assert_eq!(iterator.next(SourceEvent::Item("late".to_string())), Ok(None));
    assert_eq!(iterator.next(SourceEvent::Failed("again".to_string())), Ok(None));
}

#[test]
fn stream_iterator_hands_out_values_then_ends() {
    let mut iterator = StreamIterator::new();
    let candle = serde_json::from_str::<serde_json::Value>("{\"price\": 1}").unwrap();
    assert_eq!(iterator.next(SourceEvent::Item(candle.clone())), Ok(Some(candle.clone())));
    assert_eq!(iterator.next(SourceEvent::Closed), Ok(None));
    assert!(!iterator.wants_poll());
    assert_eq!(iterator.next(SourceEvent::Item(candle)), Ok(None));
}
