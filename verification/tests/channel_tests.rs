use event_relay::channel::{BroadcastChannel, RecvOutcome};
use event_relay::session::Session;

#[test]
fn publish_with_zero_subscribers_is_a_noop_that_succeeds() {
    let mut ch = BroadcastChannel::new();
    let d1 = ch.publish("first".to_string());
    let d2 = ch.publish("second".to_string());
    let d3 = ch.publish("third".to_string());
    assert!(d1 == 0);
    assert!(d2 == 0);
    assert!(d3 == 0);
}

#[test]
fn publish_reports_current_subscriber_count() {
    let mut ch = BroadcastChannel::new();
    let _a = ch.subscribe();
    let _b = ch.subscribe();
    let delivered = ch.publish("hello".to_string());
    assert!(delivered == 2);
}

#[test]
fn subscriber_that_never_lags_sees_messages_in_publish_order() {
    let mut ch = BroadcastChannel::new();
    let mut cursor = ch.subscribe();
    let mut seen: Vec<String> = Vec::new();
    for text in ["one", "two", "three"] {
        ch.publish(text.to_string());
        match ch.recv(&mut cursor) {
            RecvOutcome::Message(m) => seen.push(m),
            _ => panic!("expected a message"),
        }
    }
    assert_eq!(seen, vec!["one".to_string(), "two".to_string(), "three".to_string()]);
}

#[test]
fn late_subscriber_never_sees_earlier_messages() {
    let mut ch = BroadcastChannel::new();
    ch.publish("before-1".to_string());
    ch.publish("before-2".to_string());
    let mut cursor = ch.subscribe();
    match ch.recv(&mut cursor) {
        RecvOutcome::Pending => {}
        _ => panic!("a fresh cursor has nothing to read"),
    }
    ch.publish("after".to_string());
    match ch.recv(&mut cursor) {
        RecvOutcome::Message(m) => assert_eq!(m, "after"),
        _ => panic!("expected the message published after subscribing"),
    }
}

#[test]
fn lagging_subscriber_skips_to_newest_message() {
    let mut ch = BroadcastChannel::new();
    let mut cursor = ch.subscribe();
    ch.publish("first".to_string());
    ch.publish("second".to_string());
    ch.publish("third".to_string());
    match ch.recv(&mut cursor) {
        RecvOutcome::Lagged(missed) => assert_eq!(missed, 2),
        RecvOutcome::Message(m) => {
            assert_eq!(m, "third");
        }
        RecvOutcome::Pending => panic!("three messages are outstanding"),
    }
    match ch.recv(&mut cursor) {
        RecvOutcome::Message(m) => assert_eq!(m, "third"),
        _ => panic!("after a lag the newest message is due"),
    }
    match ch.recv(&mut cursor) {
        RecvOutcome::Pending => {}
        _ => panic!("nothing further was published"),
    }
}

#[test]
fn open_then_close_cycles_return_subscriber_count_to_baseline() {
    let mut ch = BroadcastChannel::new();
    let baseline = ch.publish("probe".to_string());
    assert!(baseline == 0);
    for i in 0..50 {
        let mut s = Session::accept(&mut ch, format!("peer-{}", i));
        s.close(&mut ch);
    }
    let after = ch.publish("probe-again".to_string());
    assert!(after == 0);
}
