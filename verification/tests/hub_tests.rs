use nm::hub::{publish, subscriber_step, RecvOutcome, SubscriberStep, Subscription};
use nm::{InterfaceInfo, InterfaceInfoItem, InterfaceStat, InterfaceStats, Message};
use nm::utils::NumBytes;
use tokio::sync::broadcast;

fn msg(tag: u64) -> Message {
    Message {
        info: InterfaceInfo(vec![InterfaceInfoItem {
            name: String::from("eth0"),
        }]),
        stats: InterfaceStats(vec![Some(InterfaceStat {
            rx: NumBytes { bytes: tag },
            tx: NumBytes { bytes: tag },
        })]),
    }
}

fn tag_of(m: &Message) -> u64 {
    m.stats.0[0].unwrap().rx.bytes
}

#[test]
fn test_publish_zero_subscribers_never_errors() {
    let (tx, rx) = broadcast::channel::<Message>(16);
    drop(rx);
    for i in 0..5 {
        // a no-op success: nobody was listening
        assert_eq!(publish(&tx, msg(i)), 0);
    }
}

#[test]
fn test_subscription_sees_only_later_messages() {
    let (tx, rx) = broadcast::channel::<Message>(16);
    drop(rx);
    publish(&tx, msg(1));
    let mut sub = Subscription::attach(&tx);
    assert_eq!(publish(&tx, msg(2)), 1);
    match sub.next() {
        SubscriberStep::Deliver(m) => assert_eq!(tag_of(&m), 2),
        _ => panic!("the message published after attaching must arrive"),
    }
    assert!(matches!(sub.next(), SubscriberStep::Idle));
}

#[test]
fn test_lagged_subscriber_skips_and_resumes() {
    let (tx, rx) = broadcast::channel::<Message>(2);
    drop(rx);
    let mut sub = Subscription::attach(&tx);
    for i in 1..=4 {
        // the publisher is unaffected by the slow subscriber
        assert_eq!(publish(&tx, msg(i)), 1);
    }
    match sub.next() {
        SubscriberStep::Skipped(n) => assert_eq!(n, 2),
        _ => panic!("a lagging subscriber must see a skipped indication"),
    }
    match sub.next() {
        SubscriberStep::Deliver(m) => assert_eq!(tag_of(&m), 3),
        _ => panic!("consumption must resume at the oldest retained message"),
    }
    match sub.next() {
        SubscriberStep::Deliver(m) => assert_eq!(tag_of(&m), 4),
        _ => panic!("the newest message must still arrive"),
    }
    assert!(matches!(sub.next(), SubscriberStep::Idle));
}

#[test]
fn test_subscribers_observe_same_order() {
    let (tx, rx) = broadcast::channel::<Message>(16);
    drop(rx);
    let mut sub1 = Subscription::attach(&tx);
    let mut sub2 = Subscription::attach(&tx);
    publish(&tx, msg(1));
    publish(&tx, msg(2));
    for sub in [&mut sub1, &mut sub2] {
        match sub.next() {
            SubscriberStep::Deliver(m) => assert_eq!(tag_of(&m), 1),
            _ => panic!("both subscribers must see the first message first"),
        }
        match sub.next() {
            SubscriberStep::Deliver(m) => assert_eq!(tag_of(&m), 2),
            _ => panic!("both subscribers must see the second message next"),
        }
    }
}

#[test]
fn test_cancelling_one_subscription_is_independent() {
    let (tx, rx) = broadcast::channel::<Message>(16);
    drop(rx);
    let sub1 = Subscription::attach(&tx);
    let mut sub2 = Subscription::attach(&tx);
    drop(sub1);
    assert_eq!(publish(&tx, msg(7)), 1);
    match sub2.next() {
        SubscriberStep::Deliver(m) => assert_eq!(tag_of(&m), 7),
        _ => panic!("cancelling one subscription must not affect another"),
    }
}

#[test]
fn test_subscriber_step_mapping_is_exact() {
    match subscriber_step(RecvOutcome::Msg(msg(9))) {
        SubscriberStep::Deliver(m) => assert_eq!(tag_of(&m), 9),
        _ => panic!("a received message is delivered as it came"),
    }
    assert!(matches!(
        subscriber_step(RecvOutcome::Empty),
        SubscriberStep::Idle
    ));
    match subscriber_step(RecvOutcome::Lagged(5)) {
        SubscriberStep::Skipped(n) => assert_eq!(n, 5),
        _ => panic!("a lag surfaces as its skipped count"),
    }
    assert!(matches!(
        subscriber_step(RecvOutcome::Closed),
        SubscriberStep::End
    ));
}

#[test]
fn test_closed_hub_is_end_of_stream() {
    let (tx, rx) = broadcast::channel::<Message>(16);
    drop(rx);
    let mut sub = Subscription::attach(&tx);
    publish(&tx, msg(1));
    drop(tx);
    // the pending message still arrives, then end-of-stream, terminally
    match sub.next() {
        SubscriberStep::Deliver(m) => assert_eq!(tag_of(&m), 1),
        _ => panic!("a pending message must still be delivered"),
    }
    assert!(matches!(sub.next(), SubscriberStep::End));
    assert!(matches!(sub.next(), SubscriberStep::End));
}
