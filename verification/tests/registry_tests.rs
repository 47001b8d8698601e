use relay_server::registry::Registry;

#[test]
fn register_assigns_unique_increasing_ids() {
    let mut hub = Registry::new();
    let a = hub.register();
    let b = hub.register();
    let c = hub.register();
    assert!(a < b && b < c);
    // An id stays used up even after its connection unregisters.
    hub.unregister(b);
    let d = hub.register();
    assert!(d != a && d != b && d != c);
}

#[test]
fn unregister_is_idempotent() {
    let mut hub = Registry::new();
    let a = hub.register();
    let b = hub.register();
    hub.unregister(a);
    assert_eq!(hub.count(), 1);
    assert!(!hub.contains(a));
    hub.unregister(a);
    assert_eq!(hub.count(), 1);
    assert!(!hub.contains(a));
    assert!(hub.contains(b));
}

#[test]
fn deliver_after_unregister_is_a_noop() {
    let mut hub = Registry::new();
    let a = hub.register();
    let b = hub.register();
    hub.unregister(a);
    hub.deliver(a, "late reply".to_string());
    assert!(hub.pop_outbound(a).is_none());
    assert!(hub.pop_outbound(b).is_none());
    assert_eq!(hub.count(), 1);
}

#[test]
fn reply_reaches_only_the_addressed_connection() {
    let mut hub = Registry::new();
    let one = hub.register();
    let two = hub.register();
    hub.deliver(one, "hello".to_string());
    let frame = hub.pop_outbound(one).expect("connection 1 should have a frame");
    assert_eq!(frame.text, "hello");
    assert!(hub.pop_outbound(one).is_none());
    assert!(hub.pop_outbound(two).is_none());
}

#[test]
fn frames_drain_in_enqueue_order() {
    let mut hub = Registry::new();
    let id = hub.register();
    hub.deliver(id, "first".to_string());
    hub.deliver(id, "second".to_string());
    hub.deliver(id, "third".to_string());
    assert_eq!(hub.pop_outbound(id).unwrap().text, "first");
    assert_eq!(hub.pop_outbound(id).unwrap().text, "second");
    assert_eq!(hub.pop_outbound(id).unwrap().text, "third");
    assert!(hub.pop_outbound(id).is_none());
}

#[test]
fn deliver_to_unknown_id_never_touches_live_queues() {
    let mut hub = Registry::new();
    let id = hub.register();
    hub.deliver(9999, "nobody home".to_string());
    assert!(hub.pop_outbound(id).is_none());
    assert!(hub.pop_outbound(9999).is_none());
    assert_eq!(hub.count(), 1);
}

#[test]
fn snapshot_lists_each_live_connection_once() {
    let mut hub = Registry::new();
    let a = hub.register();
    let b = hub.register();
    let c = hub.register();
    hub.unregister(b);
    let mut ids = hub.snapshot();
    ids.sort();
    assert_eq!(ids, vec![a, c]);
}
