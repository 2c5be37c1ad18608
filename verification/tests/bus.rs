use bank_saga::bus::{publish_step, Outbox, SchemaCache};
use bank_saga::events::{FieldValue, ProducerData};

fn pd(topic: &'static str, key: &str) -> ProducerData {
    ProducerData {
        topic,
        key: String::from(key),
        values: vec![("id", FieldValue::Str(String::from(key)))],
    }
}

#[test]
fn outbox_of_one_blocks_until_drained() {
    // With capacity one, enqueueing couples to the previous publish.
    let mut q = Outbox::new(1);
    assert!(q.try_enqueue(pd("money_transfer_confirmed", "a")));
    assert!(!q.try_enqueue(pd("money_transfer_confirmed", "b")));
    assert_eq!(q.len(), 1);
    let out = q.dequeue().unwrap();
    assert_eq!(out.key, "a");
    assert!(q.try_enqueue(pd("money_transfer_confirmed", "b")));
}

#[test]
fn outbox_preserves_enqueue_order() {
    let mut q = Outbox::new(3);
    assert!(q.try_enqueue(pd("balance_changed", "1")));
    assert!(q.try_enqueue(pd("balance_changed", "2")));
    assert!(q.try_enqueue(pd("balance_changed", "3")));
    assert!(!q.try_enqueue(pd("balance_changed", "4")));
    assert_eq!(q.dequeue().unwrap().key, "1");
    assert_eq!(q.dequeue().unwrap().key, "2");
    assert_eq!(q.dequeue().unwrap().key, "3");
    assert!(q.dequeue().is_none());
}

#[test]
fn schema_cache_resolves_each_topic_once() {
    let mut cache = SchemaCache::new();
    assert!(cache.ensure_topic("balance_changed"));
    assert!(!cache.ensure_topic("balance_changed"));
    assert!(cache.ensure_topic("money_transfer_confirmed"));
    assert!(!cache.ensure_topic("balance_changed"));
    assert_eq!(cache.topics.len(), 2);
}

#[test]
fn publish_step_hands_out_events_in_order() {
    let mut q = Outbox::new(2);
    let mut cache = SchemaCache::new();
    assert!(q.try_enqueue(pd("balance_changed", "x")));
    assert!(q.try_enqueue(pd("balance_changed", "y")));

    let (first, fresh1) = publish_step(&mut q, &mut cache).unwrap();
    assert_eq!(first.key, "x");
    assert!(fresh1);
    let (second, fresh2) = publish_step(&mut q, &mut cache).unwrap();
    assert_eq!(second.key, "y");
    assert!(!fresh2);
    assert!(publish_step(&mut q, &mut cache).is_none());
}
