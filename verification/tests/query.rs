use eventsys::{EventBackend, SlotType};

#[test]
fn test_query_detaches_whole_buffer() {
    let mut system: EventBackend<16> = EventBackend::new();
    system.register_store::<u32>(SlotType::All).unwrap();

    system.new_event::<u32>(1).unwrap();
    system.new_event::<u32>(2).unwrap();

    // the cursor owns exactly what was stored so far ...
    let mut q = system.query::<u32>().unwrap();
    assert_eq!(q.len(), 2);

    // ... and a publish after the detach lands in the fresh buffer
    system.new_event::<u32>(3).unwrap();

    assert_eq!(q.next(), Some(1));
    assert_eq!(q.next(), Some(2));
    assert_eq!(q.next(), None);

    let mut q2 = system.query::<u32>().unwrap();
    assert_eq!(q2.len(), 1);
    assert_eq!(q2.next(), Some(3));
}

#[test]
fn test_dropped_cursor_discards_rest() {
    let mut system: EventBackend<16> = EventBackend::new();
    system.register_store::<u32>(SlotType::All).unwrap();

    system.new_event::<u32>(10).unwrap();
    system.new_event::<u32>(20).unwrap();
    system.new_event::<u32>(30).unwrap();

    {
        let mut q = system.query::<u32>().unwrap();
        assert_eq!(q.next(), Some(10));
        // q is dropped here, two values unconsumed
    }

    // the unconsumed values are gone, not waiting in the topic
    let q = system.query::<u32>().unwrap();
    assert_eq!(q.len(), 0);
}

#[test]
fn test_register_store_twice_replaces_policy() {
    let mut system: EventBackend<16> = EventBackend::new();

    system.register_store::<u32>(SlotType::Max(10)).unwrap();
    system.new_event::<u32>(1).unwrap();
    system.new_event::<u32>(2).unwrap();

    // re-registering installs a fresh policy and drops the buffered values
    system.register_store::<u32>(SlotType::Last).unwrap();

    let q = system.query::<u32>().unwrap();
    assert_eq!(q.len(), 0);

    // the new policy is in force: only the most recent value remains
    system.new_event::<u32>(5).unwrap();
    system.new_event::<u32>(6).unwrap();
    let mut q = system.query::<u32>().unwrap();
    assert_eq!(q.len(), 1);
    assert_eq!(q.next(), Some(6));
}

#[test]
fn test_cleanup_drops_listeners_and_values() {
    let mut system: EventBackend<16> = EventBackend::new();
    system.register_store::<u32>(SlotType::All).unwrap();
    system.new_event::<u32>(1).unwrap();

    system.cleanup();

    // the registration itself survives, the buffered values do not
    let q = system.query::<u32>().unwrap();
    assert_eq!(q.len(), 0);

    // publishing still works after cleanup
    system.new_event::<u32>(2).unwrap();
    let mut q = system.query::<u32>().unwrap();
    assert_eq!(q.next(), Some(2));
}
