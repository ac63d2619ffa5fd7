use std::any::TypeId;

use eventsys::{Event, Registered, RegisteredMap, Slot, SlotType};

#[test]
fn test_registered_map_insert_get() {
    let mut map: RegisteredMap<16> = RegisteredMap::new();
    assert_eq!(map.len(), 0);

    let prev = map.insert(TypeId::of::<u32>(), Registered::new());
    assert!(prev.is_none());
    assert_eq!(map.len(), 1);

    assert!(map.get(&TypeId::of::<u32>()).is_some());
    assert!(map.get(&TypeId::of::<u64>()).is_none());
    assert!(map.get_mut(&TypeId::of::<u32>()).is_some());

    // inserting under the same key replaces, never duplicates
    let prev = map.insert(TypeId::of::<u32>(), Registered::new());
    assert!(prev.is_some());
    assert_eq!(map.len(), 1);
    assert_eq!(map.values().len(), 1);
}

#[test]
fn test_registered_record_without_store() {
    let mut rec: Registered<16> = Registered::new();

    // no retention policy: nothing to drain
    assert!(rec.events_clone().is_none());
    assert!(rec.events().is_none());

    // publishing into a record without listeners or policy is a no-op
    rec.handle_event(Event::new(5u32));
    assert!(rec.events().is_none());

    rec.cleanup();
    assert!(rec.events().is_none());
}

#[test]
fn test_slot_events_clone_detaches() {
    let mut slot = Slot::<16>::new::<u32>(SlotType::All);
    slot.push(Event::new(1u32));
    slot.push(Event::new(2u32));

    let drained = slot.events_clone();
    assert_eq!(drained.len(), 2);

    // the slot keeps storing into a fresh, empty buffer
    assert_eq!(slot.events().len(), 0);
    slot.push(Event::new(3u32));
    assert_eq!(slot.events_clone().len(), 1);
}
