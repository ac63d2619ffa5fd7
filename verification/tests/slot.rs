use eventsys::{CmpFn, Event, FilterFn, Slot, SlotType};

#[test]
fn test_slot_all() {
    let mut slot = Slot::<16>::new::<u32>(SlotType::All);

    for i in 0..100u32 {
        slot.push(Event::new(i));
    }

    let mut values = Vec::with_capacity(100);

    let mut query = slot.events();
    while let Some(e) = query.pop_front() {
        values.push(e.get::<u32>());
    }

    assert_eq!(values, (0..100).collect::<Vec<_>>());
}

#[test]
fn test_slot_first() {
    let mut slot = Slot::<16>::new::<u32>(SlotType::First);

    for i in 0..100u32 {
        slot.push(Event::new(i));
    }

    let mut values = Vec::with_capacity(1);

    let mut query = slot.events();
    while let Some(e) = query.pop_front() {
        values.push(e.get::<u32>());
    }

    let first = values.pop().unwrap();
    assert_eq!(first, 0);
    assert!(values.is_empty());
}

#[test]
fn test_slot_last() {
    let mut slot = Slot::<16>::new::<u32>(SlotType::Last);

    for i in 0..100u32 {
        slot.push(Event::new(i));
    }

    let mut values = Vec::with_capacity(1);

    let mut query = slot.events();
    while let Some(e) = query.pop_front() {
        values.push(e.get::<u32>());
    }

    let last = values.pop().unwrap();
    assert_eq!(last, 99);
    assert!(values.is_empty());
}

#[test]
fn test_slot_cmp() {
    let mut slot = Slot::<16>::new::<u32>(SlotType::Cmp(CmpFn::new(|current, next| {
        *next > 2 * current
    })));

    for i in 0..100u32 {
        slot.push(Event::new(i));
    }

    let mut values = Vec::with_capacity(1);

    let mut query = slot.events();
    while let Some(e) = query.pop_front() {
        values.push(e.get::<u32>());
    }

    let last = values.pop().unwrap();
    assert_eq!(last, 63);
    assert!(values.is_empty());
}

#[test]
fn test_slot_filter() {
    let mut slot = Slot::<16>::new::<u32>(SlotType::AllFilter(FilterFn::new(|next| *next >= 50)));

    for i in 0..100u32 {
        slot.push(Event::new(i));
    }

    let mut values = Vec::with_capacity(1);

    let mut query = slot.events();
    while let Some(e) = query.pop_front() {
        values.push(e.get::<u32>());
    }

    assert_eq!(values, (50..100).collect::<Vec<_>>());
    assert_eq!(values.len(), 50);
}

#[test]
fn test_slot_max() {
    let mut slot = Slot::<16>::new::<u32>(SlotType::Max(100));

    for i in 0..200u32 {
        slot.push(Event::new(i));
    }

    let mut values = Vec::with_capacity(100);

    let mut query = slot.events();
    while let Some(e) = query.pop_front() {
        values.push(e.get::<u32>());
    }

    assert_eq!(values, (100..200).collect::<Vec<_>>());
    assert_eq!(values.len(), 100);
}

#[test]
fn test_slot_max_zero_keeps_nothing() {
    let mut slot = Slot::<16>::new::<u32>(SlotType::Max(0));

    for i in 0..10u32 {
        slot.push(Event::new(i));
    }

    let query = slot.events();
    assert_eq!(query.len(), 0);
}

#[test]
fn test_slot_cleanup_empties_buffer() {
    let mut slot = Slot::<16>::new::<u32>(SlotType::All);

    for i in 0..10u32 {
        slot.push(Event::new(i));
    }

    slot.cleanup();
    let query = slot.events();
    assert_eq!(query.len(), 0);
}
