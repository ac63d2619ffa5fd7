use eventsys::{EventBackend, EventError, EventSizeError, RawErr, SlotType, Value};

#[test]
fn test_oversize_type_rejected_everywhere() {
    // A `u64` needs 8 bytes even boxed, so a 4-byte system cannot take it.
    let mut system: EventBackend<4> = EventBackend::new();

    let res = system.register_store::<u64>(SlotType::All);
    match res.unwrap_err().raw_err() {
        RawErr::EventSize { max, is, .. } => {
            assert_eq!(max, 4);
            assert_eq!(is, 8);
        },
        _ => panic!("expected a size error"),
    }

    let res = system.register_listener::<u64, _>(|_event: &u64| {});
    assert!(res.is_err());

    let res = system.new_event::<u64>(7);
    let err = res.unwrap_err();
    assert!(matches!(err.raw_err(), RawErr::EventSize { max: 4, is: 8, .. }));
    // the rejected value comes back to the caller
    assert_eq!(err.into_inner(), 7);

    let res = system.query::<u64>();
    assert!(matches!(
        res.unwrap_err().raw_err(),
        RawErr::EventSize { max: 4, is: 8, .. }
    ));

    // the registration table is untouched: a fitting type still works
    system.register_store::<u8>(SlotType::All).unwrap();
    system.new_event::<u8>(1).unwrap();
    assert_eq!(system.query::<u8>().unwrap().len(), 1);
}

#[test]
fn test_unregistered_event_type() {
    let mut system: EventBackend<16> = EventBackend::new();

    let err = system.new_event::<u32>(41).unwrap_err();
    assert!(matches!(
        err.raw_err(),
        RawErr::UnregisteredEventType(_)
    ));
    // the value is handed back, not dropped
    assert_eq!(err.into_inner(), 41);

    let err = system.query::<u32>().unwrap_err();
    assert!(matches!(
        err.raw_err(),
        RawErr::UnregisteredEventType(_)
    ));

    let err = system.disable::<u32>().unwrap_err();
    assert!(matches!(
        err.raw_err(),
        RawErr::UnregisteredEventType(_)
    ));

    let err = system.enable::<u32>().unwrap_err();
    assert!(matches!(
        err.raw_err(),
        RawErr::UnregisteredEventType(_)
    ));
}

#[test]
fn test_disable_enable_oversized_is_unregistered() {
    // A type that cannot fit the capacity can never have a topic record,
    // so disabling or enabling it fails as unregistered.
    let mut system: EventBackend<4> = EventBackend::new();

    let err = system.disable::<u64>().unwrap_err();
    assert!(matches!(err.raw_err(), RawErr::UnregisteredEventType(_)));

    let err = system.enable::<u64>().unwrap_err();
    assert!(matches!(err.raw_err(), RawErr::UnregisteredEventType(_)));
}

#[test]
fn test_size_requirement_values() {
    // inline when small and normally aligned, boxed (one word) otherwise
    assert_eq!(eventsys::size_requirement::<u8>(), 1);
    assert_eq!(eventsys::size_requirement::<u64>(), 8);
    assert_eq!(
        eventsys::size_requirement::<[u64; 16]>(),
        core::mem::size_of::<Box<[u64; 16]>>()
    );
}

#[test]
fn test_registered_without_store() {
    let mut system: EventBackend<16> = EventBackend::new();

    system
        .register_listener::<u32, _>(|_event: &u32| {})
        .unwrap();

    let err = system.query::<u32>().unwrap_err();
    assert!(matches!(err.raw_err(), RawErr::RegisteredWithoutStore));

    let err = system.query_blocking::<u32>().unwrap_err();
    assert!(matches!(err.raw_err(), RawErr::RegisteredWithoutStore));
}

#[test]
fn test_event_size_error_fields() {
    let err = eventsys::EventSizeError::new(16, 32);
    assert_eq!(err.max(), 16);
    assert_eq!(err.is_(), 32);
}

#[test]
fn test_error_constructors() {
    let e = EventError::<u32, Value>::event_size(9, EventSizeError::new(2, 4));
    assert!(matches!(e.raw_err(), RawErr::EventSize { max: 2, is: 4, .. }));
    assert_eq!(e.into_inner(), 9);

    let e = EventError::<u32, Value>::unregisted_event(8);
    assert!(matches!(e.raw_err(), RawErr::UnregisteredEventType(_)));
    assert_eq!(e.into_inner(), 8);

    let e = EventError::<u32>::unregisted_event_empty();
    assert!(matches!(e.raw_err(), RawErr::UnregisteredEventType(_)));

    let e = EventError::<u32>::event_size_empty(EventSizeError::new(1, 3));
    assert!(matches!(e.raw_err(), RawErr::EventSize { max: 1, is: 3, .. }));

    let e = EventError::<u32>::registered_without_store();
    assert!(matches!(e.raw_err(), RawErr::RegisteredWithoutStore));
}
