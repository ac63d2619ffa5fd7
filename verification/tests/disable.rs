use eventsys::{EventBackend, SlotType, DEFAULT_EVENT_SIZE};

#[test]
fn test_disable_enable() {
    let mut system: EventBackend<DEFAULT_EVENT_SIZE> = Default::default();

    // Register events
    system
        .register_store::<(i32, i32, i32)>(SlotType::All)
        .unwrap();
    system.register_store::<(i64, u64)>(SlotType::All).unwrap();
    system.register_store::<u128>(SlotType::All).unwrap();

    // disable double events
    system.disable::<(i64, u64)>().unwrap();

    // call triple events
    system.new_event::<(i32, i32, i32)>((1, 2, 3)).unwrap();
    system.new_event::<(i32, i32, i32)>((5, 6, 7)).unwrap();

    // call double events
    system.new_event::<(i64, u64)>((-1, 1)).unwrap();

    // enable double events
    system.enable::<(i64, u64)>().unwrap();
    system.new_event::<(i64, u64)>((-2, 1)).unwrap();

    // call single events
    system.new_event::<u128>(123).unwrap();
    system.new_event::<u128>(456).unwrap();

    // collect triggered events
    let mut key_query = system.query_blocking::<(i32, i32, i32)>().unwrap();
    let mut key_events: Vec<(i32, i32, i32)> = Vec::new();
    while let Some(x) = key_query.next() {
        key_events.push(x);
    }

    let mut pair_query = system.query_blocking::<(i64, u64)>().unwrap();
    let mut pair_events: Vec<(i64, u64)> = Vec::new();
    while let Some(x) = pair_query.next() {
        pair_events.push(x);
    }

    let mut single_query = system.query_blocking::<u128>().unwrap();
    let mut single_events: Vec<u128> = Vec::new();
    while let Some(x) = single_query.next() {
        single_events.push(x);
    }

    // check triple events
    assert_eq!(&key_events, &[(1, 2, 3), (5, 6, 7)]);

    // check pair events
    assert_eq!(&pair_events, &[(-2, 1)]);

    // check single events
    assert_eq!(&single_events, &[123, 456]);
}

#[test]
fn test_disable_all_enable_all() {
    let mut system: EventBackend<DEFAULT_EVENT_SIZE> = Default::default();

    system.register_store::<u32>(SlotType::All).unwrap();
    system.register_store::<u64>(SlotType::All).unwrap();

    system.disable_all();
    system.new_event::<u32>(1).unwrap();
    system.new_event::<u64>(2).unwrap();

    system.enable_all();
    system.new_event::<u32>(3).unwrap();
    system.new_event::<u64>(4).unwrap();

    let mut q32 = system.query::<u32>().unwrap();
    assert_eq!(q32.len(), 1);
    assert_eq!(q32.next(), Some(3));

    let mut q64 = system.query::<u64>().unwrap();
    assert_eq!(q64.len(), 1);
    assert_eq!(q64.next(), Some(4));
}
