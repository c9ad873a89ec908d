use trading_simulator::events::{CloseReason, Event, EventStore, PositionId};

#[test]
fn test_position_id_generation() {
    let mut store: EventStore<f64> = EventStore::new();
    assert_eq!(store.next_position_id().0, 1);
    assert_eq!(store.next_position_id().0, 2);
}

#[test]
fn test_event_store_append() {
    let mut store: EventStore<f64> = EventStore::new();
    let pos_id = store.next_position_id();

    let event = Event::PositionOpened {
        position_id: pos_id,
        timestamp: (0, 0),
        legs: vec![],
    };

    store.append(event);
    assert_eq!(store.all_events().len(), 1);
}

#[test]
fn leg_ids_are_independent_of_position_ids() {
    let mut store: EventStore<f64> = EventStore::new();
    assert_eq!(store.next_leg_id().0, 1);
    assert_eq!(store.next_position_id().0, 1);
    assert_eq!(store.next_leg_id().0, 2);
    assert_eq!(store.next_leg_id().0, 3);
    assert_eq!(store.next_position_id().0, 2);
}

#[test]
fn events_for_position_keeps_order_and_filters() {
    let mut store: EventStore<f64> = EventStore::new();
    let first = store.next_position_id();
    let second = store.next_position_id();
    store.append(Event::PositionOpened { position_id: first, timestamp: (0, 900), legs: vec![] });
    store.append(Event::PositionOpened { position_id: second, timestamp: (0, 910), legs: vec![] });
    store.append(Event::PositionClosed {
        position_id: first,
        timestamp: (1, 840),
        close_premiums: vec![],
        reason: CloseReason::Expiration,
    });
    let mine = store.events_for_position(first);
    assert_eq!(mine.len(), 2);
    assert_eq!(mine[0].timestamp(), (0, 900));
    assert_eq!(mine[1].timestamp(), (1, 840));
    assert_eq!(mine[1].position_id(), first);
    assert_eq!(store.events_for_position(second).len(), 1);
    assert_eq!(store.events_for_position(PositionId(9)).len(), 0);
    assert_eq!(store.all_events().len(), 3);
    assert_eq!(store.all_events()[1].position_id(), second);
}

#[test]
fn open_positions_are_derived_from_the_log() {
    let mut store: EventStore<f64> = EventStore::new();
    let first = store.next_position_id();
    let second = store.next_position_id();
    assert!(store.open_positions().is_empty());
    store.append(Event::PositionOpened { position_id: first, timestamp: (0, 900), legs: vec![] });
    store.append(Event::PositionOpened { position_id: second, timestamp: (1, 900), legs: vec![] });
    assert_eq!(store.open_positions(), vec![first, second]);
    assert!(!store.is_closed(first));
    store.append(Event::PositionClosed {
        position_id: first,
        timestamp: (2, 840),
        close_premiums: vec![],
        reason: CloseReason::StrategyExit,
    });
    assert!(store.is_closed(first));
    assert_eq!(store.open_positions(), vec![second]);
}
