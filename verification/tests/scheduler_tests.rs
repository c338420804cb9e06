use qnetsim::event::{Event, EventType};
use qnetsim::scheduler::EventScheduler;

#[test]
fn test_event_ordering() {
    let mut scheduler = EventScheduler::new();

    // Schedule events out of order.
    scheduler.schedule(Event::new(3, EventType::Measurement, 0));
    scheduler.schedule(Event::new(1, EventType::EntanglementGeneration, 0));
    scheduler.schedule(Event::new(2, EventType::EntanglementSwapping, 0));

    // Events come out in time order.
    assert_eq!(scheduler.next_event().unwrap().time, 1);
    assert_eq!(scheduler.next_event().unwrap().time, 2);
    assert_eq!(scheduler.next_event().unwrap().time, 3);
}

#[test]
fn test_current_time() {
    let mut scheduler = EventScheduler::new();
    assert_eq!(scheduler.current_time(), 0);

    scheduler.schedule(Event::new(5, EventType::Measurement, 0));
    scheduler.next_event();
    assert_eq!(scheduler.current_time(), 5);
}

#[test]
fn test_pop_empty_scheduler() {
    let mut scheduler = EventScheduler::new();
    assert!(scheduler.next_event().is_none());
    assert_eq!(scheduler.current_time(), 0);
}

#[test]
fn test_pops_nondecreasing_regardless_of_insertion_order() {
    let times: [u64; 8] = [13, 2, 2, 40, 7, 1, 40, 5];
    let mut scheduler = EventScheduler::new();
    for (i, t) in times.iter().enumerate() {
        scheduler.schedule(Event::new(*t, EventType::Decoherence, i));
    }

    let mut last: u64 = 0;
    let mut popped = 0;
    while let Some(event) = scheduler.next_event() {
        assert!(event.time >= last);
        assert_eq!(scheduler.current_time(), event.time);
        last = event.time;
        popped += 1;
    }
    assert_eq!(popped, 8);
}

#[test]
fn test_peek_does_not_advance() {
    let mut scheduler = EventScheduler::new();
    scheduler.schedule(Event::new(9, EventType::Purification, 2));
    scheduler.schedule(Event::new(4, EventType::Measurement, 1));

    assert_eq!(scheduler.peek_next().unwrap().time, 4);
    assert_eq!(scheduler.current_time(), 0);
    assert_eq!(scheduler.pending_events(), 2);
    assert!(scheduler.has_events());

    assert_eq!(scheduler.next_event().unwrap().time, 4);
    assert_eq!(scheduler.pending_events(), 1);
}

#[test]
fn test_event_optional_fields_default_absent() {
    let event = Event::new(1, EventType::EntanglementGeneration, 3);
    assert_eq!(event.node_id, 3);
    assert!(event.target_node_id.is_none());
    assert!(event.resource_id.is_none());
}
