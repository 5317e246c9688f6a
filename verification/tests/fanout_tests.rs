use tree_service::fanout::FanOut;
use tree_service::fanout::Turn;

#[test]
fn starts_items_in_order_up_to_the_ceiling() {
    let mut s = FanOut::new(5, 2);
    assert_eq!(s.turn(), Turn::Start(0));
    assert_eq!(s.start(), Some(0));
    assert_eq!(s.turn(), Turn::Start(1));
    assert_eq!(s.start(), Some(1));
    assert_eq!(s.turn(), Turn::Wait);
    assert_eq!(s.start(), None);
    assert_eq!(s.in_flight(), 2);
}

#[test]
fn a_completion_frees_one_place() {
    let mut s = FanOut::new(3, 1);
    assert_eq!(s.start(), Some(0));
    assert_eq!(s.turn(), Turn::Wait);
    assert!(s.complete(0));
    assert_eq!(s.in_flight(), 0);
    assert_eq!(s.completed(), 1);
    assert_eq!(s.turn(), Turn::Start(1));
}

#[test]
fn completing_an_item_that_is_not_in_flight_changes_nothing() {
    let mut s = FanOut::new(3, 2);
    assert_eq!(s.start(), Some(0));
    assert!(!s.complete(1));
    assert!(!s.complete(7));
    assert_eq!(s.in_flight(), 1);
    assert_eq!(s.completed(), 0);
    assert!(s.complete(0));
    assert!(!s.complete(0));
    assert_eq!(s.completed(), 1);
}

#[test]
fn an_empty_batch_is_finished_at_once() {
    let mut s = FanOut::new(0, 128);
    assert_eq!(s.turn(), Turn::Finished);
    assert_eq!(s.start(), None);
    assert_eq!(s.completed(), 0);
}

#[test]
fn ceiling_is_never_exceeded_on_a_batch_much_larger_than_it() {
    let total = 1000;
    let ceiling = 7;
    let mut s = FanOut::new(total, ceiling);
    let mut in_flight: Vec<usize> = Vec::new();
    let mut high_water = 0;
    let mut done = 0;
    let mut pick = 3;
    loop {
        match s.turn() {
            Turn::Start(i) => {
                assert_eq!(s.start(), Some(i));
                in_flight.push(i);
            }
            Turn::Wait => {
                pick = (pick * 31 + 11) % in_flight.len();
                let i = in_flight.remove(pick);
                assert!(s.complete(i));
                done += 1;
            }
            Turn::Finished => break,
        }
        assert_eq!(s.in_flight(), in_flight.len());
        assert!(s.in_flight() <= ceiling);
        if s.in_flight() > high_water {
            high_water = s.in_flight();
        }
    }
    assert_eq!(high_water, ceiling);
    assert_eq!(done, total);
    assert_eq!(s.completed(), total);
    assert_eq!(s.total(), total);
    assert_eq!(s.ceiling(), ceiling);
}

#[test]
fn is_in_flight_follows_starts_and_completions() {
    let mut s = FanOut::new(2, 2);
    assert!(!s.is_in_flight(0));
    s.start();
    assert!(s.is_in_flight(0));
    assert!(!s.is_in_flight(1));
    s.complete(0);
    assert!(!s.is_in_flight(0));
}
