use std::collections::VecDeque;

use facility_sim::component::{Component, ComponentKind, Stage};
use facility_sim::event::{EnqueueResult, FacilityEvent};
use facility_sim::product::Product;
use facility_sim::simulation::{Duration, TimeStamp};
use facility_sim::workstation::{Buffer, Type, Workstation};

fn ts(t: u64) -> TimeStamp {
    TimeStamp::of_ticks(t)
}

fn finished(kind: ComponentKind, start: u64, d: u64) -> Component {
    let mut c = Component::started(kind, Duration::of_ticks(d), ts(start));
    c.finish_inspecting(ts(start + d));
    c
}

fn queued(kind: ComponentKind, start: u64, d: u64, at: u64) -> Component {
    let mut c = finished(kind, start, d);
    c.set_enqueued(ts(at));
    c
}

fn supply(v: &[u64]) -> VecDeque<Duration> {
    v.iter().map(|t| Duration::of_ticks(*t)).collect()
}

#[test]
fn component_lifecycle() {
    let mut c = Component::new(Duration::of_ticks(5), 2);
    assert_eq!(c.kind, ComponentKind::C2);
    assert_eq!(c.stage, Stage::Unstarted);
    assert_eq!(c.name(), "C2");
    c.start_inspecting(ts(10));
    assert_eq!(c.inspection_start_time(), ts(10));
    assert!(!c.is_finished());
    c.finish_inspecting(ts(15));
    assert!(c.is_finished());
    assert_eq!(c.inspection_end_time(), ts(15));
    assert_eq!(
        c.inspection_end_time().duration_since(c.inspection_start_time()),
        c.duration()
    );
    c.set_enqueued(ts(20));
    assert_eq!(c.enqueue_time(), ts(20));
    assert!(c.is_finished());
}

#[test]
fn component_kinds_and_matching() {
    let a = Component::new(Duration::of_ticks(1), 1);
    let b = Component::new(Duration::of_ticks(9), 1);
    let c = Component::new(Duration::of_ticks(1), 3);
    assert_eq!(a.name(), "C1");
    assert_eq!(c.name(), "C3");
    assert!(a.matches(&b));
    assert!(!a.matches(&c));
}

#[test]
fn product_from_components() {
    let c1 = queued(ComponentKind::C1, 0, 4, 6);
    let c2 = queued(ComponentKind::C2, 2, 5, 8);
    let c3 = queued(ComponentKind::C3, 1, 5, 9);
    let p1 = Product::from(c1, None, ts(10));
    let p2 = Product::from(c1, Some(c2), ts(10));
    let p3 = Product::from(c1, Some(c3), ts(12));
    assert_eq!(p1.name(), "P1");
    assert_eq!(p2.name(), "P2");
    assert_eq!(p3.name(), "P3");
    assert_eq!(p1.component_count(), 1);
    assert_eq!(p2.component_count(), 2);
    assert_eq!(p3.timestamp(), ts(12));
    assert_eq!(p2.wait_time(c1).as_ticks(), 4);
    assert_eq!(p2.wait_time(c2).as_ticks(), 2);
    assert_eq!(p1.wait_time(c1).as_ticks(), 4);
    assert_eq!(p2.time_components_in_system().as_ticks(), 10 + 8);
    assert_eq!(p1.time_components_in_system().as_ticks(), 10);
    assert_eq!(p2.start_time(), ts(0));
    assert_eq!(p3.start_time(), ts(0));
    let late = queued(ComponentKind::C1, 3, 1, 4);
    assert_eq!(Product::from(late, Some(c3), ts(12)).start_time(), ts(1));
}

#[test]
fn event_timestamps() {
    let c1 = queued(ComponentKind::C1, 0, 4, 6);
    let p = Product::from(c1, None, ts(10));
    let t = Type::W1(Buffer::empty());
    assert_eq!(FacilityEvent::Assembled(p, t).timestamp(), ts(10));
    assert_eq!(FacilityEvent::WorkstationStarted(t, ts(3)).timestamp(), ts(3));
    assert_eq!(FacilityEvent::SimulationStarted.timestamp(), ts(0));
}

#[test]
fn enqueue_fills_first_slot_then_second_then_rejects() {
    let mut ws = Workstation::new(Type::W2(Buffer::empty(), Buffer::empty()), supply(&[3, 3]));
    assert_eq!(ws.name(), "WS2");
    let a = finished(ComponentKind::C2, 0, 2);
    let b = finished(ComponentKind::C2, 0, 3);
    let c = finished(ComponentKind::C2, 0, 4);
    match ws.enqueue(false, a, ts(5)) {
        EnqueueResult::CouldEnqueue(ins1, comp, t, at, working) => {
            assert!(!ins1);
            assert_eq!(comp.enqueue_time(), ts(5));
            assert_eq!(at, ts(5));
            assert!(!working);
            assert!(!t.can_work());
        }
        EnqueueResult::Fail => panic!("first slot was free"),
    }
    assert!(matches!(ws.enqueue(false, b, ts(6)), EnqueueResult::CouldEnqueue(..)));
    assert!(matches!(ws.enqueue(false, c, ts(7)), EnqueueResult::Fail));
    assert_eq!(ws.matching_count(c), 2);
    assert_eq!(ws.c1_in_waiting(), 0);
    assert_eq!(ws.buffer_states.len(), 3);
    match ws.ws_type {
        Type::W2(_, buf) => {
            assert_eq!(buf.first.unwrap().duration().as_ticks(), 2);
            assert_eq!(buf.second.unwrap().duration().as_ticks(), 3);
        }
        _ => panic!("station changed"),
    }
}

#[test]
fn station_queries() {
    let t = Type::W3(Buffer::empty(), Buffer::empty());
    assert_eq!(t.name(), "WS3");
    assert!(!t.can_work());
    assert_eq!(t.first_enqueue_time(), None);
    let c1 = queued(ComponentKind::C1, 4, 1, 5);
    let c3 = queued(ComponentKind::C3, 2, 1, 5);
    let full = Type::W3(
        Buffer { first: Some(c1), second: None },
        Buffer { first: Some(c3), second: None },
    );
    assert!(full.can_work());
    assert!(full.contains(c1));
    assert!(full.contains(c3));
    assert!(!full.contains(Component::new(Duration::none(), 2)));
    assert_eq!(full.first_enqueue_time(), Some(ts(2)));
    assert!(full.same_station(&t));
    assert!(!full.same_station(&Type::W1(Buffer::empty())));
    assert_eq!(Type::W1(Buffer::empty()).name(), "WS1");
    // A C2 asked of WS3 counts its second buffer, as a C3 would.
    assert_eq!(full.matching_count(Component::new(Duration::none(), 2)), 1);
}

#[test]
fn assembly_takes_later_slot_first_and_restarts() {
    let c1a = queued(ComponentKind::C1, 0, 1, 1);
    let c1b = queued(ComponentKind::C1, 0, 2, 2);
    let t = Type::W1(Buffer { first: Some(c1a), second: Some(c1b) });
    let mut ws = Workstation::new(t, supply(&[4, 6]));
    assert!(!ws.is_working());
    ws.start(ts(2));
    assert!(ws.is_working());
    assert_eq!(ws.next_event_time(), Some(ts(6)));
    assert_eq!(ws.duration_until_next_event(ts(3)).unwrap().as_ticks(), 3);
    let e = ws.respond(ts(6));
    match e {
        Some(FacilityEvent::Assembled(p, after)) => {
            assert_eq!(p, Product::P1(c1b, ts(6)));
            assert_eq!(after.c1_in_waiting(), 1);
        }
        _ => panic!("expected a product"),
    }
    assert!(ws.is_working());
    assert_eq!(ws.next_event_time(), Some(ts(12)));
    let e = ws.respond(ts(12));
    assert!(matches!(e, Some(FacilityEvent::Assembled(Product::P1(..), _))));
    assert!(!ws.is_working());
    assert_eq!(ws.products.len(), 2);
    assert_eq!(ws.products[1], Product::P1(c1a, ts(12)));
    assert_eq!(ws.next_event_time(), None);
}

#[test]
fn start_notice_for_other_station_is_ignored() {
    let c1 = queued(ComponentKind::C1, 0, 1, 1);
    let t = Type::W1(Buffer { first: Some(c1), second: None });
    let mut ws = Workstation::new(t, supply(&[4]));
    let other = Type::W2(Buffer::empty(), Buffer::empty());
    assert!(ws.respond_to(FacilityEvent::WorkstationStarted(other, ts(1))).is_none());
    assert!(!ws.is_working());
    assert!(ws.respond_to(FacilityEvent::WorkstationStarted(t, ts(1))).is_none());
    assert!(ws.is_working());
    assert_eq!(ws.next_event_time(), Some(ts(5)));
}
