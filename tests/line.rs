use std::collections::VecDeque;

use facility_sim::component::{Component, ComponentKind};
use facility_sim::facility::{checked_total, FacilitySimulation};
use facility_sim::inspector::{Inspector1, Inspector2};
use facility_sim::random::Random;
use facility_sim::simulation::{Duration, TimeStamp, TICKS_PER_MINUTE};
use facility_sim::workstation::{Buffer, Type, Workstation};

const M: u64 = TICKS_PER_MINUTE;

fn minutes(v: &[u64]) -> VecDeque<Duration> {
    v.iter().map(|m| Duration::of_minutes(*m)).collect()
}

fn ts(t: u64) -> TimeStamp {
    TimeStamp::of_ticks(t)
}

fn queued(kind: ComponentKind, start: u64, d: u64, at: u64) -> Component {
    let mut c = Component::started(kind, Duration::of_ticks(d), ts(start));
    c.finish_inspecting(ts(start + d));
    c.set_enqueued(ts(at));
    c
}

fn product_times(ws: &Workstation) -> Vec<u64> {
    ws.products.iter().map(|p| p.timestamp().get()).collect()
}

#[test]
fn role1_feeding_one_idle_station_timeline() {
    let mut sim = FacilitySimulation::new(
        minutes(&[3, 3, 3]),
        minutes(&[]),
        minutes(&[]),
        minutes(&[5, 5, 5]),
        minutes(&[]),
        minutes(&[]),
        Random::with_seed(1),
    )
    .unwrap();
    sim.dispatch_simulation_started();
    assert_eq!(sim.inspector1.next_end_time(), Some(ts(5 * M)));
    assert_eq!(sim.step(), Some(3));
    assert_eq!(sim.clock, ts(5 * M));
    assert!(sim.ws1.is_working());
    assert_eq!(sim.ws1.next_event_time(), Some(ts(8 * M)));
    assert_eq!(sim.inspector1.next_end_time(), Some(ts(10 * M)));
    assert_eq!(sim.step(), Some(0));
    assert_eq!(sim.clock, ts(8 * M));
    assert_eq!(product_times(&sim.ws1), vec![8 * M]);
    let elapsed = sim.run();
    assert_eq!(product_times(&sim.ws1), vec![8 * M, 13 * M, 18 * M]);
    let starts: Vec<u64> = sim.inspector1.inspection_times.iter().map(|t| t.get()).collect();
    assert_eq!(starts, vec![0, 5 * M, 10 * M]);
    assert_eq!(elapsed.as_ticks(), 18 * M);
    assert_eq!(sim.step(), None);
    assert!(sim.ws2.products.is_empty());
    assert!(sim.ws3.products.is_empty());
    assert!(!sim.inspector1.is_blocked());
}

fn full_line() -> FacilitySimulation {
    let c1 = |at| queued(ComponentKind::C1, 0, 1, at);
    let c2 = |at| queued(ComponentKind::C2, 0, 1, at);
    let c3 = |at| queued(ComponentKind::C3, 0, 1, at);
    let both = |x, y| Buffer { first: Some(x), second: Some(y) };
    let mut ws1 = Workstation::new(Type::W1(Buffer { first: Some(c1(1)), second: None }), minutes(&[20, 1, 1]));
    ws1.start(ts(0));
    let mut ws2 = Workstation::new(Type::W2(both(c1(1), c1(1)), both(c2(1), c2(1))), minutes(&[100, 1, 1, 1, 1]));
    ws2.start(ts(0));
    let mut ws3 = Workstation::new(Type::W3(both(c1(1), c1(1)), both(c3(1), c3(1))), minutes(&[100, 1, 1, 1, 1]));
    ws3.start(ts(0));
    let inspector1 = Inspector1::new(minutes(&[]));
    let mut inspector2 = Inspector2::with_random(minutes(&[10, 7]), minutes(&[7]), Random::with_seed(3));
    inspector2.inspect_next(ts(0), false, true);
    inspector2.refresh_blocked(ts(0));
    FacilitySimulation { ws1, ws2, ws3, inspector1, inspector2, clock: ts(0) }
}

#[test]
fn role2_with_both_buffers_full_stays_blocked_until_its_kind_is_freed() {
    let mut sim = full_line();
    assert!(!sim.inspector2.is_blocked());
    assert!(sim.inspector2.held_c2.is_some());
    // The C2 under inspection finishes at 10 minutes and finds WS2 full.
    assert_eq!(sim.step(), Some(4));
    assert_eq!(sim.clock, ts(10 * M));
    assert!(sim.inspector2.is_blocked());
    assert!(sim.inspector2.held_c2.unwrap().is_finished());
    assert_eq!(sim.inspector2.next_end_time(), None);
    assert_eq!(sim.inspector2.inspection_times.len(), 1);
    // A P1 frees nothing role 2 waits on.
    assert_eq!(sim.step(), Some(0));
    assert_eq!(sim.clock, ts(20 * M));
    assert!(sim.inspector2.is_blocked());
    assert!(sim.inspector2.held_c2.is_some());
    assert_eq!(sim.inspector2.next_end_time(), None);
    assert_eq!(sim.inspector2.inspection_times.len(), 1);
    // WS2 assembles a P2: the C2 goes in at once.
    assert_eq!(sim.step(), Some(1));
    assert_eq!(sim.clock, ts(100 * M));
    assert!(sim.inspector2.held_c2.is_none());
    assert_eq!(sim.inspector2.placed, 1);
    assert_eq!(sim.ws2.matching_count(Component::new(Duration::none(), 2)), 2);
    assert_eq!(sim.ws2.buffer_states.last().unwrap().0, ts(100 * M));
}

#[test]
fn inspections_are_placed_or_held() {
    let mut sim = FacilitySimulation::new(
        minutes(&[4, 4, 4, 4, 4, 4]),
        minutes(&[9, 9, 9, 9]),
        minutes(&[8, 8, 8, 8]),
        minutes(&[2, 3, 2, 3, 2, 3]),
        minutes(&[5, 6, 5, 6]),
        minutes(&[7, 1, 7, 1]),
        Random::with_seed(11),
    )
    .unwrap();
    sim.dispatch_simulation_started();
    while sim.step().is_some() {
        let held1 = sim.inspector1.held_component.is_some() as usize;
        let held2 = sim.inspector2.held_c2.is_some() as usize + sim.inspector2.held_c3.is_some() as usize;
        assert_eq!(sim.inspector1.inspection_times.len(), sim.inspector1.placed + held1);
        assert_eq!(sim.inspector2.inspection_times.len(), sim.inspector2.placed + held2);
        for ws in [&sim.ws1, &sim.ws2, &sim.ws3] {
            assert!(ws.ws_type.c1_in_waiting() <= 2);
        }
    }
    let made = sim.ws1.products.len() + sim.ws2.products.len() + sim.ws3.products.len();
    assert!(made > 0);
    for p in sim.ws2.products.iter() {
        assert_eq!(p.name(), "P2");
        assert_eq!(p.component_count(), 2);
    }
    for p in sim.ws3.products.iter() {
        assert_eq!(p.name(), "P3");
    }
}

fn seeded_run(seed: u32) -> (u64, Vec<u64>, Vec<u64>, Vec<u64>, Vec<u64>) {
    let mut sim = FacilitySimulation::new(
        minutes(&[4, 2, 4, 2, 4, 2, 4, 2]),
        minutes(&[9, 3, 9, 3, 9, 3, 9, 3]),
        minutes(&[8, 1, 8, 1, 8, 1, 8, 1]),
        minutes(&[2, 3, 2, 3, 2, 3, 2, 3]),
        minutes(&[5, 6, 5, 6, 5, 6, 5, 6]),
        minutes(&[7, 1, 7, 1, 7, 1, 7, 1]),
        Random::with_seed(seed),
    )
    .unwrap();
    let elapsed = sim.run().as_ticks();
    let blocked: Vec<u64> = sim.inspector2.blocked_times.iter().map(|t| t.get()).collect();
    let starts: Vec<u64> = sim.inspector2.inspection_times.iter().map(|t| t.get()).collect();
    (elapsed, product_times(&sim.ws2), product_times(&sim.ws3), blocked, starts)
}

#[test]
fn identical_inputs_give_identical_runs() {
    assert_eq!(seeded_run(7), seeded_run(7));
    assert_eq!(seeded_run(1234), seeded_run(1234));
}

#[test]
fn construction_checks_supplies() {
    let ok = FacilitySimulation::new(
        minutes(&[1]),
        minutes(&[1]),
        minutes(&[1]),
        minutes(&[1]),
        minutes(&[1]),
        minutes(&[1]),
        Random::with_seed(0),
    );
    assert!(ok.is_some());
    let short = FacilitySimulation::new(
        minutes(&[1]),
        minutes(&[]),
        minutes(&[1]),
        minutes(&[1]),
        minutes(&[1]),
        minutes(&[1]),
        Random::with_seed(0),
    );
    assert!(short.is_none());
    let huge: VecDeque<Duration> = vec![Duration::of_ticks(u64::MAX / 2), Duration::of_ticks(u64::MAX / 2)].into();
    let too_long = FacilitySimulation::new(
        huge,
        minutes(&[1]),
        minutes(&[1]),
        minutes(&[1]),
        minutes(&[]),
        minutes(&[]),
        Random::with_seed(0),
    );
    assert!(too_long.is_none());
    assert_eq!(checked_total(&minutes(&[1, 2, 3])), Some(6 * M));
    let over: VecDeque<Duration> = vec![Duration::of_ticks(u64::MAX), Duration::of_ticks(1)].into();
    assert_eq!(checked_total(&over), None);
}

#[test]
fn next_actor_ties_go_to_first_registered() {
    let sim = full_line();
    // WS2 and WS3 both end at 100 minutes; role 2 at 10 comes first.
    assert_eq!(sim.next_actor_event(), Some((4, ts(10 * M))));
    assert_eq!(sim.time_until_next_actor_event(ts(0)).map(|(i, d)| (i, d.as_ticks())), Some((4, 10 * M)));
    let mut idle = full_line();
    idle.inspector2.next_finish_time = None;
    idle.ws1.current_duration = None;
    assert_eq!(idle.next_actor_event(), Some((1, ts(100 * M))));
}

#[test]
fn role2_decision_rule() {
    let mut i = Inspector2::with_random(minutes(&[1, 1]), minutes(&[1, 1]), Random::with_seed(2));
    // C2 full, C3 not: C3.
    assert_eq!(i.decide_next_component(true, false), Some(ComponentKind::C3));
    // C3 full, C2 not: C2.
    assert_eq!(i.decide_next_component(false, true), Some(ComponentKind::C2));
    // Both full: no decision.
    assert_eq!(i.decide_next_component(true, true), None);
    // Neither full: the coin, which is the parity of the next draw.
    let mut coin = Random::with_seed(2);
    let expect = if coin.boolean() { ComponentKind::C3 } else { ComponentKind::C2 };
    assert_eq!(i.decide_next_component(false, false), Some(expect));
    // Only one kind with supply: that kind.
    let mut only3 = Inspector2::with_random(minutes(&[]), minutes(&[1]), Random::with_seed(2));
    assert_eq!(only3.decide_next_component(false, true), Some(ComponentKind::C3));
    let mut none = Inspector2::with_random(minutes(&[]), minutes(&[]), Random::with_seed(2));
    assert_eq!(none.decide_next_component(false, false), None);
}

#[test]
fn role1_inspection_steps() {
    let mut i = Inspector1::new(minutes(&[4]));
    assert!(i.is_1());
    assert_eq!(i.name(), "Inspector1");
    assert!(i.is_blocked());
    let c = i.inspect_next(ts(0)).unwrap();
    assert_eq!(c.inspection_start_time(), ts(0));
    assert_eq!(i.next_end_time(), Some(ts(4 * M)));
    i.refresh_blocked(ts(0));
    assert!(!i.is_blocked());
    assert_eq!(i.blocked_times, vec![ts(0)]);
    i.finish_inspection(ts(4 * M));
    assert!(i.held_component.unwrap().is_finished());
    i.refresh_blocked(ts(4 * M));
    assert!(i.is_blocked());
    i.remove_component();
    assert_eq!(i.placed, 1);
    assert!(i.inspect_next(ts(4 * M)).is_none());
    i.refresh_blocked(ts(5 * M));
    assert!(!i.is_blocked());
    assert_eq!(i.blocked_times, vec![ts(0), ts(4 * M), ts(5 * M)]);
}

#[test]
fn role1_blocks_when_every_c1_buffer_is_full_and_retries_on_any_product() {
    let c1 = |at| queued(ComponentKind::C1, 0, 1, at);
    let c2 = |at| queued(ComponentKind::C2, 0, 1, at);
    let c3 = |at| queued(ComponentKind::C3, 0, 1, at);
    let both = |x, y| Buffer { first: Some(x), second: Some(y) };
    let one = |x| Buffer { first: Some(x), second: None };
    let mut ws1 = Workstation::new(Type::W1(both(c1(1), c1(1))), minutes(&[50, 1, 1, 1]));
    ws1.start(ts(0));
    let mut ws2 = Workstation::new(Type::W2(both(c1(1), c1(1)), one(c2(1))), minutes(&[30, 1]));
    ws2.start(ts(0));
    let mut ws3 = Workstation::new(Type::W3(both(c1(1), c1(1)), one(c3(1))), minutes(&[40, 1]));
    ws3.start(ts(0));
    let mut inspector1 = Inspector1::new(minutes(&[10, 5]));
    inspector1.inspect_next(ts(0));
    inspector1.refresh_blocked(ts(0));
    let inspector2 = Inspector2::with_random(minutes(&[]), minutes(&[]), Random::with_seed(3));
    let mut sim = FacilitySimulation { ws1, ws2, ws3, inspector1, inspector2, clock: ts(0) };

    assert_eq!(sim.step(), Some(3));
    assert_eq!(sim.clock, ts(10 * M));
    assert!(sim.inspector1.is_blocked());
    assert!(sim.inspector1.held_component.unwrap().is_finished());
    assert_eq!(sim.inspector1.next_end_time(), None);
    assert_eq!(sim.inspector1.blocked_times, vec![ts(0), ts(10 * M)]);

    // A P2 at WS2 frees one of its C1 slots: the held C1 goes there.
    assert_eq!(sim.step(), Some(1));
    assert_eq!(sim.clock, ts(30 * M));
    assert_eq!(sim.ws2.products.len(), 1);
    assert_eq!(sim.ws2.c1_in_waiting(), 2);
    assert_eq!(sim.inspector1.placed, 1);
    assert!(!sim.inspector1.is_blocked());
    assert_eq!(sim.inspector1.next_end_time(), Some(ts(35 * M)));
    assert_eq!(sim.inspector1.blocked_times, vec![ts(0), ts(10 * M), ts(30 * M)]);
    assert!(!sim.ws2.is_working());
}

#[test]
fn role2_inspection_steps() {
    let mut i = Inspector2::with_random(minutes(&[4]), minutes(&[6]), Random::with_seed(8));
    assert!(!i.is_1());
    assert_eq!(i.name(), "Inspector2");
    assert!(i.is_blocked());
    // C3's buffer is full, C2's is not: C2 is inspected first.
    let c = i.inspect_next(ts(0), false, true).unwrap();
    assert_eq!(c.kind, ComponentKind::C2);
    assert_eq!(i.next_end_time(), Some(ts(4 * M)));
    assert_eq!(i.next_finish_time, Some((ComponentKind::C2, ts(4 * M))));
    i.refresh_blocked(ts(0));
    assert!(!i.is_blocked());
    i.finish_inspection(ts(4 * M));
    assert!(i.held_c2.unwrap().is_finished());
    assert_eq!(i.next_end_time(), None);
    // Holding the C2, only C3 can be begun.
    let c = i.inspect_next(ts(4 * M), true, false).unwrap();
    assert_eq!(c.kind, ComponentKind::C3);
    i.refresh_blocked(ts(4 * M));
    assert!(i.is_blocked());
    i.remove_component(ComponentKind::C2);
    assert_eq!(i.placed, 1);
    assert!(i.held_c2.is_none());
    i.refresh_blocked(ts(5 * M));
    assert!(!i.is_blocked());
    assert_eq!(i.blocked_times, vec![ts(0), ts(4 * M), ts(5 * M)]);
    assert_eq!(i.inspection_times, vec![ts(0), ts(4 * M)]);
}

#[test]
fn role2_holding_a_rejected_c2_ignores_a_p3_and_waits_for_a_p2() {
    let c1 = |at| queued(ComponentKind::C1, 0, 1, at);
    let c2 = |at| queued(ComponentKind::C2, 0, 1, at);
    let c3 = |at| queued(ComponentKind::C3, 0, 1, at);
    let both = |x, y| Buffer { first: Some(x), second: Some(y) };
    let mut ws1 = Workstation::new(Type::W1(Buffer { first: Some(c1(1)), second: None }), minutes(&[20, 1, 1]));
    ws1.start(ts(0));
    let mut ws2 = Workstation::new(Type::W2(both(c1(1), c1(1)), both(c2(1), c2(1))), minutes(&[100, 1, 1, 1, 1]));
    ws2.start(ts(0));
    let mut ws3 = Workstation::new(Type::W3(both(c1(1), c1(1)), both(c3(1), c3(1))), minutes(&[50, 100, 1, 1, 1]));
    ws3.start(ts(0));
    let inspector1 = Inspector1::new(minutes(&[]));
    let mut inspector2 = Inspector2::with_random(minutes(&[10, 7]), minutes(&[7]), Random::with_seed(3));
    inspector2.inspect_next(ts(0), false, true);
    inspector2.refresh_blocked(ts(0));
    let mut sim = FacilitySimulation { ws1, ws2, ws3, inspector1, inspector2, clock: ts(0) };

    // The C2 finishes at 10 and WS2's C2 buffer is full: role 2 holds it and
    // starts nothing else.
    assert_eq!(sim.step(), Some(4));
    assert!(sim.inspector2.is_blocked());
    assert!(sim.inspector2.held_c2.unwrap().is_finished());
    assert!(sim.inspector2.held_c3.is_none());
    assert_eq!(sim.inspector2.next_end_time(), None);
    assert_eq!(sim.step(), Some(0));
    // A P3 frees a C3 slot, not a C2 slot: still no new inspection.
    assert_eq!(sim.step(), Some(2));
    assert_eq!(sim.clock, ts(50 * M));
    assert_eq!(sim.ws3.products.len(), 1);
    assert!(sim.inspector2.is_blocked());
    assert!(sim.inspector2.held_c2.unwrap().is_finished());
    assert!(sim.inspector2.held_c3.is_none());
    assert_eq!(sim.inspector2.next_end_time(), None);
    assert_eq!(sim.inspector2.inspection_times.len(), 1);
    assert_eq!(sim.inspector2.durations_c2.len(), 1);
    assert_eq!(sim.inspector2.durations_c3.len(), 1);
    assert_eq!(sim.ws2.matching_count(Component::new(Duration::none(), 2)), 2);
    // A P2 at 100 frees a C2 slot: the C2 goes in, then the next inspection
    // starts, a C3 since WS2's C2 buffer is full again.
    assert_eq!(sim.step(), Some(1));
    assert_eq!(sim.clock, ts(100 * M));
    assert!(sim.inspector2.held_c2.is_none());
    assert_eq!(sim.inspector2.placed, 1);
    assert_eq!(sim.inspector2.held_c3.unwrap().kind, ComponentKind::C3);
    assert_eq!(sim.inspector2.next_end_time(), Some(ts(107 * M)));
    assert_eq!(sim.inspector2.inspection_times.len(), 2);
    assert!(!sim.inspector2.is_blocked());
}
