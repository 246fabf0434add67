use facility_sim::component::{Component, ComponentKind};
use facility_sim::simulation::{Duration, TimeStamp};
use facility_sim::stats::{occupancy, tail_sum, up_time, working_time};
use facility_sim::workstation::{Buffer, Type};

fn ts(t: u64) -> TimeStamp {
    TimeStamp::of_ticks(t)
}

fn queued(kind: ComponentKind) -> Component {
    let mut c = Component::started(kind, Duration::of_ticks(1), ts(0));
    c.finish_inspecting(ts(1));
    c.set_enqueued(ts(1));
    c
}

fn w2(c1: usize, c2: usize) -> Type {
    let fill = |n: usize, kind| Buffer {
        first: if n > 0 { Some(queued(kind)) } else { None },
        second: if n > 1 { Some(queued(kind)) } else { None },
    };
    Type::W2(fill(c1, ComponentKind::C1), fill(c2, ComponentKind::C2))
}

#[test]
fn tail_sum_counts_time_after_each_arrival() {
    let times = vec![ts(2), ts(5), ts(20)];
    // Window [0, 10]: 8 after the first, 5 after the second, none after the third.
    assert_eq!(tail_sum(&times, ts(0), ts(10)), Some(13));
    // Window [4, 10]: the first counts from 4.
    assert_eq!(tail_sum(&times, ts(4), ts(10)), Some(11));
    assert_eq!(tail_sum(&vec![], ts(0), ts(10)), Some(0));
}

#[test]
fn working_time_sums_ready_spans() {
    let states = vec![(ts(0), w2(0, 0)), (ts(3), w2(1, 1)), (ts(7), w2(1, 0)), (ts(9), w2(1, 1))];
    assert_eq!(working_time(&states, ts(0), ts(100)), 4);
    assert_eq!(working_time(&states, ts(5), ts(100)), 2);
    assert_eq!(working_time(&states[..1].to_vec(), ts(0), ts(100)), 0);
}

#[test]
fn occupancy_weights_spans_by_count() {
    let states = vec![(ts(0), w2(1, 0)), (ts(4), w2(2, 1)), (ts(10), w2(0, 0))];
    assert_eq!(occupancy(&states, ComponentKind::C1, ts(0), ts(100)), Some(4 + 12));
    assert_eq!(occupancy(&states, ComponentKind::C2, ts(0), ts(100)), Some(6));
    assert_eq!(occupancy(&states, ComponentKind::C3, ts(0), ts(100)), Some(0));
    assert_eq!(occupancy(&states, ComponentKind::C1, ts(2), ts(6)), Some(2 + 4));
}

#[test]
fn up_time_follows_flag_changes() {
    // Up from the epoch to 3, down to 8, up to 10, down after.
    let log = vec![ts(3), ts(8), ts(10)];
    assert_eq!(up_time(&log, true, ts(0), ts(20)), Some(5));
    assert_eq!(up_time(&log, false, ts(0), ts(20)), Some(5 + 10));
    assert_eq!(up_time(&vec![], true, ts(2), ts(20)), Some(18));
    assert_eq!(up_time(&log, true, ts(4), ts(9)), Some(1));
}
