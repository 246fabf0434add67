use vstd::prelude::*;
use crate::component::ComponentKind;
use crate::simulation::TimeStamp;
use crate::workstation::Type;

verus! {

/// Length of the overlap of `[a, b]` with the window `[start, end]`.
pub open spec fn clip(a: int, b: int, start: int, end: int) -> nat {
    let lo = if a > start { a } else { start };
    let hi = if b < end { b } else { end };
    if hi > lo { (hi - lo) as nat } else { 0 }
}

/// Sum over `times` of the part of the window that follows each time stamp: the
/// integral over the window of how many of them have passed.
pub open spec fn tail_total(times: Seq<TimeStamp>, start: TimeStamp, end: TimeStamp) -> nat
    decreases times.len(),
{
    if times.len() == 0 {
        0
    } else {
        tail_total(times.drop_last(), start, end) + clip(times.last().ticks as int, end.ticks as int,
            start.ticks as int, end.ticks as int)
    }
}

/// Time within the window during which the snapshots show a workstation able to
/// assemble, each snapshot holding until the next.
pub open spec fn working_total(states: Seq<(TimeStamp, Type)>, start: TimeStamp, end: TimeStamp) -> nat
    decreases states.len(),
{
    if states.len() < 2 {
        0
    } else {
        let a = states[states.len() - 2];
        let b = states[states.len() - 1];
        working_total(states.drop_last(), start, end) + if a.1.can_work_spec() {
            clip(a.0.ticks as int, b.0.ticks as int, start.ticks as int, end.ticks as int)
        } else {
            0
        }
    }
}

/// Components of `kind` waiting in `t`.
pub open spec fn kind_count(t: Type, kind: ComponentKind) -> nat {
    if t.accepts(kind) {
        t.buffer_of(kind).count()
    } else {
        0
    }
}

/// Integral over the window of how many components of `kind` the snapshots show
/// waiting, each snapshot holding until the next.
pub open spec fn occupancy_total(
    states: Seq<(TimeStamp, Type)>,
    kind: ComponentKind,
    start: TimeStamp,
    end: TimeStamp,
) -> nat
    decreases states.len(),
{
    if states.len() < 2 {
        0
    } else {
        let a = states[states.len() - 2];
        let b = states[states.len() - 1];
        occupancy_total(states.drop_last(), kind, start, end) + kind_count(a.1, kind) * clip(
            a.0.ticks as int,
            b.0.ticks as int,
            start.ticks as int,
            end.ticks as int,
        )
    }
}

/// Start of segment `i` of a flag log: the epoch, then each change.
pub open spec fn segment_start(log: Seq<TimeStamp>, i: int) -> int {
    if i == 0 { 0 } else { log[i - 1].ticks as int }
}

/// End of segment `i` of a flag log: each change, then `end`.
pub open spec fn segment_end(log: Seq<TimeStamp>, i: int, end: TimeStamp) -> int {
    if i == log.len() { end.ticks as int } else { log[i].ticks as int }
}

/// Whether the flag is up during segment `i`: every change flips it.
pub open spec fn segment_up(initially: bool, i: int) -> bool {
    if i % 2 == 0 { initially } else { !initially }
}

/// Time within the window during the first `k` segments of a flag log in which the
/// flag is up.
pub open spec fn up_total(log: Seq<TimeStamp>, initially: bool, start: TimeStamp, end: TimeStamp, k: int) -> nat
    decreases k,
{
    if k <= 0 {
        0
    } else {
        up_total(log, initially, start, end, k - 1) + if segment_up(initially, k - 1) {
            clip(segment_start(log, k - 1), segment_end(log, k - 1, end), start.ticks as int, end.ticks as int)
        } else {
            0
        }
    }
}

fn clip_exec(a: u64, b: u64, start: u64, end: u64) -> (r: u64)
    ensures
        r == clip(a as int, b as int, start as int, end as int),
{
    let lo = if a > start { a } else { start };
    let hi = if b < end { b } else { end };
    if hi > lo { hi - lo } else { 0 }
}

/// The integral over `[start, end]` of how many of `times` have passed, or `None`
/// when it exceeds 128 bits.
pub fn tail_sum(times: &Vec<TimeStamp>, start: TimeStamp, end: TimeStamp) -> (r: Option<u128>)
    ensures
        r matches Some(v) ==> v == tail_total(times@, start, end),
        r is None ==> tail_total(times@, start, end) > u128::MAX,
{
    let n = times.len();
    let mut acc: u128 = 0;
    let mut i: usize = 0;
    while i < n
        invariant
            0 <= i <= n,
            n == times@.len(),
            acc == tail_total(times@.subrange(0, i as int), start, end),
        decreases n - i,
    {
        assert(times@.subrange(0, i + 1).drop_last() =~= times@.subrange(0, i as int));
        let t = clip_exec(times[i].ticks, end.ticks, start.ticks, end.ticks);
        match acc.checked_add(t as u128) {
            Some(s) => acc = s,
            None => {
                proof {
                    lemma_tail_prefix(times@, start, end, i as int + 1);
                }
                return None;
            },
        }
        i = i + 1;
    }
    assert(times@.subrange(0, n as int) =~= times@);
    Some(acc)
}

proof fn lemma_tail_prefix(s: Seq<TimeStamp>, start: TimeStamp, end: TimeStamp, k: int)
    requires
        0 <= k <= s.len(),
    ensures
        tail_total(s.subrange(0, k), start, end) <= tail_total(s, start, end),
    decreases s.len() - k,
{
    if k < s.len() {
        lemma_tail_prefix(s, start, end, k + 1);
        assert(s.subrange(0, k + 1).drop_last() =~= s.subrange(0, k));
    } else {
        assert(s.subrange(0, k) =~= s);
    }
}

/// Time within `[start, end]` during which the snapshots show a workstation able to
/// assemble.
pub fn working_time(states: &Vec<(TimeStamp, Type)>, start: TimeStamp, end: TimeStamp) -> (r: u128)
    ensures
        r == working_total(states@, start, end),
{
    let n = states.len();
    if n < 2 {
        return 0;
    }
    let mut acc: u128 = 0;
    let mut i: usize = 1;
    assert(states@.subrange(0, 1).len() == 1);
    while i < n
        invariant
            1 <= i <= n,
            n == states@.len(),
            acc == working_total(states@.subrange(0, i as int), start, end),
            acc <= (i - 1) * 0x1_0000_0000_0000_0000,
        decreases n - i,
    {
        assert(states@.subrange(0, i + 1).drop_last() =~= states@.subrange(0, i as int));
        let a = states[i - 1];
        let b = states[i];
        let t: u64 = if a.1.can_work() { clip_exec(a.0.ticks, b.0.ticks, start.ticks, end.ticks) } else { 0 };
        assert(i <= usize::MAX);
        acc = acc + t as u128;
        i = i + 1;
    }
    assert(states@.subrange(0, n as int) =~= states@);
    acc
}

/// Integral over `[start, end]` of how many components of `kind` the snapshots show
/// waiting at a workstation.
pub fn occupancy(states: &Vec<(TimeStamp, Type)>, kind: ComponentKind, start: TimeStamp, end: TimeStamp) -> (r:
    Option<u128>)
    ensures
        r matches Some(v) ==> v == occupancy_total(states@, kind, start, end),
        r is None ==> occupancy_total(states@, kind, start, end) > u128::MAX,
{
    let n = states.len();
    if n < 2 {
        return Some(0);
    }
    let mut acc: u128 = 0;
    let mut i: usize = 1;
    assert(states@.subrange(0, 1).len() == 1);
    while i < n
        invariant
            1 <= i <= n,
            n == states@.len(),
            acc == occupancy_total(states@.subrange(0, i as int), kind, start, end),
        decreases n - i,
    {
        assert(states@.subrange(0, i + 1).drop_last() =~= states@.subrange(0, i as int));
        let a = states[i - 1];
        let b = states[i];
        let span = clip_exec(a.0.ticks, b.0.ticks, start.ticks, end.ticks);
        let count: u128 = match (kind, a.1) {
            (ComponentKind::C1, t) => t.c1_in_waiting() as u128,
            (ComponentKind::C2, Type::W2(_, buf)) => buf.present_count() as u128,
            (ComponentKind::C3, Type::W3(_, buf)) => buf.present_count() as u128,
            _ => 0,
        };
        assert(count <= 2);
        assert(count * (span as u128) <= 2 * 0xFFFF_FFFF_FFFF_FFFF) by (nonlinear_arith)
            requires
                count <= 2,
                span <= 0xFFFF_FFFF_FFFF_FFFF,
        ;
        match acc.checked_add(count * (span as u128)) {
            Some(s) => acc = s,
            None => {
                proof {
                    lemma_occupancy_prefix(states@, kind, start, end, i as int + 1);
                }
                return None;
            },
        }
        i = i + 1;
    }
    assert(states@.subrange(0, n as int) =~= states@);
    Some(acc)
}

proof fn lemma_occupancy_prefix(
    s: Seq<(TimeStamp, Type)>,
    kind: ComponentKind,
    start: TimeStamp,
    end: TimeStamp,
    k: int,
)
    requires
        0 <= k <= s.len(),
    ensures
        occupancy_total(s.subrange(0, k), kind, start, end) <= occupancy_total(s, kind, start, end),
    decreases s.len() - k,
{
    if k < s.len() {
        lemma_occupancy_prefix(s, kind, start, end, k + 1);
        assert(s.subrange(0, k + 1).drop_last() =~= s.subrange(0, k));
    } else {
        assert(s.subrange(0, k) =~= s);
    }
}

/// Time within `[start, end]` during which a flag was up, given its value at the
/// epoch and the time of each change.
pub fn up_time(log: &Vec<TimeStamp>, initially: bool, start: TimeStamp, end: TimeStamp) -> (r: Option<u128>)
    ensures
        r matches Some(v) ==> v == up_total(log@, initially, start, end, log@.len() as int + 1),
        r is None ==> up_total(log@, initially, start, end, log@.len() as int + 1) > u128::MAX,
{
    let n = log.len();
    let mut acc: u128 = 0;
    let mut i: usize = 0;
    let mut up = initially;
    while i < n
        invariant
            0 <= i <= n,
            n == log@.len(),
            up == segment_up(initially, i as int),
            acc == up_total(log@, initially, start, end, i as int),
        decreases n - i,
    {
        let a: u64 = if i == 0 { 0 } else { log[i - 1].ticks };
        let b: u64 = log[i].ticks;
        let t: u64 = if up { clip_exec(a, b, start.ticks, end.ticks) } else { 0 };
        match acc.checked_add(t as u128) {
            Some(s) => acc = s,
            None => {
                proof {
                    lemma_up_prefix(log@, initially, start, end, i as int + 1, n as int + 1);
                }
                return None;
            },
        }
        up = !up;
        i = i + 1;
    }
    let a: u64 = if n == 0 { 0 } else { log[n - 1].ticks };
    let t: u64 = if up { clip_exec(a, end.ticks, start.ticks, end.ticks) } else { 0 };
    acc.checked_add(t as u128)
}

proof fn lemma_up_prefix(log: Seq<TimeStamp>, initially: bool, start: TimeStamp, end: TimeStamp, k: int, n: int)
    requires
        0 <= k <= n,
    ensures
        up_total(log, initially, start, end, k) <= up_total(log, initially, start, end, n),
    decreases n - k,
{
    if k < n {
        lemma_up_prefix(log, initially, start, end, k + 1, n);
    }
}

} // verus!
