use vstd::prelude::*;
use std::collections::VecDeque;
use crate::component::{Component, ComponentKind};
use crate::event::{EnqueueResult, FacilityEvent};
use crate::inspector::{Inspector1, Inspector1Model, Inspector2, Inspector2Model, is_done, count_of, other_kind, held_weight};
use crate::product::Product;
use crate::random::Random;
use crate::simulation::{Duration, TimeStamp, total_ticks};
use crate::workstation::{Buffer, Type, Workstation, WorkstationModel};

verus! {

/// A held component that finished inspection did so no later than `t`.
pub open spec fn done_by(held: Option<Component>, t: TimeStamp) -> bool {
    is_done(held) ==> held.unwrap().end_spec().ticks <= t.ticks
}

/// A pending event at `f` lies ahead of `clock` and leaves room for `rest` more ticks.
pub open spec fn pending_ok(f: int, clock: TimeStamp, rest: nat) -> bool {
    clock.ticks <= f && f + rest <= u64::MAX
}

pub open spec fn working_count(ws: Workstation) -> nat {
    if ws.is_working_spec() { 1 } else { 0 }
}

/// Index of the workstation that takes a C1 when the three C1 buffers hold
/// `a0`, `a1` and `a2`: the least loaded, ties going to the lower index.
pub open spec fn least_loaded(a0: nat, a1: nat, a2: nat) -> nat {
    if a0 <= a1 && a0 <= a2 {
        0
    } else if a1 <= a2 {
        1
    } else {
        2
    }
}

/// `ws` is idle and every buffer it needs holds a component.
pub open spec fn ready(ws: Workstation) -> bool {
    !ws.is_working_spec() && ws.ws_type.can_work_spec()
}

/// Role 2 has nothing under inspection and nothing finished in hand, but supply
/// left: its last choice found both its buffers full.
pub open spec fn idle2(i: Inspector2Model) -> bool {
    &&& i.next is None
    &&& !is_done(i.held2)
    &&& !is_done(i.held3)
    &&& (i.supply2.len() > 0 || i.supply3.len() > 0)
}

/// Whether role 2 acts on the broadcast of `p`: it holds a finished component of a
/// kind `p` consumed (a C2 for a P2, a C3 for a P3), or it is idle and `p` may have
/// made room in one of its buffers.
pub open spec fn wakes2(i: Inspector2Model, p: Product) -> bool {
    ||| (p is P2 && is_done(i.held2))
    ||| (p is P3 && is_done(i.held3))
    ||| (!(p is P1) && idle2(i))
}

/// The C1 buffer of `ws` has both slots taken.
pub open spec fn c1_full(ws: Workstation) -> bool {
    ws.ws_type.c1_buffer().is_full()
}

/// The C2 or C3 buffer of `ws` has both slots taken.
pub open spec fn other_full(ws: Workstation) -> bool {
    ws.ws_type.other_buffer() matches Some(b) && b.is_full()
}

/// The state of the line as plain values.
pub struct LineModel {
    pub ws1: WorkstationModel,
    pub ws2: WorkstationModel,
    pub ws3: WorkstationModel,
    pub i1: Inspector1Model,
    pub i2: Inspector2Model,
    pub clock: TimeStamp,
}

/// Pending completion time of a workstation.
pub open spec fn ws_pending(w: WorkstationModel) -> Option<TimeStamp> {
    match w.current {
        Some((s, d)) => Some(TimeStamp { ticks: (s.ticks + d.ticks) as u64 }),
        None => None,
    }
}

/// The start notice owed after offering a component to `before`, which became
/// `after`: when the buffer took it and an idle workstation can now begin.
pub open spec fn notice(before: WorkstationModel, after: WorkstationModel, placed: bool, now: TimeStamp) -> Option<
    FacilityEvent,
> {
    if placed && before.current is None && after.ws_type.can_work_spec() {
        Some(FacilityEvent::WorkstationStarted(after.ws_type, now))
    } else {
        None
    }
}

impl LineModel {
    pub open spec fn ws(self, i: int) -> WorkstationModel {
        if i == 0 {
            self.ws1
        } else if i == 1 {
            self.ws2
        } else {
            self.ws3
        }
    }

    pub open spec fn with_ws(self, i: int, w: WorkstationModel) -> LineModel {
        if i == 0 {
            LineModel { ws1: w, ..self }
        } else if i == 1 {
            LineModel { ws2: w, ..self }
        } else {
            LineModel { ws3: w, ..self }
        }
    }

    pub open spec fn pending(self, i: int) -> Option<TimeStamp> {
        if i == 0 {
            ws_pending(self.ws1)
        } else if i == 1 {
            ws_pending(self.ws2)
        } else if i == 2 {
            ws_pending(self.ws3)
        } else if i == 3 {
            self.i1.next
        } else {
            match self.i2.next {
                Some((_, t)) => Some(t),
                None => None,
            }
        }
    }

    pub open spec fn selects(self, i: int, t: TimeStamp) -> bool {
        &&& 0 <= i < 5
        &&& self.pending(i) == Some(t)
        &&& forall|j: int| 0 <= j < 5 ==> (#[trigger] self.pending(j) matches Some(u) ==> t.ticks <= u.ticks)
        &&& forall|j: int| 0 <= j < i ==> (#[trigger] self.pending(j) matches Some(u) ==> t.ticks < u.ticks)
    }

    pub open spec fn measure(self) -> nat {
        4 * self.i1.supply.len() + held_weight(self.i1.held) + 4 * (self.i2.supply2.len() + self.i2.supply3.len())
            + held_weight(self.i2.held2) + held_weight(self.i2.held3) + self.ws1.ws_type.buffered()
            + self.ws2.ws_type.buffered() + self.ws3.ws_type.buffered()
    }

    /// Every workstation after a start notice.
    pub open spec fn dispatch_start(self, e: FacilityEvent) -> LineModel {
        LineModel {
            ws1: self.ws1.respond_to(e),
            ws2: self.ws2.respond_to(e),
            ws3: self.ws3.respond_to(e),
            ..self
        }
    }

    /// Role 1 offers its finished C1 to the least-loaded workstation.
    pub open spec fn place1(self) -> (LineModel, bool, Option<FacilityEvent>) {
        let now = self.clock;
        let target = least_loaded(
            self.ws1.ws_type.c1_buffer().count(),
            self.ws2.ws_type.c1_buffer().count(),
            self.ws3.ws_type.c1_buffer().count(),
        ) as int;
        let w = self.ws(target);
        let placed = !w.ws_type.buffer_of(ComponentKind::C1).is_full();
        let w2 = w.enqueue(self.i1.held.unwrap(), now);
        let m1 = self.with_ws(target, w2);
        let m2 = if placed { LineModel { i1: self.i1.remove(), ..m1 } } else { m1 };
        (m2, placed, notice(w, w2, placed, now))
    }

    /// Role 1 places a finished C1 if a buffer has room, starts its next
    /// inspection with empty hands, and updates its flag.
    pub open spec fn resume1(self) -> (LineModel, Option<FacilityEvent>) {
        let r = if is_done(self.i1.held) { self.place1() } else { (self, false, None) };
        let m = r.0;
        let m2 = if m.i1.held is None { LineModel { i1: m.i1.inspect_next(m.clock), ..m } } else { m };
        (LineModel { i1: m2.i1.refresh(m2.clock), ..m2 }, r.2)
    }

    /// Role 2 offers its finished component of `kind` to its workstation.
    pub open spec fn place2(self, kind: ComponentKind) -> (LineModel, bool, Option<FacilityEvent>) {
        let now = self.clock;
        let c = if kind == ComponentKind::C2 { self.i2.held2.unwrap() } else { self.i2.held3.unwrap() };
        let w = if kind == ComponentKind::C2 { self.ws2 } else { self.ws3 };
        let placed = !w.ws_type.buffer_of(kind).is_full();
        let w2 = w.enqueue(c, now);
        let m = if kind == ComponentKind::C2 { LineModel { ws2: w2, ..self } } else { LineModel { ws3: w2, ..self } };
        let m = if placed { LineModel { i2: m.i2.remove(kind), ..m } } else { m };
        (m, placed, notice(w, w2, placed, now))
    }

    /// Role 2 starts its next inspection.
    pub open spec fn begin2(self) -> LineModel {
        let full2 = self.ws2.ws_type.buffer_of(ComponentKind::C2).count() == 2;
        let full3 = self.ws3.ws_type.buffer_of(ComponentKind::C3).count() == 2;
        LineModel { i2: self.i2.inspect_next(self.clock, full2, full3), ..self }
    }

    /// Role 2 places a finished C2, else a finished C3; with nothing under
    /// inspection and nothing finished left in hand it starts its next
    /// inspection; it updates its flag.
    pub open spec fn resume2(self) -> (LineModel, Option<FacilityEvent>) {
        let r1 = if is_done(self.i2.held2) { self.place2(ComponentKind::C2) } else { (self, false, None) };
        let m1 = r1.0;
        let r2 = if !r1.1 && is_done(m1.i2.held3) {
            let r = m1.place2(ComponentKind::C3);
            (r.0, r.2)
        } else {
            (m1, r1.2)
        };
        let m2 = r2.0;
        let m3 = if m2.i2.next is None && !is_done(m2.i2.held2) && !is_done(m2.i2.held3) {
            m2.begin2()
        } else {
            m2
        };
        (LineModel { i2: m3.i2.refresh(m3.clock), ..m3 }, r2.1)
    }

    /// The broadcast of a product `p` assembled now.
    pub open spec fn dispatch_assembled(self, p: Product) -> LineModel {
        self.assembled1(p).assembled2(p)
    }

    /// Role 1's part of the broadcast of `p`.
    pub open spec fn assembled1(self, p: Product) -> LineModel {
        let m0 = if p is P1 { LineModel { i1: self.i1.log_departure(self.clock), ..self } } else { self };
        let r1 = if m0.i1.blocked { m0.resume1() } else { (m0, None) };
        match r1.1 {
            Some(e) => r1.0.dispatch_start(e),
            None => r1.0,
        }
    }

    /// Role 2's part of the broadcast of `p`.
    pub open spec fn assembled2(self, p: Product) -> LineModel {
        let m2 = if !(p is P1) { LineModel { i2: self.i2.log_departure(self.clock), ..self } } else { self };
        let r2 = if wakes2(m2.i2, p) { m2.resume2() } else { (m2, None) };
        match r2.1 {
            Some(e) => r2.0.dispatch_start(e),
            None => r2.0,
        }
    }

    /// Workstation `idx` completes its assembly now.
    pub open spec fn step_ws(self, idx: int) -> LineModel {
        let w = self.ws(idx);
        self.with_ws(idx, w.respond(self.clock)).dispatch_assembled(w.ws_type.product_at(self.clock))
    }

    /// Role 1 completes its inspection now.
    pub open spec fn step_i1(self) -> LineModel {
        let m = LineModel { i1: self.i1.finish(self.clock), ..self };
        let r = m.resume1();
        match r.1 {
            Some(e) => r.0.dispatch_start(e),
            None => r.0,
        }
    }

    /// Role 2 completes its inspection now.
    pub open spec fn step_i2(self) -> LineModel {
        let m = LineModel { i2: self.i2.finish(self.clock), ..self };
        let r = m.resume2();
        match r.1 {
            Some(e) => r.0.dispatch_start(e),
            None => r.0,
        }
    }

    /// The start of the run.
    pub open spec fn started(self) -> LineModel {
        let r1 = self.resume1();
        let m1 = match r1.1 {
            Some(e) => r1.0.dispatch_start(e),
            None => r1.0,
        };
        let r2 = m1.resume2();
        match r2.1 {
            Some(e) => r2.0.dispatch_start(e),
            None => r2.0,
        }
    }

    /// The actor that acts next and when, if any has an event pending.
    pub open spec fn next_event(self) -> Option<(int, TimeStamp)> {
        if exists|i: int, t: TimeStamp| self.selects(i, t) {
            let (i, t) = choose|i: int, t: TimeStamp| self.selects(i, t);
            Some((i, t))
        } else {
            None
        }
    }

    /// One step of the loop.
    pub open spec fn step(self) -> LineModel {
        match self.next_event() {
            Some((i, t)) => {
                let m = LineModel { clock: t, ..self };
                if i < 3 {
                    m.step_ws(i)
                } else if i == 3 {
                    m.step_i1()
                } else {
                    m.step_i2()
                }
            },
            None => self,
        }
    }

    /// Steps until no event is pending.
    pub open spec fn run(self) -> LineModel
        decreases self.measure(),
    {
        if self.next_event() is None {
            self
        } else if self.step().measure() < self.measure() {
            self.step().run()
        } else {
            self
        }
    }
}

/// A workstation model with empty buffers `t`, nothing made and a snapshot at the epoch.
pub open spec fn fresh_station(t: Type, supply: Seq<Duration>) -> WorkstationModel {
    WorkstationModel { supply, current: None, ws_type: t, products: Seq::empty(), states: seq![(TimeStamp { ticks: 0 }, t)] }
}

/// The line that `FacilitySimulation::new` builds from these supplies and source.
pub open spec fn initial_model(
    ws1: Seq<Duration>,
    ws2: Seq<Duration>,
    ws3: Seq<Duration>,
    c1: Seq<Duration>,
    c2: Seq<Duration>,
    c3: Seq<Duration>,
    random: Random,
) -> LineModel {
    let empty = Buffer { first: None, second: None };
    LineModel {
        ws1: fresh_station(Type::W1(empty), ws1),
        ws2: fresh_station(Type::W2(empty, empty), ws2),
        ws3: fresh_station(Type::W3(empty, empty), ws3),
        i1: Inspector1Model {
            supply: c1,
            held: None,
            next: None,
            blocked: c1.len() > 0,
            blocked_times: Seq::empty(),
            inspection_times: Seq::empty(),
            departure_times: Seq::empty(),
            placed: 0,
        },
        i2: Inspector2Model {
            supply2: c2,
            supply3: c3,
            held2: None,
            held3: None,
            next: None,
            blocked: c2.len() > 0 || c3.len() > 0,
            random,
            blocked_times: Seq::empty(),
            inspection_times: Seq::empty(),
            departure_times: Seq::empty(),
            placed: 0,
        },
        clock: TimeStamp { ticks: 0 },
    }
}

/// The whole line: three workstations, two inspectors and the clock. Actors are
/// registered in this order: WS1, WS2, WS3, role 1, role 2.
pub struct FacilitySimulation {
    pub ws1: Workstation,
    pub ws2: Workstation,
    pub ws3: Workstation,
    pub inspector1: Inspector1,
    pub inspector2: Inspector2,
    pub clock: TimeStamp,
}

/// Sum of the ticks of `v`, if it fits in 64 bits.
pub fn checked_total(v: &VecDeque<Duration>) -> (r: Option<u64>)
    ensures
        r matches Some(t) ==> t == total_ticks(v@),
        r is None ==> total_ticks(v@) > u64::MAX,
{
    let n = v.len();
    let mut acc: u64 = 0;
    let mut i: usize = 0;
    assert(v@.subrange(0, n as int) =~= v@);
    while i < n
        invariant
            0 <= i <= n,
            n == v@.len(),
            acc + total_ticks(v@.subrange(i as int, n as int)) == total_ticks(v@),
        decreases n - i,
    {
        assert(v@.subrange(i as int, n as int).drop_first() =~= v@.subrange(i + 1, n as int));
        let d = v[i];
        match acc.checked_add(d.ticks) {
            Some(s) => acc = s,
            None => return None,
        }
        i = i + 1;
    }
    assert(v@.subrange(n as int, n as int).len() == 0);
    Some(acc)
}

/// Whether the six supplies make a line that can run: their ticks add up within
/// 64 bits, and each workstation has an assembly duration for every component of
/// the kind that limits it (C1 for WS1, C2 for WS2, C3 for WS3).
pub open spec fn supplies_ok(
    ws1: Seq<Duration>,
    ws2: Seq<Duration>,
    ws3: Seq<Duration>,
    c1: Seq<Duration>,
    c2: Seq<Duration>,
    c3: Seq<Duration>,
) -> bool {
    &&& total_ticks(ws1) + total_ticks(ws2) + total_ticks(ws3) + total_ticks(c1) + total_ticks(c2)
        + total_ticks(c3) <= u64::MAX
    &&& c1.len() <= ws1.len()
    &&& c2.len() <= ws2.len()
    &&& c3.len() <= ws3.len()
}

impl FacilitySimulation {
    pub open spec fn model(&self) -> LineModel {
        LineModel {
            ws1: self.ws1.model(),
            ws2: self.ws2.model(),
            ws3: self.ws3.model(),
            i1: self.inspector1.model(),
            i2: self.inspector2.model(),
            clock: self.clock,
        }
    }

    /// A line at time zero with empty buffers and hands, or `None` when the
    /// supplies cannot make a line (see `supplies_ok`).
    pub fn new(
        ws1_durations: VecDeque<Duration>,
        ws2_durations: VecDeque<Duration>,
        ws3_durations: VecDeque<Duration>,
        c1_durations: VecDeque<Duration>,
        c2_durations: VecDeque<Duration>,
        c3_durations: VecDeque<Duration>,
        random: Random,
    ) -> (r: Option<FacilitySimulation>)
        requires
            random.wf(),
        ensures
            r is Some <==> supplies_ok(ws1_durations@, ws2_durations@, ws3_durations@, c1_durations@,
                c2_durations@, c3_durations@),
            r matches Some(s) ==> {
                &&& s.inv()
                &&& s.model() == initial_model(ws1_durations@, ws2_durations@, ws3_durations@, c1_durations@,
                    c2_durations@, c3_durations@, random)
                &&& s.clock.ticks == 0
                &&& s.ws1.supply() == ws1_durations@
                &&& s.ws2.supply() == ws2_durations@
                &&& s.ws3.supply() == ws3_durations@
                &&& s.inspector1.supply() == c1_durations@
                &&& s.inspector2.durations_c2@ == c2_durations@
                &&& s.inspector2.durations_c3@ == c3_durations@
                &&& s.inspector2.random == random
                &&& s.ws1.ws_type == Type::W1(Buffer { first: None, second: None })
                &&& s.ws2.ws_type == Type::W2(Buffer { first: None, second: None }, Buffer { first: None, second: None })
                &&& s.ws3.ws_type == Type::W3(Buffer { first: None, second: None }, Buffer { first: None, second: None })
                &&& s.ws1.current_duration is None && s.ws2.current_duration is None && s.ws3.current_duration is None
                &&& s.ws1.products@.len() == 0 && s.ws2.products@.len() == 0 && s.ws3.products@.len() == 0
                &&& s.inspector1.held_component is None
                &&& s.inspector1.next_finish_time is None
                &&& s.inspector2.held_c2 is None && s.inspector2.held_c3 is None
                &&& s.inspector2.next_finish_time is None
            },
    {
        let t1 = checked_total(&ws1_durations);
        let t2 = checked_total(&ws2_durations);
        let t3 = checked_total(&ws3_durations);
        let t4 = checked_total(&c1_durations);
        let t5 = checked_total(&c2_durations);
        let t6 = checked_total(&c3_durations);
        if t1.is_none() || t2.is_none() || t3.is_none() || t4.is_none() || t5.is_none() || t6.is_none() {
            return None;
        }
        let sum = (t1.unwrap() as u128) + (t2.unwrap() as u128) + (t3.unwrap() as u128) + (t4.unwrap() as u128)
            + (t5.unwrap() as u128) + (t6.unwrap() as u128);
        if sum > u64::MAX as u128 {
            return None;
        }
        if c1_durations.len() > ws1_durations.len() || c2_durations.len() > ws2_durations.len()
            || c3_durations.len() > ws3_durations.len() {
            return None;
        }
        let ws1 = Workstation::new(Type::W1(Buffer::empty()), ws1_durations);
        let ws2 = Workstation::new(Type::W2(Buffer::empty(), Buffer::empty()), ws2_durations);
        let ws3 = Workstation::new(Type::W3(Buffer::empty(), Buffer::empty()), ws3_durations);
        let inspector1 = Inspector1::new(c1_durations);
        let inspector2 = Inspector2::with_random(c2_durations, c3_durations, random);
        let line = FacilitySimulation { ws1, ws2, ws3, inspector1, inspector2, clock: TimeStamp::start() };
        assert(line.ws1.products@ =~= Seq::<Product>::empty());
        assert(line.ws2.products@ =~= Seq::<Product>::empty());
        assert(line.ws3.products@ =~= Seq::<Product>::empty());
        assert(line.inspector1.blocked_times@ =~= Seq::<TimeStamp>::empty());
        assert(line.inspector1.inspection_times@ =~= Seq::<TimeStamp>::empty());
        assert(line.inspector1.departure_times@ =~= Seq::<TimeStamp>::empty());
        assert(line.inspector2.blocked_times@ =~= Seq::<TimeStamp>::empty());
        assert(line.inspector2.inspection_times@ =~= Seq::<TimeStamp>::empty());
        assert(line.inspector2.departure_times@ =~= Seq::<TimeStamp>::empty());
        Some(line)
    }

    /// Ticks of every duration not yet drawn from a supply.
    pub open spec fn remaining(&self) -> nat {
        total_ticks(self.inspector1.supply()) + total_ticks(self.inspector2.durations_c2@) + total_ticks(
            self.inspector2.durations_c3@,
        ) + total_ticks(self.ws1.supply()) + total_ticks(self.ws2.supply()) + total_ticks(self.ws3.supply())
    }

    /// Work left: it falls with every event the loop handles.
    pub open spec fn measure(&self) -> nat {
        self.model().measure()
    }

    /// The invariant of the line, but for the inspectors' blocked flags.
    pub open spec fn core_inv(&self) -> bool {
        let rest = self.remaining();
        &&& self.ws1.ws_type is W1
        &&& self.ws2.ws_type is W2
        &&& self.ws3.ws_type is W3
        &&& self.ws1.wf() && self.ws2.wf() && self.ws3.wf()
        &&& self.ws1.ws_type.enqueued_by(self.clock)
        &&& self.ws2.ws_type.enqueued_by(self.clock)
        &&& self.ws3.ws_type.enqueued_by(self.clock)
        &&& self.inspector1.wf() && self.inspector2.wf()
        &&& done_by(self.inspector1.held_component, self.clock)
        &&& done_by(self.inspector2.held_c2, self.clock)
        &&& done_by(self.inspector2.held_c3, self.clock)
        &&& self.clock.ticks + rest <= u64::MAX
        &&& self.ws1.is_working_spec() ==> pending_ok(self.ws1.end_ticks(), self.clock, rest)
        &&& self.ws2.is_working_spec() ==> pending_ok(self.ws2.end_ticks(), self.clock, rest)
        &&& self.ws3.is_working_spec() ==> pending_ok(self.ws3.end_ticks(), self.clock, rest)
        &&& self.inspector1.next_finish_time matches Some(f) ==> pending_ok(f.ticks as int, self.clock, rest)
        &&& self.inspector2.next_finish_time matches Some((_, f)) ==> pending_ok(f.ticks as int, self.clock, rest)
        &&& self.ws1.ws_type.limiting_count() + self.inspector1.future() <= self.ws1.supply().len()
            + working_count(self.ws1)
        &&& self.ws2.ws_type.limiting_count() + self.inspector2.future(ComponentKind::C2)
            <= self.ws2.supply().len() + working_count(self.ws2)
        &&& self.ws3.ws_type.limiting_count() + self.inspector2.future(ComponentKind::C3)
            <= self.ws3.supply().len() + working_count(self.ws3)
    }

    /// A finished C1 that role 1 still holds was turned away by all three C1 buffers.
    pub open spec fn role1_rejected(&self) -> bool {
        is_done(self.inspector1.held_component) ==> c1_full(self.ws1) && c1_full(self.ws2) && c1_full(self.ws3)
    }

    /// A finished C2 (C3) that role 2 still holds was turned away by WS2's C2
    /// (WS3's C3) buffer.
    pub open spec fn role2_rejected(&self) -> bool {
        &&& is_done(self.inspector2.held_c2) ==> other_full(self.ws2)
        &&& is_done(self.inspector2.held_c3) ==> other_full(self.ws3)
    }

    /// At most one finished component of role 2 faces a buffer with room.
    pub open spec fn role2_retry_ok(&self) -> bool {
        !(is_done(self.inspector2.held_c2) && !other_full(self.ws2) && is_done(self.inspector2.held_c3)
            && !other_full(self.ws3))
    }

    /// The invariant of the line.
    pub open spec fn inv(&self) -> bool {
        &&& self.core_inv()
        &&& self.inspector1.flag_ok()
        &&& self.inspector2.flag_ok()
        &&& self.role1_rejected()
        &&& self.role2_rejected()
    }

    /// A start notice for some workstation, issued now.
    pub open spec fn start_notice(&self, e: FacilityEvent) -> bool {
        e matches FacilityEvent::WorkstationStarted(w, t) && t == self.clock && (w.id() == 1 ==> ready(self.ws1)) && (
        w.id() == 2 ==> ready(self.ws2)) && (w.id() == 3 ==> ready(self.ws3))
    }

    /// Hands a start notice to every workstation.
    pub fn dispatch_start(&mut self, e: FacilityEvent)
        requires
            old(self).core_inv(),
            old(self).start_notice(e),
        ensures
            final(self).model() == old(self).model().dispatch_start(e),
            final(self).core_inv(),
            final(self).measure() == old(self).measure(),
            final(self).clock == old(self).clock,
            final(self).inspector1 == old(self).inspector1,
            final(self).inspector2 == old(self).inspector2,
            final(self).ws1.ws_type == old(self).ws1.ws_type,
            final(self).ws2.ws_type == old(self).ws2.ws_type,
            final(self).ws3.ws_type == old(self).ws3.ws_type,
            final(self).ws1.products == old(self).ws1.products,
            final(self).ws2.products == old(self).ws2.products,
            final(self).ws3.products == old(self).ws3.products,
    {
        self.ws1.respond_to(e);
        self.ws2.respond_to(e);
        self.ws3.respond_to(e);
    }

    /// Offers role 1's finished C1 to the least-loaded workstation (ties to the
    /// first). Returns whether its C1 buffer took it, and a start notice when that
    /// lets an idle workstation begin.
    #[verifier::rlimit(40)]
    fn place_inspector1(&mut self) -> (r: (bool, Option<FacilityEvent>))
        requires
            old(self).core_inv(),
            is_done(old(self).inspector1.held_component),
        ensures
            (final(self).model(), r.0, r.1) == old(self).model().place1(),
            final(self).core_inv(),
            final(self).inspector2 == old(self).inspector2,
            final(self).inspector1.is_blocked == old(self).inspector1.is_blocked,
            final(self).inspector1.blocked_times == old(self).inspector1.blocked_times,
            final(self).measure() <= old(self).measure(),
            final(self).clock == old(self).clock,
            r.0 <==> final(self).inspector1.held_component is None,
            !r.0 ==> *final(self) == *old(self),
            !r.0 ==> c1_full(old(self).ws1) && c1_full(old(self).ws2) && c1_full(old(self).ws3),
            r.1 matches Some(e) ==> final(self).start_notice(e),
            final(self).ws2.ws_type.other_buffer() == old(self).ws2.ws_type.other_buffer(),
            final(self).ws3.ws_type.other_buffer() == old(self).ws3.ws_type.other_buffer(),
            final(self).ws1.products == old(self).ws1.products,
            final(self).ws2.products == old(self).ws2.products,
            final(self).ws3.products == old(self).ws3.products,
    {
        let now = self.clock;
        let c = self.inspector1.held_component.unwrap();
        let a0 = self.ws1.c1_in_waiting();
        let a1 = self.ws2.c1_in_waiting();
        let a2 = self.ws3.c1_in_waiting();
        let res = if a0 <= a1 && a0 <= a2 {
            self.ws1.enqueue(true, c, now)
        } else if a1 <= a2 {
            self.ws2.enqueue(true, c, now)
        } else {
            self.ws3.enqueue(true, c, now)
        };
        match res {
            EnqueueResult::CouldEnqueue(_, _, t, ts, was_working) => {
                self.inspector1.remove_component();
                if !was_working && t.can_work() {
                    (true, Some(FacilityEvent::WorkstationStarted(t, ts)))
                } else {
                    (true, None)
                }
            },
            EnqueueResult::Fail => (false, None),
        }
    }

    /// Role 1 at the current time: a finished C1 in hand goes to the least-loaded
    /// workstation, if its C1 buffer has room; with empty hands, the next
    /// inspection starts. Returns a start notice when the placement lets an idle
    /// workstation begin.
    pub fn resume_inspector1(&mut self) -> (r: Option<FacilityEvent>)
        requires
            old(self).core_inv(),
        ensures
            (final(self).model(), r) == old(self).model().resume1(),
            final(self).core_inv(),
            final(self).inspector1.flag_ok(),
            final(self).inspector2 == old(self).inspector2,
            final(self).measure() <= old(self).measure(),
            final(self).clock == old(self).clock,
            r matches Some(e) ==> final(self).start_notice(e),
            final(self).role1_rejected(),
            final(self).ws2.ws_type.other_buffer() == old(self).ws2.ws_type.other_buffer(),
            final(self).ws3.ws_type.other_buffer() == old(self).ws3.ws_type.other_buffer(),
            final(self).ws1.products == old(self).ws1.products,
            final(self).ws2.products == old(self).ws2.products,
            final(self).ws3.products == old(self).ws3.products,
    {
        let now = self.clock;
        let mut event: Option<FacilityEvent> = None;
        let done = match self.inspector1.held_component {
            Some(c) => c.is_finished(),
            None => false,
        };
        if done {
            let (_, e) = self.place_inspector1();
            event = e;
        }
        if self.inspector1.held_component.is_none() {
            self.inspector1.inspect_next(now);
        }
        self.inspector1.refresh_blocked(now);
        event
    }

    /// Offers role 2's finished component of `kind` to its workstation (C2 to WS2,
    /// C3 to WS3). Returns whether the buffer took it, and a start notice when that
    /// lets an idle workstation begin.
    #[verifier::rlimit(40)]
    fn place_inspector2(&mut self, kind: ComponentKind) -> (r: (bool, Option<FacilityEvent>))
        requires
            old(self).core_inv(),
            kind == ComponentKind::C2 || kind == ComponentKind::C3,
            is_done(old(self).inspector2.held(kind)),
        ensures
            (final(self).model(), r.0, r.1) == old(self).model().place2(kind),
            final(self).core_inv(),
            final(self).inspector1 == old(self).inspector1,
            final(self).inspector2.is_blocked == old(self).inspector2.is_blocked,
            final(self).inspector2.blocked_times == old(self).inspector2.blocked_times,
            final(self).measure() <= old(self).measure(),
            final(self).clock == old(self).clock,
            r.0 <==> final(self).inspector2.held(kind) is None,
            !r.0 ==> final(self).inspector2 == old(self).inspector2,
            !r.0 ==> *final(self) == *old(self),
            !r.0 ==> (kind == ComponentKind::C2 ==> other_full(old(self).ws2)),
            !r.0 ==> (kind == ComponentKind::C3 ==> other_full(old(self).ws3)),
            r.0 ==> (kind == ComponentKind::C2 ==> !other_full(old(self).ws2)),
            r.0 ==> (kind == ComponentKind::C3 ==> !other_full(old(self).ws3)),
            r.0 ==> final(self).inspector2.held(other_kind(kind)) == old(self).inspector2.held(other_kind(kind)),
            r.1 matches Some(e) ==> final(self).start_notice(e),
            final(self).ws1 == old(self).ws1,
            final(self).ws2.ws_type.c1_buffer() == old(self).ws2.ws_type.c1_buffer(),
            final(self).ws3.ws_type.c1_buffer() == old(self).ws3.ws_type.c1_buffer(),
            kind == ComponentKind::C2 ==> final(self).ws3 == old(self).ws3,
            kind == ComponentKind::C3 ==> final(self).ws2 == old(self).ws2,
            final(self).ws1.products == old(self).ws1.products,
            final(self).ws2.products == old(self).ws2.products,
            final(self).ws3.products == old(self).ws3.products,
    {
        let now = self.clock;
        let res = match kind {
            ComponentKind::C2 => {
                let c = self.inspector2.held_c2.unwrap();
                self.ws2.enqueue(false, c, now)
            },
            _ => {
                let c = self.inspector2.held_c3.unwrap();
                self.ws3.enqueue(false, c, now)
            },
        };
        match res {
            EnqueueResult::CouldEnqueue(_, _, t, ts, was_working) => {
                self.inspector2.remove_component(kind);
                if !was_working && t.can_work() {
                    (true, Some(FacilityEvent::WorkstationStarted(t, ts)))
                } else {
                    (true, None)
                }
            },
            EnqueueResult::Fail => (false, None),
        }
    }

    /// Role 2 starts its next inspection, given which of its two buffers are full.
    fn begin_inspector2(&mut self)
        requires
            old(self).core_inv(),
            old(self).inspector2.next_finish_time is None,
        ensures
            final(self).model() == old(self).model().begin2(),
            final(self).core_inv(),
            final(self).inspector1 == old(self).inspector1,
            final(self).ws1 == old(self).ws1,
            final(self).ws2 == old(self).ws2,
            final(self).ws3 == old(self).ws3,
            final(self).inspector2.is_blocked == old(self).inspector2.is_blocked,
            final(self).inspector2.blocked_times == old(self).inspector2.blocked_times,
            final(self).measure() <= old(self).measure(),
            final(self).clock == old(self).clock,
            is_done(final(self).inspector2.held_c2) == is_done(old(self).inspector2.held_c2),
            is_done(final(self).inspector2.held_c3) == is_done(old(self).inspector2.held_c3),
    {
        let now = self.clock;
        let c2 = Component::new(Duration::never(), 2);
        let c3 = Component::new(Duration::never(), 3);
        let c2_full = self.ws2.matching_count(c2) == 2;
        let c3_full = self.ws3.matching_count(c3) == 2;
        self.inspector2.inspect_next(now, c2_full, c3_full);
    }

    /// Role 2 at the current time: a finished C2 in hand goes to WS2, else a
    /// finished C3 to WS3, if its buffer has room; with nothing under inspection
    /// and nothing finished left in hand, the next inspection starts. Returns a
    /// start notice when the placement lets an idle workstation begin.
    pub fn resume_inspector2(&mut self) -> (r: Option<FacilityEvent>)
        requires
            old(self).core_inv(),
            old(self).role2_retry_ok(),
        ensures
            (final(self).model(), r) == old(self).model().resume2(),
            final(self).core_inv(),
            final(self).inspector2.flag_ok(),
            final(self).inspector1 == old(self).inspector1,
            final(self).measure() <= old(self).measure(),
            final(self).clock == old(self).clock,
            r matches Some(e) ==> final(self).start_notice(e),
            final(self).role2_rejected(),
            final(self).ws1 == old(self).ws1,
            final(self).ws2.ws_type.c1_buffer() == old(self).ws2.ws_type.c1_buffer(),
            final(self).ws3.ws_type.c1_buffer() == old(self).ws3.ws_type.c1_buffer(),
            final(self).ws1.products == old(self).ws1.products,
            final(self).ws2.products == old(self).ws2.products,
            final(self).ws3.products == old(self).ws3.products,
    {
        let now = self.clock;
        let mut event: Option<FacilityEvent> = None;
        let mut placed = false;
        let done2 = match self.inspector2.held_c2 {
            Some(c) => c.is_finished(),
            None => false,
        };
        if done2 {
            let (p, e) = self.place_inspector2(ComponentKind::C2);
            placed = p;
            event = e;
        }
        let done3 = match self.inspector2.held_c3 {
            Some(c) => c.is_finished(),
            None => false,
        };
        if !placed && done3 {
            let (_, e) = self.place_inspector2(ComponentKind::C3);
            event = e;
        }
        let still2 = match self.inspector2.held_c2 {
            Some(c) => c.is_finished(),
            None => false,
        };
        let still3 = match self.inspector2.held_c3 {
            Some(c) => c.is_finished(),
            None => false,
        };
        if self.inspector2.next_finish_time.is_none() && !still2 && !still3 {
            self.begin_inspector2();
        }
        self.inspector2.refresh_blocked(now);
        event
    }

    /// Broadcast of a product assembled now: each inspector logs it if it is its
    /// output. Role 1, when blocked, tries again, since every product frees a C1
    /// slot. Role 2 tries again when it holds a finished component of a kind the
    /// product consumed, or when it is idle for want of room (`wakes2`). A start
    /// notice that a placement raises goes to the workstations at once.
    pub fn dispatch_assembled(&mut self, p: Product)
        requires
            old(self).core_inv(),
            old(self).inspector1.flag_ok(),
            old(self).inspector2.flag_ok(),
            !(p is P2) ==> (is_done(old(self).inspector2.held_c2) ==> other_full(old(self).ws2)),
            !(p is P3) ==> (is_done(old(self).inspector2.held_c3) ==> other_full(old(self).ws3)),
            p.timestamp_spec() == old(self).clock,
        ensures
            final(self).model() == old(self).model().dispatch_assembled(p),
            final(self).inv(),
            final(self).measure() <= old(self).measure(),
            final(self).clock == old(self).clock,
            final(self).ws1.products == old(self).ws1.products,
            final(self).ws2.products == old(self).ws2.products,
            final(self).ws3.products == old(self).ws3.products,
    {
        self.assembled_inspector1(p);
        self.assembled_inspector2(p);
    }

    /// Role 1's part of the broadcast of `p`: it logs a P1, and when blocked tries
    /// again, since every product frees a C1 slot.
    fn assembled_inspector1(&mut self, p: Product)
        requires
            old(self).core_inv(),
            old(self).inspector1.flag_ok(),
            old(self).inspector2.flag_ok(),
        ensures
            final(self).model() == old(self).model().assembled1(p),
            final(self).core_inv(),
            final(self).inspector1.flag_ok(),
            final(self).role1_rejected(),
            final(self).inspector2 == old(self).inspector2,
            final(self).ws2.ws_type.other_buffer() == old(self).ws2.ws_type.other_buffer(),
            final(self).ws3.ws_type.other_buffer() == old(self).ws3.ws_type.other_buffer(),
            final(self).measure() <= old(self).measure(),
            final(self).clock == old(self).clock,
            final(self).ws1.products == old(self).ws1.products,
            final(self).ws2.products == old(self).ws2.products,
            final(self).ws3.products == old(self).ws3.products,
    {
        let now = self.clock;
        if self.inspector1.produces(&p) {
            self.inspector1.log_departure(now);
        }
        if self.inspector1.is_blocked() {
            if let Some(e) = self.resume_inspector1() {
                self.dispatch_start(e);
            }
        }
    }

    /// Role 2's part of the broadcast of `p`: it logs a P2 or a P3, and tries
    /// again when it holds a finished component of a kind `p` consumed, or when it
    /// is idle for want of room (`wakes2`).
    fn assembled_inspector2(&mut self, p: Product)
        requires
            old(self).core_inv(),
            old(self).inspector1.flag_ok(),
            old(self).inspector2.flag_ok(),
            old(self).role1_rejected(),
            !(p is P2) ==> (is_done(old(self).inspector2.held_c2) ==> other_full(old(self).ws2)),
            !(p is P3) ==> (is_done(old(self).inspector2.held_c3) ==> other_full(old(self).ws3)),
        ensures
            final(self).model() == old(self).model().assembled2(p),
            final(self).inv(),
            final(self).measure() <= old(self).measure(),
            final(self).clock == old(self).clock,
            final(self).ws1.products == old(self).ws1.products,
            final(self).ws2.products == old(self).ws2.products,
            final(self).ws3.products == old(self).ws3.products,
    {
        let now = self.clock;
        let frees2 = self.inspector2.produces(&p);
        if frees2 {
            self.inspector2.log_departure(now);
        }
        let done2 = match self.inspector2.held_c2 {
            Some(c) => c.is_finished(),
            None => false,
        };
        let done3 = match self.inspector2.held_c3 {
            Some(c) => c.is_finished(),
            None => false,
        };
        let idle = self.inspector2.next_finish_time.is_none() && !done2 && !done3 && (
        self.inspector2.durations_c2.len() > 0 || self.inspector2.durations_c3.len() > 0);
        let wakes = match p {
            Product::P1(..) => false,
            Product::P2(..) => done2 || idle,
            Product::P3(..) => done3 || idle,
        };
        if wakes {
            if let Some(e) = self.resume_inspector2() {
                self.dispatch_start(e);
            }
        }
    }

    /// The workstation at `idx` (0, 1 or 2) completes its assembly now.
    pub fn step_workstation(&mut self, idx: usize)
        requires
            old(self).inv(),
            idx < 3,
            idx == 0 ==> old(self).ws1.is_working_spec() && old(self).ws1.end_ticks() == old(self).clock.ticks,
            idx == 1 ==> old(self).ws2.is_working_spec() && old(self).ws2.end_ticks() == old(self).clock.ticks,
            idx == 2 ==> old(self).ws3.is_working_spec() && old(self).ws3.end_ticks() == old(self).clock.ticks,
        ensures
            final(self).model() == old(self).model().step_ws(idx as int),
            final(self).inv(),
            final(self).measure() < old(self).measure(),
            final(self).clock == old(self).clock,
            idx == 0 ==> final(self).ws1.products@ == old(self).ws1.products@.push(old(self).ws1.ws_type.product_at(old(self).clock)),
            idx == 1 ==> final(self).ws2.products@ == old(self).ws2.products@.push(old(self).ws2.ws_type.product_at(old(self).clock)),
            idx == 2 ==> final(self).ws3.products@ == old(self).ws3.products@.push(old(self).ws3.ws_type.product_at(old(self).clock)),
            idx != 0 ==> final(self).ws1.products == old(self).ws1.products,
            idx != 1 ==> final(self).ws2.products == old(self).ws2.products,
            idx != 2 ==> final(self).ws3.products == old(self).ws3.products,
    {
        let now = self.clock;
        let e = if idx == 0 {
            self.ws1.respond(now)
        } else if idx == 1 {
            self.ws2.respond(now)
        } else {
            self.ws3.respond(now)
        };
        match e {
            Some(FacilityEvent::Assembled(p, _)) => {
                self.dispatch_assembled(p);
            },
            _ => {},
        }
    }

    /// Role 1 completes its inspection now, then places or holds the component.
    pub fn step_inspector1(&mut self)
        requires
            old(self).inv(),
            old(self).inspector1.next_finish_time == Some(old(self).clock),
        ensures
            final(self).model() == old(self).model().step_i1(),
            final(self).inv(),
            final(self).measure() < old(self).measure(),
            final(self).clock == old(self).clock,
            final(self).ws1.products == old(self).ws1.products,
            final(self).ws2.products == old(self).ws2.products,
            final(self).ws3.products == old(self).ws3.products,
    {
        let now = self.clock;
        self.inspector1.finish_inspection(now);
        let e = self.resume_inspector1();
        if let Some(e) = e {
            self.dispatch_start(e);
        }
    }

    /// Role 2 completes its inspection now, then places or holds the component.
    pub fn step_inspector2(&mut self)
        requires
            old(self).inv(),
            old(self).inspector2.next_finish_time matches Some((_, t)) && t == old(self).clock,
        ensures
            final(self).model() == old(self).model().step_i2(),
            final(self).inv(),
            final(self).measure() < old(self).measure(),
            final(self).clock == old(self).clock,
            final(self).ws1.products == old(self).ws1.products,
            final(self).ws2.products == old(self).ws2.products,
            final(self).ws3.products == old(self).ws3.products,
    {
        let now = self.clock;
        self.inspector2.finish_inspection(now);
        let e = self.resume_inspector2();
        if let Some(e) = e {
            self.dispatch_start(e);
        }
    }

    /// Pending event time of the actor at `i`, in registration order.
    pub open spec fn pending(&self, i: int) -> Option<TimeStamp> {
        self.model().pending(i)
    }

    /// Actor `i` has the earliest pending event, at `t`, and no actor registered
    /// before it has one as early.
    pub open spec fn selects(&self, i: int, t: TimeStamp) -> bool {
        self.model().selects(i, t)
    }

    /// No actor has an event pending: the run is over.
    pub open spec fn quiescent(&self) -> bool {
        forall|i: int| 0 <= i < 5 ==> #[trigger] self.pending(i) is None
    }

    /// The actor with the earliest pending event and its time; ties go to the
    /// actor registered first.
    pub fn next_actor_event(&self) -> (r: Option<(usize, TimeStamp)>)
        requires
            self.ws1.wf() && self.ws2.wf() && self.ws3.wf(),
        ensures
            r is None <==> self.quiescent(),
            r matches Some((i, t)) ==> i < 5 && self.selects(i as int, t),
    {
        let times = [
            self.ws1.next_event_time(),
            self.ws2.next_event_time(),
            self.ws3.next_event_time(),
            self.inspector1.next_end_time(),
            self.inspector2.next_end_time(),
        ];
        assert(forall|j: int| 0 <= j < 5 ==> times@[j] == self.pending(j));
        let mut best: Option<(usize, TimeStamp)> = None;
        let mut i: usize = 0;
        while i < 5
            invariant
                0 <= i <= 5,
                forall|j: int| 0 <= j < 5 ==> times@[j] == self.pending(j),
                best is None <==> (forall|j: int| 0 <= j < i ==> #[trigger] self.pending(j) is None),
                best matches Some((b, t)) ==> {
                    &&& b < i
                    &&& self.pending(b as int) == Some(t)
                    &&& forall|j: int| 0 <= j < i ==> (#[trigger] self.pending(j) matches Some(u) ==> t.ticks <= u.ticks)
                    &&& forall|j: int| 0 <= j < b ==> (#[trigger] self.pending(j) matches Some(u) ==> t.ticks < u.ticks)
                },
            decreases 5 - i,
        {
            if let Some(t) = times[i] {
                match best {
                    Some((_, bt)) => {
                        if t.ticks < bt.ticks {
                            best = Some((i, t));
                        }
                    },
                    None => {
                        best = Some((i, t));
                    },
                }
            }
            i = i + 1;
        }
        proof {
            match best {
                Some((b, t)) => {
                    let m = self.model();
                    assert forall|j: int| 0 <= j < 5 implies (#[trigger] m.pending(j) matches Some(u) ==> t.ticks
                        <= u.ticks) by {
                        assert(self.pending(j) == m.pending(j));
                    }
                    assert forall|j: int| 0 <= j < b implies (#[trigger] m.pending(j) matches Some(u) ==> t.ticks
                        < u.ticks) by {
                        assert(self.pending(j) == m.pending(j));
                    }
                },
                None => {},
            }
        }
        best
    }

    /// Index of the actor with the earliest pending event and the time until it.
    pub fn time_until_next_actor_event(&self, now: TimeStamp) -> (r: Option<(usize, Duration)>)
        requires
            self.inv(),
            now.ticks <= self.clock.ticks,
        ensures
            r is None <==> self.quiescent(),
            r matches Some((i, d)) ==> {
                &&& i < 5
                &&& now.ticks + d.ticks <= u64::MAX
                &&& self.selects(i as int, TimeStamp { ticks: (now.ticks + d.ticks) as u64 })
            },
    {
        match self.next_actor_event() {
            Some((i, t)) => {
                assert(self.pending(i as int) == Some(t));
                Some((i, t.duration_since(now)))
            },
            None => None,
        }
    }

    /// Moves the clock to `t`, the earliest pending event.
    fn advance(&mut self, t: TimeStamp, i: usize)
        requires
            old(self).inv(),
            i < 5,
            old(self).pending(i as int) == Some(t),
            forall|j: int| 0 <= j < 5 ==> (#[trigger] old(self).pending(j) matches Some(u) ==> t.ticks <= u.ticks),
        ensures
            final(self).model() == (LineModel { clock: t, ..old(self).model() }),
            final(self).inv(),
            final(self).clock == t,
            final(self).measure() == old(self).measure(),
            final(self).ws1 == old(self).ws1,
            final(self).ws2 == old(self).ws2,
            final(self).ws3 == old(self).ws3,
            final(self).inspector1 == old(self).inspector1,
            final(self).inspector2 == old(self).inspector2,
    {
        assert(old(self).pending(0) matches Some(u) ==> t.ticks <= u.ticks);
        assert(old(self).pending(1) matches Some(u) ==> t.ticks <= u.ticks);
        assert(old(self).pending(2) matches Some(u) ==> t.ticks <= u.ticks);
        assert(old(self).pending(3) matches Some(u) ==> t.ticks <= u.ticks);
        assert(old(self).pending(4) matches Some(u) ==> t.ticks <= u.ticks);
        self.clock = t;
    }

    /// The start of the run: every inspector begins its first inspection.
    pub fn dispatch_simulation_started(&mut self)
        requires
            old(self).inv(),
        ensures
            final(self).model() == old(self).model().started(),
            final(self).inv(),
            final(self).clock == old(self).clock,
    {
        if let Some(e) = self.resume_inspector1() {
            self.dispatch_start(e);
        }
        if let Some(e) = self.resume_inspector2() {
            self.dispatch_start(e);
        }
    }

    /// One step of the loop: the actor with the earliest pending event (ties to
    /// the first registered) acts at that time, and what it announces goes to
    /// every actor. Returns that actor's index, or `None`, with nothing changed,
    /// when no event is pending.
    pub fn step(&mut self) -> (r: Option<usize>)
        requires
            old(self).inv(),
        ensures
            final(self).inv(),
            r is None <==> old(self).quiescent(),
            r is None ==> *final(self) == *old(self),
            final(self).model() == old(self).model().step(),
            r matches Some(i) ==> {
                &&& i < 5
                &&& old(self).selects(i as int, final(self).clock)
                &&& final(self).measure() < old(self).measure()
                &&& i == 0 ==> final(self).ws1.products@ == old(self).ws1.products@.push(
                    old(self).ws1.ws_type.product_at(final(self).clock))
                &&& i == 1 ==> final(self).ws2.products@ == old(self).ws2.products@.push(
                    old(self).ws2.ws_type.product_at(final(self).clock))
                &&& i == 2 ==> final(self).ws3.products@ == old(self).ws3.products@.push(
                    old(self).ws3.ws_type.product_at(final(self).clock))
                &&& i != 0 ==> final(self).ws1.products == old(self).ws1.products
                &&& i != 1 ==> final(self).ws2.products == old(self).ws2.products
                &&& i != 2 ==> final(self).ws3.products == old(self).ws3.products
            },
    {
        let ghost m0 = self.model();
        match self.time_until_next_actor_event(self.clock) {
            None => {
                assert(m0.next_event() is None) by {
                    if exists|i: int, t: TimeStamp| m0.selects(i, t) {
                        let (i, t) = choose|i: int, t: TimeStamp| m0.selects(i, t);
                        assert(self.pending(i) is None);
                    }
                }
                None
            },
            Some((i, d)) => {
                let t = self.clock.add_duration(d);
                proof {
                    let (i2, t2) = choose|i2: int, t2: TimeStamp| m0.selects(i2, t2);
                    lemma_schedule_unique(m0, i as int, t, i2, t2);
                    assert(m0.next_event() == Some((i as int, t)));
                }
                self.advance(t, i);
                if i < 3 {
                    self.step_workstation(i);
                } else if i == 3 {
                    self.step_inspector1();
                } else {
                    self.step_inspector2();
                }
                Some(i)
            },
        }
    }

    /// Runs the line until no actor has an event pending: at every step the actor
    /// with the earliest event acts at that time, and what it announces goes to
    /// every actor. Returns the simulated time elapsed since the epoch.
    pub fn run(&mut self) -> (r: Duration)
        requires
            old(self).inv(),
        ensures
            final(self).inv(),
            final(self).quiescent(),
            old(self).clock.ticks <= final(self).clock.ticks,
            r.ticks == final(self).clock.ticks,
            final(self).model() == old(self).model().started().run(),
    {
        self.dispatch_simulation_started();
        loop
            invariant
                self.inv(),
                old(self).clock.ticks <= self.clock.ticks,
                self.model().run() == old(self).model().started().run(),
            ensures
                self.inv(),
                self.quiescent(),
                old(self).clock.ticks <= self.clock.ticks,
                self.model() == old(self).model().started().run(),
            decreases self.measure(),
        {
            let ghost before = self.model();
            if self.step().is_none() {
                break;
            }
            assert(before.run() == before.step().run());
        }
        self.clock.duration_since(TimeStamp::start())
    }
}

/// In a valid line every buffer holds at most two components, all of its kind,
/// and fills its second slot only after its first; so does every buffer of every
/// logged snapshot.
pub proof fn lemma_buffers_bounded(s: FacilitySimulation)
    requires
        s.inv(),
    ensures
        s.ws1.ws_type.c1_buffer().count() <= 2 && s.ws1.ws_type.c1_buffer().wf(ComponentKind::C1),
        s.ws2.ws_type.c1_buffer().count() <= 2 && s.ws2.ws_type.c1_buffer().wf(ComponentKind::C1),
        s.ws3.ws_type.c1_buffer().count() <= 2 && s.ws3.ws_type.c1_buffer().wf(ComponentKind::C1),
        s.ws2.ws_type.other_buffer().unwrap().count() <= 2 && s.ws2.ws_type.other_buffer().unwrap().wf(
            ComponentKind::C2,
        ),
        s.ws3.ws_type.other_buffer().unwrap().count() <= 2 && s.ws3.ws_type.other_buffer().unwrap().wf(
            ComponentKind::C3,
        ),
        forall|i: int| 0 <= i < s.ws1.buffer_states@.len() ==> (#[trigger] s.ws1.buffer_states@[i]).1.wf(),
        forall|i: int| 0 <= i < s.ws2.buffer_states@.len() ==> (#[trigger] s.ws2.buffer_states@[i]).1.wf(),
        forall|i: int| 0 <= i < s.ws3.buffer_states@.len() ==> (#[trigger] s.ws3.buffer_states@[i]).1.wf(),
{
}

/// Every product a workstation of a valid line has assembled is made of finished
/// components of the kinds it calls for.
pub proof fn lemma_products_well_formed(s: FacilitySimulation)
    requires
        s.inv(),
    ensures
        forall|i: int| 0 <= i < s.ws1.products@.len() ==> #[trigger] s.ws1.products@[i].wf(),
        forall|i: int| 0 <= i < s.ws2.products@.len() ==> #[trigger] s.ws2.products@[i].wf(),
        forall|i: int| 0 <= i < s.ws3.products@.len() ==> #[trigger] s.ws3.products@[i].wf(),
{
}

/// An inspector of a valid line reports itself blocked exactly when it holds a
/// finished component that every buffer it may go to has turned away for want of
/// room: all three C1 buffers for role 1, WS2's C2 buffer or WS3's C3 buffer for
/// role 2. The one exception is an inspector that holds nothing under inspection
/// while supply remains (before the run starts, or role 2 when both its buffers
/// are full): it too reports itself blocked.
pub proof fn lemma_blocked_iff_rejected(s: FacilitySimulation)
    requires
        s.inv(),
    ensures
        !(s.inspector1.held_component is None && s.inspector1.supply().len() > 0) ==> (s.inspector1.is_blocked
            <==> (is_done(s.inspector1.held_component) && c1_full(s.ws1) && c1_full(s.ws2) && c1_full(s.ws3))),
        !(s.inspector2.next_finish_time is None && !is_done(s.inspector2.held_c2) && !is_done(s.inspector2.held_c3)
            && (s.inspector2.durations_c2@.len() > 0 || s.inspector2.durations_c3@.len() > 0)) ==> (
        s.inspector2.is_blocked <==> ((is_done(s.inspector2.held_c2) && other_full(s.ws2)) || (is_done(
            s.inspector2.held_c3,
        ) && other_full(s.ws3)))),
{
}

/// The scheduler leaves nothing to chance: in any state at most one actor, at one
/// time, has the earliest pending event with no earlier-registered actor as early.
pub proof fn lemma_schedule_unique(s: LineModel, i1: int, t1: TimeStamp, i2: int, t2: TimeStamp)
    requires
        s.selects(i1, t1),
        s.selects(i2, t2),
    ensures
        i1 == i2,
        t1 == t2,
{
    if i1 < i2 {
        assert(s.pending(i1) matches Some(u) ==> t2.ticks < u.ticks);
        assert(s.pending(i2) matches Some(u) ==> t1.ticks <= u.ticks);
    } else if i2 < i1 {
        assert(s.pending(i2) matches Some(u) ==> t1.ticks < u.ticks);
        assert(s.pending(i1) matches Some(u) ==> t2.ticks <= u.ticks);
    }
}

/// Determinism: two lines in the same state, which is what `new` gives for the
/// same supplies and random source, end their runs in the same state, every log
/// and product included.
pub proof fn lemma_runs_agree(
    before1: FacilitySimulation,
    after1: FacilitySimulation,
    before2: FacilitySimulation,
    after2: FacilitySimulation,
)
    requires
        before1.model() == before2.model(),
        after1.model() == before1.model().started().run(),
        after2.model() == before2.model().started().run(),
    ensures
        after1.model() == after2.model(),
        after1.ws1.products@ == after2.ws1.products@,
        after1.ws2.products@ == after2.ws2.products@,
        after1.ws3.products@ == after2.ws3.products@,
        after1.ws1.buffer_states@ == after2.ws1.buffer_states@,
        after1.inspector1.blocked_times@ == after2.inspector1.blocked_times@,
        after1.inspector2.blocked_times@ == after2.inspector2.blocked_times@,
        after1.clock == after2.clock,
{
}

/// Every component an inspector began inspecting has been placed into a buffer or
/// is still in its hands.
pub proof fn lemma_conservation(s: FacilitySimulation)
    requires
        s.inv(),
    ensures
        s.inspector1.inspection_times@.len() == s.inspector1.placed + count_of(s.inspector1.held_component),
        s.inspector2.inspection_times@.len() == s.inspector2.placed + count_of(s.inspector2.held_c2) + count_of(
            s.inspector2.held_c3,
        ),
{
}

} // verus!
