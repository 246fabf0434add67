use vstd::prelude::*;
use std::collections::VecDeque;
use crate::component::{Component, ComponentKind, Stage};
use crate::product::Product;
use crate::random::Random;
use crate::simulation::{Duration, TimeStamp, total_ticks};

verus! {

/// A held component is being inspected or waits, finished, for a buffer.
pub open spec fn held_ok(held: Option<Component>, kind: ComponentKind) -> bool {
    held matches Some(c) ==> {
        &&& c.kind == kind
        &&& c.wf()
        &&& (c.stage is Inspecting || c.stage is Finished)
    }
}

pub open spec fn is_inspecting(held: Option<Component>) -> bool {
    held matches Some(c) && c.stage is Inspecting
}

pub open spec fn is_done(held: Option<Component>) -> bool {
    held matches Some(c) && c.stage is Finished
}

pub open spec fn count_of(held: Option<Component>) -> nat {
    if held is Some { 1 } else { 0 }
}

/// Weight of a held slot in the amount of work left: 3 while inspecting, 2 once finished.
pub open spec fn held_weight(held: Option<Component>) -> nat {
    if is_inspecting(held) {
        3
    } else if held is Some {
        2
    } else {
        0
    }
}

/// The flag log after the flag goes from `was` to `now_blocked` at `now`: a time
/// stamp is logged on every change.
pub open spec fn logged(log: Seq<TimeStamp>, was: bool, now_blocked: bool, now: TimeStamp) -> Seq<TimeStamp> {
    if was != now_blocked {
        log.push(now)
    } else {
        log
    }
}

/// A held component whose inspection ends at `now`.
pub open spec fn finished_at(c: Component, now: TimeStamp) -> Component {
    Component { stage: Stage::Finished { start: c.start_spec(), end: now }, ..c }
}

/// The state of role 1 as plain values.
pub struct Inspector1Model {
    pub supply: Seq<Duration>,
    pub held: Option<Component>,
    pub next: Option<TimeStamp>,
    pub blocked: bool,
    pub blocked_times: Seq<TimeStamp>,
    pub inspection_times: Seq<TimeStamp>,
    pub departure_times: Seq<TimeStamp>,
    pub placed: nat,
}

impl Inspector1Model {
    pub open spec fn blocked_now(self) -> bool {
        is_done(self.held) || (self.held is None && self.supply.len() > 0)
    }

    pub open spec fn inspect_next(self, now: TimeStamp) -> Inspector1Model {
        if self.supply.len() > 0 {
            let d = self.supply[0];
            Inspector1Model {
                supply: self.supply.drop_first(),
                held: Some(Component { kind: ComponentKind::C1, duration: d, stage: Stage::Inspecting { start: now } }),
                next: Some(TimeStamp { ticks: (now.ticks + d.ticks) as u64 }),
                inspection_times: self.inspection_times.push(now),
                ..self
            }
        } else {
            Inspector1Model { next: None, ..self }
        }
    }

    pub open spec fn finish(self, now: TimeStamp) -> Inspector1Model {
        Inspector1Model { held: Some(finished_at(self.held.unwrap(), now)), next: None, ..self }
    }

    pub open spec fn remove(self) -> Inspector1Model {
        Inspector1Model { held: None, placed: self.placed + 1, ..self }
    }

    pub open spec fn refresh(self, now: TimeStamp) -> Inspector1Model {
        Inspector1Model {
            blocked: self.blocked_now(),
            blocked_times: logged(self.blocked_times, self.blocked, self.blocked_now(), now),
            ..self
        }
    }

    pub open spec fn log_departure(self, now: TimeStamp) -> Inspector1Model {
        Inspector1Model { departure_times: self.departure_times.push(now), ..self }
    }
}

/// The role-1 inspector: it inspects C1 components only.
pub struct Inspector1 {
    pub durations_c1: VecDeque<Duration>,
    pub held_component: Option<Component>,
    /// End of the inspection in progress.
    pub next_finish_time: Option<TimeStamp>,
    pub is_blocked: bool,
    /// Time of every change of the blocked flag.
    pub blocked_times: Vec<TimeStamp>,
    /// Start time of every inspection.
    pub inspection_times: Vec<TimeStamp>,
    /// Time of every P1 assembled.
    pub departure_times: Vec<TimeStamp>,
    /// Components placed into buffers.
    pub placed: usize,
}

impl Inspector1 {
    pub open spec fn model(&self) -> Inspector1Model {
        Inspector1Model {
            supply: self.durations_c1@,
            held: self.held_component,
            next: self.next_finish_time,
            blocked: self.is_blocked,
            blocked_times: self.blocked_times@,
            inspection_times: self.inspection_times@,
            departure_times: self.departure_times@,
            placed: self.placed as nat,
        }
    }

    pub open spec fn supply(&self) -> Seq<Duration> {
        self.durations_c1@
    }

    pub open spec fn wf(&self) -> bool {
        &&& held_ok(self.held_component, ComponentKind::C1)
        &&& (self.next_finish_time is Some <==> is_inspecting(self.held_component))
        &&& (self.next_finish_time matches Some(f) ==> f.ticks == self.held_component.unwrap().start_spec().ticks
            + self.held_component.unwrap().duration.ticks)
        &&& self.inspection_times@.len() == self.placed + count_of(self.held_component)
    }

    /// Blocked: it holds a finished component that found no room, or it has
    /// work left but nothing in hand (before the run starts).
    pub open spec fn blocked_spec(&self) -> bool {
        is_done(self.held_component) || (self.held_component is None && self.supply().len() > 0)
    }

    pub open spec fn flag_ok(&self) -> bool {
        self.is_blocked == self.blocked_spec()
    }

    /// Work left, weighted so that every step of a component's life lowers it.
    pub open spec fn measure(&self) -> nat {
        4 * self.supply().len() + held_weight(self.held_component)
    }

    /// Components that may still reach a buffer.
    pub open spec fn future(&self) -> nat {
        self.supply().len() + count_of(self.held_component)
    }

    pub fn new(durations_c1: VecDeque<Duration>) -> (r: Inspector1)
        ensures
            r.wf(),
            r.flag_ok(),
            r.supply() == durations_c1@,
            r.held_component is None,
            r.next_finish_time is None,
            r.blocked_times@.len() == 0,
            r.inspection_times@.len() == 0,
            r.departure_times@.len() == 0,
            r.placed == 0,
    {
        let blocked = durations_c1.len() > 0;
        Inspector1 {
            durations_c1,
            held_component: None,
            next_finish_time: None,
            is_blocked: blocked,
            blocked_times: Vec::new(),
            inspection_times: Vec::new(),
            departure_times: Vec::new(),
            placed: 0,
        }
    }

    pub fn is_1(&self) -> (r: bool)
        ensures
            r,
    {
        true
    }

    pub fn name(&self) -> (r: &'static str)
        ensures
            r@ == "Inspector1"@,
    {
        proof { reveal_strlit("Inspector1"); }
        "Inspector1"
    }

    pub fn is_blocked(&self) -> (r: bool)
        ensures
            r == self.is_blocked,
    {
        self.is_blocked
    }

    /// Whether a product of this kind leaves with this inspector's output.
    pub fn produces(&self, product: &Product) -> (r: bool)
        ensures
            r == (*product is P1),
    {
        match product {
            Product::P1(..) => true,
            _ => false,
        }
    }

    pub fn next_end_time(&self) -> (r: Option<TimeStamp>)
        ensures
            r == self.next_finish_time,
    {
        self.next_finish_time
    }

    /// Starts inspecting the next C1 of the supply at `now`, if any is left.
    pub fn inspect_next(&mut self, now: TimeStamp) -> (r: Option<Component>)
        requires
            old(self).wf(),
            old(self).held_component is None,
            now.ticks + total_ticks(old(self).supply()) <= u64::MAX,
        ensures
            final(self).model() == old(self).model().inspect_next(now),
            final(self).wf(),
            final(self).is_blocked == old(self).is_blocked,
            final(self).blocked_times == old(self).blocked_times,
            final(self).departure_times == old(self).departure_times,
            final(self).placed == old(self).placed,
            if old(self).supply().len() > 0 {
                let c = Component {
                    kind: ComponentKind::C1,
                    duration: old(self).supply()[0],
                    stage: Stage::Inspecting { start: now },
                };
                &&& r == Some(c)
                &&& final(self).held_component == Some(c)
                &&& final(self).supply() == old(self).supply().drop_first()
                &&& final(self).next_finish_time == Some(TimeStamp { ticks: (now.ticks + c.duration.ticks) as u64 })
                &&& final(self).inspection_times@ == old(self).inspection_times@.push(now)
                &&& now.ticks + c.duration.ticks + total_ticks(final(self).supply()) == now.ticks
                    + total_ticks(old(self).supply())
            } else {
                &&& r is None
                &&& final(self).held_component is None
                &&& final(self).supply() == old(self).supply()
                &&& final(self).next_finish_time is None
                &&& final(self).inspection_times == old(self).inspection_times
            },
    {
        match self.durations_c1.pop_front() {
            Some(d) => {
                assert(self.supply() =~= old(self).supply().drop_first());
                let c = Component::started(ComponentKind::C1, d, now);
                self.next_finish_time = Some(now.add_duration(d));
                self.held_component = Some(c);
                self.inspection_times.push(now);
                Some(c)
            },
            None => {
                self.next_finish_time = None;
                None
            },
        }
    }

    /// Stamps the end of the inspection in progress, which ends at `now`.
    pub fn finish_inspection(&mut self, now: TimeStamp)
        requires
            old(self).wf(),
            old(self).next_finish_time == Some(now),
        ensures
            final(self).model() == old(self).model().finish(now),
            final(self).wf(),
            final(self).held_component == Some(finished_at(old(self).held_component.unwrap(), now)),
            final(self).next_finish_time is None,
            final(self).durations_c1 == old(self).durations_c1,
            final(self).is_blocked == old(self).is_blocked,
            final(self).blocked_times == old(self).blocked_times,
            final(self).inspection_times == old(self).inspection_times,
            final(self).departure_times == old(self).departure_times,
            final(self).placed == old(self).placed,
    {
        let mut c = self.held_component.unwrap();
        c.finish_inspecting(now);
        self.held_component = Some(c);
        self.next_finish_time = None;
    }

    /// Lets go of the finished component once a buffer took it.
    pub fn remove_component(&mut self)
        requires
            old(self).wf(),
            is_done(old(self).held_component),
        ensures
            final(self).model() == old(self).model().remove(),
            final(self).wf(),
            final(self).held_component is None,
            final(self).placed == old(self).placed + 1,
            final(self).durations_c1 == old(self).durations_c1,
            final(self).next_finish_time == old(self).next_finish_time,
            final(self).is_blocked == old(self).is_blocked,
            final(self).blocked_times == old(self).blocked_times,
            final(self).inspection_times == old(self).inspection_times,
            final(self).departure_times == old(self).departure_times,
    {
        // Every placed or held component has a logged start, so the count fits.
        let starts = self.inspection_times.len();
        assert(self.placed < starts);
        self.held_component = None;
        self.placed = self.placed + 1;
    }

    /// Brings the blocked flag up to date at `now`, logging a change.
    pub fn refresh_blocked(&mut self, now: TimeStamp)
        requires
            old(self).wf(),
        ensures
            final(self).model() == old(self).model().refresh(now),
            final(self).flag_ok(),
            final(self).blocked_times@ == logged(old(self).blocked_times@, old(self).is_blocked,
                old(self).blocked_spec(), now),
            final(self).durations_c1 == old(self).durations_c1,
            final(self).held_component == old(self).held_component,
            final(self).next_finish_time == old(self).next_finish_time,
            final(self).inspection_times == old(self).inspection_times,
            final(self).departure_times == old(self).departure_times,
            final(self).placed == old(self).placed,
    {
        let blocked = match self.held_component {
            Some(c) => c.is_finished(),
            None => self.durations_c1.len() > 0,
        };
        if blocked != self.is_blocked {
            self.blocked_times.push(now);
            self.is_blocked = blocked;
        }
    }

    pub fn log_departure(&mut self, now: TimeStamp)
        ensures
            final(self).model() == old(self).model().log_departure(now),
            final(self).departure_times@ == old(self).departure_times@.push(now),
            final(self).durations_c1 == old(self).durations_c1,
            final(self).held_component == old(self).held_component,
            final(self).next_finish_time == old(self).next_finish_time,
            final(self).is_blocked == old(self).is_blocked,
            final(self).blocked_times == old(self).blocked_times,
            final(self).inspection_times == old(self).inspection_times,
            final(self).placed == old(self).placed,
    {
        self.departure_times.push(now);
    }
}

/// Whether the choice of role 2's next kind comes down to a coin: both kinds have
/// supply and a free slot, and buffer fullness does not decide.
pub open spec fn draws_coin(has2: bool, has3: bool, free2: bool, free3: bool, full2: bool, full3: bool) -> bool {
    &&& has2 && has3
    &&& !(full2 && !full3 && free3)
    &&& !(full3 && !full2 && free2)
    &&& !(full2 && full3)
    &&& free2 && free3
}

/// Role 2's choice of the next kind to inspect. Only a kind with supply and no
/// component in hand can be chosen. With supply of one kind only, that kind;
/// with both, the kind whose buffer has room when the other's is full; none when
/// both buffers are full; else the coin (true: C3).
pub open spec fn decide_spec(
    has2: bool,
    has3: bool,
    free2: bool,
    free3: bool,
    full2: bool,
    full3: bool,
    coin: bool,
) -> Option<ComponentKind> {
    if !has2 && !has3 {
        None
    } else if has2 && !has3 {
        if free2 { Some(ComponentKind::C2) } else { None }
    } else if !has2 && has3 {
        if free3 { Some(ComponentKind::C3) } else { None }
    } else if full2 && !full3 && free3 {
        Some(ComponentKind::C3)
    } else if full3 && !full2 && free2 {
        Some(ComponentKind::C2)
    } else if full2 && full3 {
        None
    } else if free2 && free3 {
        if coin { Some(ComponentKind::C3) } else { Some(ComponentKind::C2) }
    } else if free2 {
        Some(ComponentKind::C2)
    } else if free3 {
        Some(ComponentKind::C3)
    } else {
        None
    }
}

/// The state of role 2 as plain values.
pub struct Inspector2Model {
    pub supply2: Seq<Duration>,
    pub supply3: Seq<Duration>,
    pub held2: Option<Component>,
    pub held3: Option<Component>,
    pub next: Option<(ComponentKind, TimeStamp)>,
    pub blocked: bool,
    pub random: Random,
    pub blocked_times: Seq<TimeStamp>,
    pub inspection_times: Seq<TimeStamp>,
    pub departure_times: Seq<TimeStamp>,
    pub placed: nat,
}

impl Inspector2Model {
    pub open spec fn blocked_now(self) -> bool {
        is_done(self.held2) || is_done(self.held3) || (self.next is None && (self.supply2.len() > 0
            || self.supply3.len() > 0))
    }

    /// Whether choosing the next kind given these buffer states draws a coin.
    pub open spec fn coin_drawn(self, full2: bool, full3: bool) -> bool {
        draws_coin(self.supply2.len() > 0, self.supply3.len() > 0, self.held2 is None, self.held3 is None, full2, full3)
    }

    /// The source after choosing the next kind.
    pub open spec fn random_after(self, full2: bool, full3: bool) -> Random {
        if self.coin_drawn(full2, full3) {
            Random { gen: self.random.gen.advanced() }
        } else {
            self.random
        }
    }

    /// The next kind to inspect.
    pub open spec fn choice(self, full2: bool, full3: bool) -> Option<ComponentKind> {
        decide_spec(self.supply2.len() > 0, self.supply3.len() > 0, self.held2 is None, self.held3 is None, full2,
            full3, self.coin_drawn(full2, full3) && self.random_after(full2, full3).gen.x % 2 == 0)
    }

    pub open spec fn inspect_next(self, now: TimeStamp, full2: bool, full3: bool) -> Inspector2Model {
        let m = Inspector2Model { random: self.random_after(full2, full3), ..self };
        match self.choice(full2, full3) {
            Some(ComponentKind::C2) => {
                let d = self.supply2[0];
                Inspector2Model {
                    supply2: self.supply2.drop_first(),
                    held2: Some(Component { kind: ComponentKind::C2, duration: d, stage: Stage::Inspecting { start: now } }),
                    next: Some((ComponentKind::C2, TimeStamp { ticks: (now.ticks + d.ticks) as u64 })),
                    inspection_times: self.inspection_times.push(now),
                    ..m
                }
            },
            Some(_) => {
                let d = self.supply3[0];
                Inspector2Model {
                    supply3: self.supply3.drop_first(),
                    held3: Some(Component { kind: ComponentKind::C3, duration: d, stage: Stage::Inspecting { start: now } }),
                    next: Some((ComponentKind::C3, TimeStamp { ticks: (now.ticks + d.ticks) as u64 })),
                    inspection_times: self.inspection_times.push(now),
                    ..m
                }
            },
            None => m,
        }
    }

    pub open spec fn finish(self, now: TimeStamp) -> Inspector2Model {
        if self.next.unwrap().0 == ComponentKind::C2 {
            Inspector2Model { held2: Some(finished_at(self.held2.unwrap(), now)), next: None, ..self }
        } else {
            Inspector2Model { held3: Some(finished_at(self.held3.unwrap(), now)), next: None, ..self }
        }
    }

    pub open spec fn remove(self, kind: ComponentKind) -> Inspector2Model {
        if kind == ComponentKind::C2 {
            Inspector2Model { held2: None, placed: self.placed + 1, ..self }
        } else {
            Inspector2Model { held3: None, placed: self.placed + 1, ..self }
        }
    }

    pub open spec fn refresh(self, now: TimeStamp) -> Inspector2Model {
        Inspector2Model {
            blocked: self.blocked_now(),
            blocked_times: logged(self.blocked_times, self.blocked, self.blocked_now(), now),
            ..self
        }
    }

    pub open spec fn log_departure(self, now: TimeStamp) -> Inspector2Model {
        Inspector2Model { departure_times: self.departure_times.push(now), ..self }
    }
}

/// The role-2 inspector: it inspects C2 and C3 components, one at a time, and may
/// hold one of each.
pub struct Inspector2 {
    pub durations_c2: VecDeque<Duration>,
    pub durations_c3: VecDeque<Duration>,
    pub held_c2: Option<Component>,
    pub held_c3: Option<Component>,
    /// Kind and end of the inspection in progress.
    pub next_finish_time: Option<(ComponentKind, TimeStamp)>,
    pub is_blocked: bool,
    pub random: Random,
    /// Time of every change of the blocked flag.
    pub blocked_times: Vec<TimeStamp>,
    /// Start time of every inspection.
    pub inspection_times: Vec<TimeStamp>,
    /// Time of every P2 or P3 assembled.
    pub departure_times: Vec<TimeStamp>,
    /// Components placed into buffers.
    pub placed: usize,
}

impl Inspector2 {
    pub open spec fn model(&self) -> Inspector2Model {
        Inspector2Model {
            supply2: self.durations_c2@,
            supply3: self.durations_c3@,
            held2: self.held_c2,
            held3: self.held_c3,
            next: self.next_finish_time,
            blocked: self.is_blocked,
            random: self.random,
            blocked_times: self.blocked_times@,
            inspection_times: self.inspection_times@,
            departure_times: self.departure_times@,
            placed: self.placed as nat,
        }
    }

    pub open spec fn supply(&self, kind: ComponentKind) -> Seq<Duration> {
        if kind == ComponentKind::C2 {
            self.durations_c2@
        } else {
            self.durations_c3@
        }
    }

    pub open spec fn held(&self, kind: ComponentKind) -> Option<Component> {
        if kind == ComponentKind::C2 {
            self.held_c2
        } else {
            self.held_c3
        }
    }

    pub open spec fn held_count(&self) -> nat {
        count_of(self.held_c2) + count_of(self.held_c3)
    }

    pub open spec fn wf(&self) -> bool {
        &&& held_ok(self.held_c2, ComponentKind::C2)
        &&& held_ok(self.held_c3, ComponentKind::C3)
        &&& self.random.wf()
        &&& match self.next_finish_time {
            None => !is_inspecting(self.held_c2) && !is_inspecting(self.held_c3),
            Some((k, f)) => {
                &&& (k == ComponentKind::C2 || k == ComponentKind::C3)
                &&& is_inspecting(self.held(k))
                &&& !is_inspecting(self.held(if k == ComponentKind::C2 { ComponentKind::C3 } else { ComponentKind::C2 }))
                &&& f.ticks == self.held(k).unwrap().start_spec().ticks + self.held(k).unwrap().duration.ticks
            },
        }
        &&& self.inspection_times@.len() == self.placed + self.held_count()
    }

    /// Blocked: it holds a finished component that found no room, or it has
    /// work left but nothing under inspection.
    pub open spec fn blocked_spec(&self) -> bool {
        ||| is_done(self.held_c2)
        ||| is_done(self.held_c3)
        ||| (self.next_finish_time is None && (self.durations_c2@.len() > 0 || self.durations_c3@.len() > 0))
    }

    pub open spec fn flag_ok(&self) -> bool {
        self.is_blocked == self.blocked_spec()
    }

    pub open spec fn measure(&self) -> nat {
        4 * (self.durations_c2@.len() + self.durations_c3@.len()) + held_weight(self.held_c2) + held_weight(
            self.held_c3,
        )
    }

    /// Components of `kind` that may still reach a buffer.
    pub open spec fn future(&self, kind: ComponentKind) -> nat {
        self.supply(kind).len() + count_of(self.held(kind))
    }

    /// Role 2 with its own clock-seeded random source.
    pub fn new(durations_c2: VecDeque<Duration>, durations_c3: VecDeque<Duration>) -> (r: Inspector2)
        ensures
            r.wf(),
            r.flag_ok(),
            r.durations_c2@ == durations_c2@,
            r.durations_c3@ == durations_c3@,
            r.held_c2 is None && r.held_c3 is None,
            r.next_finish_time is None,
            r.blocked_times@.len() == 0,
            r.inspection_times@.len() == 0,
            r.departure_times@.len() == 0,
            r.placed == 0,
    {
        Self::with_random(durations_c2, durations_c3, Random::new())
    }

    /// Role 2 drawing its coins from `random`.
    pub fn with_random(durations_c2: VecDeque<Duration>, durations_c3: VecDeque<Duration>, random: Random) -> (r:
        Inspector2)
        requires
            random.wf(),
        ensures
            r.wf(),
            r.flag_ok(),
            r.durations_c2@ == durations_c2@,
            r.durations_c3@ == durations_c3@,
            r.held_c2 is None && r.held_c3 is None,
            r.next_finish_time is None,
            r.random == random,
            r.blocked_times@.len() == 0,
            r.inspection_times@.len() == 0,
            r.departure_times@.len() == 0,
            r.placed == 0,
    {
        let blocked = durations_c2.len() > 0 || durations_c3.len() > 0;
        Inspector2 {
            durations_c2,
            durations_c3,
            held_c2: None,
            held_c3: None,
            next_finish_time: None,
            is_blocked: blocked,
            random,
            blocked_times: Vec::new(),
            inspection_times: Vec::new(),
            departure_times: Vec::new(),
            placed: 0,
        }
    }

    pub fn is_1(&self) -> (r: bool)
        ensures
            !r,
    {
        false
    }

    pub fn name(&self) -> (r: &'static str)
        ensures
            r@ == "Inspector2"@,
    {
        proof { reveal_strlit("Inspector2"); }
        "Inspector2"
    }

    pub fn is_blocked(&self) -> (r: bool)
        ensures
            r == self.is_blocked,
    {
        self.is_blocked
    }

    pub fn produces(&self, product: &Product) -> (r: bool)
        ensures
            r == !(*product is P1),
    {
        match product {
            Product::P1(..) => false,
            _ => true,
        }
    }

    pub fn next_end_time(&self) -> (r: Option<TimeStamp>)
        ensures
            r == (match self.next_finish_time {
                Some((_, t)) => Some(t),
                None => None,
            }),
    {
        match self.next_finish_time {
            Some((_, t)) => Some(t),
            None => None,
        }
    }

    /// Chooses the kind to inspect next, given whether the C2 buffer (at WS2) and the
    /// C3 buffer (at WS3) are full; draws a coin only where `draws_coin` says.
    pub fn decide_next_component(&mut self, c2_full: bool, c3_full: bool) -> (r: Option<ComponentKind>)
        requires
            old(self).wf(),
        ensures
            ({
                let has2 = old(self).durations_c2@.len() > 0;
                let has3 = old(self).durations_c3@.len() > 0;
                let free2 = old(self).held_c2 is None;
                let free3 = old(self).held_c3 is None;
                if draws_coin(has2, has3, free2, free3, c2_full, c3_full) {
                    &&& final(self).random.gen == old(self).random.gen.advanced()
                    &&& r == decide_spec(has2, has3, free2, free3, c2_full, c3_full,
                        final(self).random.gen.x % 2 == 0)
                } else {
                    &&& final(self).random == old(self).random
                    &&& r == decide_spec(has2, has3, free2, free3, c2_full, c3_full, false)
                }
            }),
            final(self).wf(),
            final(self).durations_c2 == old(self).durations_c2,
            final(self).durations_c3 == old(self).durations_c3,
            final(self).held_c2 == old(self).held_c2,
            final(self).held_c3 == old(self).held_c3,
            final(self).next_finish_time == old(self).next_finish_time,
            final(self).is_blocked == old(self).is_blocked,
            final(self).blocked_times == old(self).blocked_times,
            final(self).inspection_times == old(self).inspection_times,
            final(self).departure_times == old(self).departure_times,
            final(self).placed == old(self).placed,
    {
        let has2 = self.durations_c2.len() > 0;
        let has3 = self.durations_c3.len() > 0;
        let free2 = self.held_c2.is_none();
        let free3 = self.held_c3.is_none();
        if !has2 && !has3 {
            None
        } else if has2 && !has3 {
            if free2 { Some(ComponentKind::C2) } else { None }
        } else if !has2 && has3 {
            if free3 { Some(ComponentKind::C3) } else { None }
        } else if c2_full && !c3_full && free3 {
            Some(ComponentKind::C3)
        } else if c3_full && !c2_full && free2 {
            Some(ComponentKind::C2)
        } else if c2_full && c3_full {
            None
        } else if free2 && free3 {
            if self.random.boolean() {
                Some(ComponentKind::C3)
            } else {
                Some(ComponentKind::C2)
            }
        } else if free2 {
            Some(ComponentKind::C2)
        } else if free3 {
            Some(ComponentKind::C3)
        } else {
            None
        }
    }

    /// Starts inspecting the next component at `now`, of the kind
    /// `decide_next_component` picks, if it picks one.
    pub fn inspect_next(&mut self, now: TimeStamp, c2_full: bool, c3_full: bool) -> (r: Option<Component>)
        requires
            old(self).wf(),
            old(self).next_finish_time is None,
            now.ticks + total_ticks(old(self).durations_c2@) + total_ticks(old(self).durations_c3@) <= u64::MAX,
        ensures
            final(self).model() == old(self).model().inspect_next(now, c2_full, c3_full),
            final(self).wf(),
            final(self).is_blocked == old(self).is_blocked,
            final(self).blocked_times == old(self).blocked_times,
            final(self).departure_times == old(self).departure_times,
            final(self).placed == old(self).placed,
            ({
                let has2 = old(self).durations_c2@.len() > 0;
                let has3 = old(self).durations_c3@.len() > 0;
                let free2 = old(self).held_c2 is None;
                let free3 = old(self).held_c3 is None;
                let coin = draws_coin(has2, has3, free2, free3, c2_full, c3_full);
                let choice = decide_spec(has2, has3, free2, free3, c2_full, c3_full,
                    coin && final(self).random.gen.x % 2 == 0);
                &&& (if coin {
                    final(self).random.gen == old(self).random.gen.advanced()
                } else {
                    final(self).random == old(self).random
                })
                &&& match choice {
                    Some(k) => {
                        let c = Component {
                            kind: k,
                            duration: old(self).supply(k)[0],
                            stage: Stage::Inspecting { start: now },
                        };
                        &&& old(self).supply(k).len() > 0
                        &&& old(self).held(k) is None
                        &&& r == Some(c)
                        &&& final(self).held(k) == Some(c)
                        &&& final(self).supply(k) == old(self).supply(k).drop_first()
                        &&& final(self).held(other_kind(k)) == old(self).held(other_kind(k))
                        &&& final(self).supply(other_kind(k)) == old(self).supply(other_kind(k))
                        &&& final(self).next_finish_time == Some((k, TimeStamp { ticks: (now.ticks + c.duration.ticks) as u64 }))
                        &&& final(self).inspection_times@ == old(self).inspection_times@.push(now)
                        &&& now.ticks + c.duration.ticks + total_ticks(final(self).supply(k)) == now.ticks
                            + total_ticks(old(self).supply(k))
                    },
                    None => {
                        &&& r is None
                        &&& final(self).held_c2 == old(self).held_c2
                        &&& final(self).held_c3 == old(self).held_c3
                        &&& final(self).durations_c2 == old(self).durations_c2
                        &&& final(self).durations_c3 == old(self).durations_c3
                        &&& final(self).next_finish_time is None
                        &&& final(self).inspection_times == old(self).inspection_times
                    },
                }
            }),
    {
        let choice = self.decide_next_component(c2_full, c3_full);
        match choice {
            Some(ComponentKind::C2) => {
                let d = self.durations_c2.pop_front().unwrap();
                assert(self.durations_c2@ =~= old(self).durations_c2@.drop_first());
                let c = Component::started(ComponentKind::C2, d, now);
                self.held_c2 = Some(c);
                self.next_finish_time = Some((ComponentKind::C2, now.add_duration(d)));
                self.inspection_times.push(now);
                Some(c)
            },
            Some(_) => {
                let d = self.durations_c3.pop_front().unwrap();
                assert(self.durations_c3@ =~= old(self).durations_c3@.drop_first());
                let c = Component::started(ComponentKind::C3, d, now);
                self.held_c3 = Some(c);
                self.next_finish_time = Some((ComponentKind::C3, now.add_duration(d)));
                self.inspection_times.push(now);
                Some(c)
            },
            None => None,
        }
    }

    /// Stamps the end of the inspection in progress, which ends at `now`.
    pub fn finish_inspection(&mut self, now: TimeStamp)
        requires
            old(self).wf(),
            old(self).next_finish_time matches Some((_, t)) && t == now,
        ensures
            final(self).model() == old(self).model().finish(now),
            final(self).wf(),
            ({
                let k = old(self).next_finish_time.unwrap().0;
                &&& final(self).held(k) == Some(finished_at(old(self).held(k).unwrap(), now))
                &&& final(self).held(other_kind(k)) == old(self).held(other_kind(k))
            }),
            final(self).next_finish_time is None,
            final(self).durations_c2 == old(self).durations_c2,
            final(self).durations_c3 == old(self).durations_c3,
            final(self).random == old(self).random,
            final(self).is_blocked == old(self).is_blocked,
            final(self).blocked_times == old(self).blocked_times,
            final(self).inspection_times == old(self).inspection_times,
            final(self).departure_times == old(self).departure_times,
            final(self).placed == old(self).placed,
    {
        let (k, _) = self.next_finish_time.unwrap();
        match k {
            ComponentKind::C2 => {
                let mut c = self.held_c2.unwrap();
                c.finish_inspecting(now);
                self.held_c2 = Some(c);
            },
            _ => {
                let mut c = self.held_c3.unwrap();
                c.finish_inspecting(now);
                self.held_c3 = Some(c);
            },
        }
        self.next_finish_time = None;
    }

    /// Lets go of the finished component of `kind` once a buffer took it.
    pub fn remove_component(&mut self, kind: ComponentKind)
        requires
            old(self).wf(),
            kind == ComponentKind::C2 || kind == ComponentKind::C3,
            is_done(old(self).held(kind)),
        ensures
            final(self).model() == old(self).model().remove(kind),
            final(self).wf(),
            final(self).held(kind) is None,
            final(self).held(other_kind(kind)) == old(self).held(other_kind(kind)),
            final(self).placed == old(self).placed + 1,
            final(self).durations_c2 == old(self).durations_c2,
            final(self).durations_c3 == old(self).durations_c3,
            final(self).next_finish_time == old(self).next_finish_time,
            final(self).random == old(self).random,
            final(self).is_blocked == old(self).is_blocked,
            final(self).blocked_times == old(self).blocked_times,
            final(self).inspection_times == old(self).inspection_times,
            final(self).departure_times == old(self).departure_times,
    {
        // Every placed or held component has a logged start, so the count fits.
        let starts = self.inspection_times.len();
        assert(self.placed < starts);
        match kind {
            ComponentKind::C2 => self.held_c2 = None,
            _ => self.held_c3 = None,
        }
        self.placed = self.placed + 1;
    }

    /// Brings the blocked flag up to date at `now`, logging a change.
    pub fn refresh_blocked(&mut self, now: TimeStamp)
        requires
            old(self).wf(),
        ensures
            final(self).model() == old(self).model().refresh(now),
            final(self).flag_ok(),
            final(self).wf(),
            final(self).blocked_times@ == logged(old(self).blocked_times@, old(self).is_blocked,
                old(self).blocked_spec(), now),
            final(self).durations_c2 == old(self).durations_c2,
            final(self).durations_c3 == old(self).durations_c3,
            final(self).held_c2 == old(self).held_c2,
            final(self).held_c3 == old(self).held_c3,
            final(self).next_finish_time == old(self).next_finish_time,
            final(self).random == old(self).random,
            final(self).inspection_times == old(self).inspection_times,
            final(self).departure_times == old(self).departure_times,
            final(self).placed == old(self).placed,
    {
        let done2 = match self.held_c2 {
            Some(c) => c.is_finished(),
            None => false,
        };
        let done3 = match self.held_c3 {
            Some(c) => c.is_finished(),
            None => false,
        };
        let idle = self.next_finish_time.is_none() && (self.durations_c2.len() > 0 || self.durations_c3.len() > 0);
        let blocked = done2 || done3 || idle;
        if blocked != self.is_blocked {
            self.blocked_times.push(now);
            self.is_blocked = blocked;
        }
    }

    pub fn log_departure(&mut self, now: TimeStamp)
        ensures
            final(self).model() == old(self).model().log_departure(now),
            final(self).departure_times@ == old(self).departure_times@.push(now),
            final(self).durations_c2 == old(self).durations_c2,
            final(self).durations_c3 == old(self).durations_c3,
            final(self).held_c2 == old(self).held_c2,
            final(self).held_c3 == old(self).held_c3,
            final(self).next_finish_time == old(self).next_finish_time,
            final(self).random == old(self).random,
            final(self).is_blocked == old(self).is_blocked,
            final(self).blocked_times == old(self).blocked_times,
            final(self).inspection_times == old(self).inspection_times,
            final(self).placed == old(self).placed,
    {
        self.departure_times.push(now);
    }
}

/// The kind that role 2 inspects besides `k`.
pub open spec fn other_kind(k: ComponentKind) -> ComponentKind {
    if k == ComponentKind::C2 {
        ComponentKind::C3
    } else {
        ComponentKind::C2
    }
}

} // verus!
