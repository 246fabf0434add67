use vstd::prelude::*;
use std::collections::VecDeque;
use crate::component::{Component, ComponentKind};
use crate::event::{EnqueueResult, FacilityEvent};
use crate::product::Product;
use crate::simulation::{Duration, TimeStamp, total_ticks};

verus! {

/// Two slots holding components of one kind; the second is only filled after the first.
#[derive(Clone, Copy, Debug, PartialEq, Eq, Structural)]
pub struct Buffer {
    pub first: Option<Component>,
    pub second: Option<Component>,
}

pub open spec fn slot_ok(slot: Option<Component>, kind: ComponentKind) -> bool {
    slot matches Some(c) ==> c.kind == kind && c.wf() && c.is_enqueued_spec()
}

pub open spec fn slot_by(slot: Option<Component>, t: TimeStamp) -> bool {
    slot matches Some(c) ==> c.enqueue_spec().ticks <= t.ticks
}

impl Buffer {
    pub open spec fn count(&self) -> nat {
        (if self.first is Some { 1nat } else { 0nat }) + (if self.second is Some { 1nat } else { 0nat })
    }

    pub open spec fn wf(&self, kind: ComponentKind) -> bool {
        &&& self.second is Some ==> self.first is Some
        &&& slot_ok(self.first, kind)
        &&& slot_ok(self.second, kind)
    }

    /// Every component held was queued no later than `t`.
    pub open spec fn enqueued_by(&self, t: TimeStamp) -> bool {
        slot_by(self.first, t) && slot_by(self.second, t)
    }

    pub open spec fn is_full(&self) -> bool {
        self.second is Some
    }

    /// `c` placed in the first free slot.
    pub open spec fn pushed(&self, c: Component) -> Buffer {
        if self.first is None {
            Buffer { first: Some(c), second: None }
        } else {
            Buffer { first: self.first, second: Some(c) }
        }
    }

    /// The buffer after one component is taken out, the later-filled slot first.
    pub open spec fn taken(&self) -> Buffer {
        if self.second is Some {
            Buffer { first: self.first, second: None }
        } else {
            Buffer { first: None, second: None }
        }
    }

    /// The component taken out.
    pub open spec fn taken_component(&self) -> Component {
        if self.second is Some {
            self.second.unwrap()
        } else {
            self.first.unwrap()
        }
    }

    pub fn empty() -> (r: Buffer)
        ensures
            r.first is None && r.second is None,
    {
        Buffer { first: None, second: None }
    }

    pub fn present_count(&self) -> (r: usize)
        ensures
            r == self.count(),
    {
        let a: usize = if self.first.is_some() { 1 } else { 0 };
        let b: usize = if self.second.is_some() { 1 } else { 0 };
        a + b
    }

    fn take_first_avail(&mut self) -> (r: Component)
        requires
            old(self).first is Some,
        ensures
            r == old(self).taken_component(),
            *final(self) == old(self).taken(),
    {
        match self.second {
            Some(c) => {
                self.second = None;
                c
            },
            None => {
                let c = self.first.unwrap();
                self.first = None;
                c
            },
        }
    }

    fn push(&mut self, c: Component)
        requires
            !old(self).is_full(),
        ensures
            *final(self) == old(self).pushed(c),
    {
        if self.first.is_none() {
            self.first = Some(c);
        } else {
            self.second = Some(c);
        }
    }
}

/// The buffers of a workstation, after the product it makes: a C1 buffer, and for
/// P2 and P3 a second buffer of C2 or C3.
#[derive(Clone, Copy, Debug, PartialEq, Eq, Structural)]
pub enum Type {
    W1(Buffer),
    W2(Buffer, Buffer),
    W3(Buffer, Buffer),
}

impl Type {
    pub open spec fn id(&self) -> nat {
        match *self {
            Type::W1(..) => 1,
            Type::W2(..) => 2,
            Type::W3(..) => 3,
        }
    }

    pub open spec fn c1_buffer(&self) -> Buffer {
        match *self {
            Type::W1(b) => b,
            Type::W2(b, _) => b,
            Type::W3(b, _) => b,
        }
    }

    pub open spec fn other_buffer(&self) -> Option<Buffer> {
        match *self {
            Type::W1(_) => None,
            Type::W2(_, b) => Some(b),
            Type::W3(_, b) => Some(b),
        }
    }

    /// The kind held in the second buffer.
    pub open spec fn other_kind(&self) -> ComponentKind {
        match *self {
            Type::W3(..) => ComponentKind::C3,
            _ => ComponentKind::C2,
        }
    }

    pub open spec fn wf(&self) -> bool {
        &&& self.c1_buffer().wf(ComponentKind::C1)
        &&& self.other_buffer() matches Some(b) ==> b.wf(self.other_kind())
    }

    pub open spec fn enqueued_by(&self, t: TimeStamp) -> bool {
        &&& self.c1_buffer().enqueued_by(t)
        &&& self.other_buffer() matches Some(b) ==> b.enqueued_by(t)
    }

    /// Whether components of `kind` go into this workstation.
    pub open spec fn accepts(&self, kind: ComponentKind) -> bool {
        kind == ComponentKind::C1 || (self.other_buffer() is Some && kind == self.other_kind())
    }

    pub open spec fn buffer_of(&self, kind: ComponentKind) -> Buffer {
        if kind == ComponentKind::C1 {
            self.c1_buffer()
        } else {
            self.other_buffer().unwrap()
        }
    }

    pub open spec fn with_buffer(&self, kind: ComponentKind, b: Buffer) -> Type {
        match *self {
            Type::W1(_) => Type::W1(b),
            Type::W2(b1, b2) => if kind == ComponentKind::C1 {
                Type::W2(b, b2)
            } else {
                Type::W2(b1, b)
            },
            Type::W3(b1, b2) => if kind == ComponentKind::C1 {
                Type::W3(b, b2)
            } else {
                Type::W3(b1, b)
            },
        }
    }

    /// Every required buffer holds at least one component.
    pub open spec fn can_work_spec(&self) -> bool {
        &&& self.c1_buffer().first is Some
        &&& self.other_buffer() matches Some(b) ==> b.first is Some
    }

    /// Components held in all buffers.
    pub open spec fn buffered(&self) -> nat {
        self.c1_buffer().count() + match self.other_buffer() {
            Some(b) => b.count(),
            None => 0,
        }
    }

    /// Count of the buffer that bounds how many products can still be assembled.
    pub open spec fn limiting_count(&self) -> nat {
        match self.other_buffer() {
            Some(b) => b.count(),
            None => self.c1_buffer().count(),
        }
    }

    /// The buffers after one assembly.
    pub open spec fn taken(&self) -> Type {
        match *self {
            Type::W1(b) => Type::W1(b.taken()),
            Type::W2(b1, b2) => Type::W2(b1.taken(), b2.taken()),
            Type::W3(b1, b2) => Type::W3(b1.taken(), b2.taken()),
        }
    }

    /// The product of one assembly at `ts`.
    pub open spec fn product_at(&self, ts: TimeStamp) -> Product {
        match *self {
            Type::W1(b) => Product::P1(b.taken_component(), ts),
            Type::W2(b1, b2) => Product::P2(b1.taken_component(), b2.taken_component(), ts),
            Type::W3(b1, b2) => Product::P3(b1.taken_component(), b2.taken_component(), ts),
        }
    }

    /// Whether both are the same workstation, whatever their buffers hold.
    pub fn same_station(&self, other: &Type) -> (r: bool)
        ensures
            r == (self.id() == other.id()),
    {
        match (self, other) {
            (Type::W1(..), Type::W1(..)) => true,
            (Type::W2(..), Type::W2(..)) => true,
            (Type::W3(..), Type::W3(..)) => true,
            _ => false,
        }
    }

    pub fn can_work(&self) -> (r: bool)
        ensures
            r == self.can_work_spec(),
    {
        match self {
            Type::W1(b) => b.first.is_some(),
            Type::W2(b1, b2) => b1.first.is_some() && b2.first.is_some(),
            Type::W3(b1, b2) => b1.first.is_some() && b2.first.is_some(),
        }
    }

    /// Whether a component of `component`'s kind waits in a buffer.
    pub fn contains(&self, component: Component) -> (r: bool)
        requires
            self.wf(),
        ensures
            r == (self.accepts(component.kind) && self.buffer_of(component.kind).first is Some),
    {
        match (self, component.kind) {
            (Type::W1(b), ComponentKind::C1) => b.first.is_some(),
            (Type::W2(b, _), ComponentKind::C1) => b.first.is_some(),
            (Type::W3(b, _), ComponentKind::C1) => b.first.is_some(),
            (Type::W2(_, b), ComponentKind::C2) => b.first.is_some(),
            (Type::W3(_, b), ComponentKind::C3) => b.first.is_some(),
            _ => false,
        }
    }

    pub fn c1_in_waiting(&self) -> (r: usize)
        ensures
            r == self.c1_buffer().count(),
    {
        match self {
            Type::W1(b) => b.present_count(),
            Type::W2(b, _) => b.present_count(),
            Type::W3(b, _) => b.present_count(),
        }
    }

    /// How many components of `component`'s kind wait here.
    /// How many components wait in the buffer a component of `component`'s kind
    /// would use: the C1 buffer for a C1, else the second buffer.
    pub fn matching_count(&self, component: Component) -> (r: usize)
        requires
            component.kind == ComponentKind::C1 || !(*self is W1),
        ensures
            r == self.buffer_of(component.kind).count(),
            r <= 2,
    {
        match component.kind {
            ComponentKind::C1 => self.c1_in_waiting(),
            _ => match self {
                Type::W1(b) => b.present_count(),
                Type::W2(_, b) => b.present_count(),
                Type::W3(_, b) => b.present_count(),
            },
        }
    }

    /// The earliest inspection start among the components waiting here.
    pub fn first_enqueue_time(&self) -> (r: Option<TimeStamp>)
        requires
            self.wf(),
        ensures
            r is None <==> self.buffered() == 0,
            r matches Some(t) ==> {
                &&& (self.c1_buffer().first matches Some(c) ==> t.ticks <= c.start_spec().ticks)
                &&& (self.c1_buffer().second matches Some(c) ==> t.ticks <= c.start_spec().ticks)
                &&& (self.other_buffer() matches Some(b) ==> (b.first matches Some(c) ==> t.ticks <= c.start_spec().ticks))
                &&& (self.other_buffer() matches Some(b) ==> (b.second matches Some(c) ==> t.ticks <= c.start_spec().ticks))
                &&& {
                    ||| (self.c1_buffer().first matches Some(c) && t == c.start_spec())
                    ||| (self.c1_buffer().second matches Some(c) && t == c.start_spec())
                    ||| (self.other_buffer() matches Some(b) && b.first matches Some(c) && t == c.start_spec())
                    ||| (self.other_buffer() matches Some(b) && b.second matches Some(c) && t == c.start_spec())
                }
            },
    {
        let (b1, b2) = match self {
            Type::W1(b) => (*b, Buffer::empty()),
            Type::W2(b, o) => (*b, *o),
            Type::W3(b, o) => (*b, *o),
        };
        let mut best: Option<TimeStamp> = None;
        let slots = [b1.first, b1.second, b2.first, b2.second];
        let mut i: usize = 0;
        while i < 4
            invariant
                0 <= i <= 4,
                slots@ == seq![b1.first, b1.second, b2.first, b2.second],
                best is None <==> (forall|j: int| 0 <= j < i ==> slots@[j] is None),
                best matches Some(t) ==> forall|j: int|
                    0 <= j < i ==> (#[trigger] slots@[j] matches Some(c) ==> t.ticks <= c.start_spec().ticks),
                best matches Some(t) ==> exists|j: int|
                    0 <= j < i && (#[trigger] slots@[j] matches Some(c) && t == c.start_spec()),
            decreases 4 - i,
        {
            if let Some(c) = slots[i] {
                let s = match c.stage {
                    crate::component::Stage::Unstarted => TimeStamp::start(),
                    _ => c.inspection_start_time(),
                };
                best = match best {
                    Some(t) => if t.ticks > s.ticks { Some(s) } else { Some(t) },
                    None => Some(s),
                };
            }
            i = i + 1;
        }
        best
    }

    pub open spec fn name_spec(&self) -> Seq<char> {
        match *self {
            Type::W1(..) => "WS1"@,
            Type::W2(..) => "WS2"@,
            Type::W3(..) => "WS3"@,
        }
    }

    pub fn name(&self) -> (r: String)
        ensures
            r@ == self.name_spec(),
    {
        match self {
            Type::W1(..) => {
                proof { reveal_strlit("WS1"); }
                "WS1".to_owned()
            },
            Type::W2(..) => {
                proof { reveal_strlit("WS2"); }
                "WS2".to_owned()
            },
            Type::W3(..) => {
                proof { reveal_strlit("WS3"); }
                "WS3".to_owned()
            },
        }
    }

    fn get_buffer(&self, kind: ComponentKind) -> (r: Buffer)
        requires
            self.accepts(kind),
        ensures
            r == self.buffer_of(kind),
    {
        match (self, kind) {
            (Type::W1(b), _) => *b,
            (Type::W2(b, _), ComponentKind::C1) => *b,
            (Type::W3(b, _), ComponentKind::C1) => *b,
            (Type::W2(_, b), _) => *b,
            (Type::W3(_, b), _) => *b,
        }
    }

    fn set_buffer(&self, kind: ComponentKind, b: Buffer) -> (r: Type)
        ensures
            r == self.with_buffer(kind, b),
    {
        match self {
            Type::W1(_) => Type::W1(b),
            Type::W2(b1, b2) => match kind {
                ComponentKind::C1 => Type::W2(b, *b2),
                _ => Type::W2(*b1, b),
            },
            Type::W3(b1, b2) => match kind {
                ComponentKind::C1 => Type::W3(b, *b2),
                _ => Type::W3(*b1, b),
            },
        }
    }
}

/// Neither buffer of a workstation ever holds more than two components.
pub proof fn lemma_buffer_capacity(t: Type)
    ensures
        t.c1_buffer().count() <= 2,
        t.other_buffer() matches Some(b) ==> b.count() <= 2,
        t.buffered() <= 4,
{
}

/// One assembly consumes exactly one finished C1 and, at WS2 or WS3, exactly one
/// finished C2 or C3: the product has those constituents and the buffers lose
/// as many components as it holds.
pub proof fn lemma_assembly_composition(t: Type, ts: TimeStamp)
    requires
        t.wf(),
        t.can_work_spec(),
    ensures
        t.product_at(ts).wf(),
        t.product_at(ts) is P1 <==> t is W1,
        t.product_at(ts) is P2 <==> t is W2,
        t.product_at(ts) is P3 <==> t is W3,
        t.taken().buffered() + t.product_at(ts).component_count_spec() == t.buffered(),
        t.taken().wf(),
{
}

/// A component as queued at `now`.
pub open spec fn queued_at(c: Component, now: TimeStamp) -> Component {
    Component {
        stage: crate::component::Stage::Enqueued { start: c.start_spec(), end: c.end_spec(), enqueued: now },
        ..c
    }
}

/// The state of a workstation as plain values.
pub struct WorkstationModel {
    pub supply: Seq<Duration>,
    pub current: Option<(TimeStamp, Duration)>,
    pub ws_type: Type,
    pub products: Seq<Product>,
    pub states: Seq<(TimeStamp, Type)>,
}

impl WorkstationModel {
    /// After offering the finished component `c` at `now`.
    pub open spec fn enqueue(self, c: Component, now: TimeStamp) -> WorkstationModel {
        let b = self.ws_type.buffer_of(c.kind);
        if b.is_full() {
            self
        } else {
            let t = self.ws_type.with_buffer(c.kind, b.pushed(queued_at(c, now)));
            WorkstationModel { ws_type: t, states: self.states.push((now, t)), ..self }
        }
    }

    /// After starting an assembly at `t` with the next duration.
    pub open spec fn start(self, t: TimeStamp) -> WorkstationModel {
        WorkstationModel { current: Some((t, self.supply[0])), supply: self.supply.drop_first(), ..self }
    }

    /// After completing the assembly in progress at `now`.
    pub open spec fn respond(self, now: TimeStamp) -> WorkstationModel {
        let t = self.ws_type.taken();
        let m = WorkstationModel {
            ws_type: t,
            current: None,
            products: self.products.push(self.ws_type.product_at(now)),
            states: self.states.push((now, t)),
            ..self
        };
        if t.can_work_spec() {
            m.start(now)
        } else {
            m
        }
    }

    /// After the broadcast event `e`.
    pub open spec fn respond_to(self, e: FacilityEvent) -> WorkstationModel {
        match e {
            FacilityEvent::WorkstationStarted(ws, t) => if ws.id() == self.ws_type.id() {
                self.start(t)
            } else {
                self
            },
            _ => self,
        }
    }
}

/// Offering a component never takes a buffer past two: its count grows by one
/// exactly when it had room, and the offer is accepted exactly then.
pub proof fn lemma_enqueue_count(w: WorkstationModel, c: Component, now: TimeStamp)
    requires
        w.ws_type.wf(),
        w.ws_type.accepts(c.kind),
    ensures
        ({
            let n = w.ws_type.buffer_of(c.kind).count();
            let m = w.enqueue(c, now).ws_type.buffer_of(c.kind).count();
            &&& (n < 2 <==> !w.ws_type.buffer_of(c.kind).is_full())
            &&& m == if n < 2 { n + 1 } else { n }
            &&& m <= 2
        }),
{
}

/// An assembly station: its buffers, its supply of assembly durations, the
/// assembly in progress if any, and its logs.
pub struct Workstation {
    pub assembly_durations: VecDeque<Duration>,
    /// Start time and duration of the assembly in progress.
    pub current_duration: Option<(TimeStamp, Duration)>,
    pub ws_type: Type,
    pub products: Vec<Product>,
    /// Buffer contents after every change, with its time.
    pub buffer_states: Vec<(TimeStamp, Type)>,
}

impl Workstation {
    pub open spec fn model(&self) -> WorkstationModel {
        WorkstationModel {
            supply: self.assembly_durations@,
            current: self.current_duration,
            ws_type: self.ws_type,
            products: self.products@,
            states: self.buffer_states@,
        }
    }

    pub open spec fn supply(&self) -> Seq<Duration> {
        self.assembly_durations@
    }

    pub open spec fn is_working_spec(&self) -> bool {
        self.current_duration is Some
    }

    /// When the assembly in progress completes.
    pub open spec fn end_ticks(&self) -> int {
        match self.current_duration {
            Some((s, d)) => s.ticks + d.ticks,
            None => 0,
        }
    }

    pub open spec fn wf(&self) -> bool {
        &&& self.ws_type.wf()
        &&& self.is_working_spec() ==> self.ws_type.can_work_spec()
        &&& self.is_working_spec() ==> self.end_ticks() <= u64::MAX
        &&& forall|i: int|
            0 <= i < self.products@.len() ==> #[trigger] self.products@[i].wf() && self.products@[i].timely()
        &&& forall|i: int| 0 <= i < self.buffer_states@.len() ==> (#[trigger] self.buffer_states@[i]).1.wf()
    }

    /// Enough assembly durations remain for what the limiting buffer holds.
    pub open spec fn supply_ok(&self) -> bool {
        self.ws_type.limiting_count() <= self.supply().len() + if self.is_working_spec() { 1nat } else { 0nat }
    }

    pub fn new(ws_type: Type, assembly_durations: VecDeque<Duration>) -> (r: Workstation)
        requires
            ws_type.wf(),
        ensures
            r.ws_type == ws_type,
            r.supply() == assembly_durations@,
            r.current_duration is None,
            r.products@.len() == 0,
            r.buffer_states@ == seq![(TimeStamp { ticks: 0 }, ws_type)],
            r.wf(),
    {
        Workstation {
            assembly_durations,
            current_duration: None,
            ws_type,
            products: Vec::new(),
            buffer_states: vec![(TimeStamp::start(), ws_type)],
        }
    }

    pub fn name(&self) -> (r: String)
        ensures
            r@ == self.ws_type.name_spec(),
    {
        self.ws_type.name()
    }

    pub fn is_working(&self) -> (r: bool)
        ensures
            r == self.is_working_spec(),
    {
        self.current_duration.is_some()
    }

    pub fn matching_count(&self, component: Component) -> (r: usize)
        requires
            component.kind == ComponentKind::C1 || !(self.ws_type is W1),
        ensures
            r == self.ws_type.buffer_of(component.kind).count(),
            r <= 2,
    {
        self.ws_type.matching_count(component)
    }

    pub fn c1_in_waiting(&self) -> (r: usize)
        ensures
            r == self.ws_type.c1_buffer().count(),
    {
        self.ws_type.c1_in_waiting()
    }

    /// Takes one component from each required buffer and makes the product.
    fn assemble(&mut self, timestamp: TimeStamp) -> (r: Product)
        requires
            old(self).ws_type.wf(),
            old(self).ws_type.can_work_spec(),
            old(self).ws_type.enqueued_by(timestamp),
        ensures
            r == old(self).ws_type.product_at(timestamp),
            r.wf(),
            r.timely(),
            final(self).ws_type == old(self).ws_type.taken(),
            final(self).ws_type.wf(),
            final(self).assembly_durations == old(self).assembly_durations,
            final(self).current_duration == old(self).current_duration,
            final(self).products == old(self).products,
            final(self).buffer_states == old(self).buffer_states,
    {
        match &mut self.ws_type {
            Type::W1(b) => {
                let c = b.take_first_avail();
                Product::from(c, None, timestamp)
            },
            Type::W2(b1, b2) => {
                let first = b1.take_first_avail();
                let second = b2.take_first_avail();
                Product::from(first, Some(second), timestamp)
            },
            Type::W3(b1, b2) => {
                let first = b1.take_first_avail();
                let second = b2.take_first_avail();
                Product::from(first, Some(second), timestamp)
            },
        }
    }

    /// Places a finished component in the first free slot of its buffer, or
    /// rejects it when both slots are taken.
    pub fn enqueue(&mut self, ins1: bool, c: Component, now: TimeStamp) -> (r: EnqueueResult)
        requires
            old(self).wf(),
            c.wf(),
            c.stage is Finished,
            c.end_spec().ticks <= now.ticks,
            old(self).ws_type.accepts(c.kind),
        ensures
            final(self).wf(),
            final(self).model() == old(self).model().enqueue(c, now),
            final(self).assembly_durations == old(self).assembly_durations,
            final(self).current_duration == old(self).current_duration,
            final(self).products == old(self).products,
            ({
                let b = old(self).ws_type.buffer_of(c.kind);
                let queued = Component {
                    stage: crate::component::Stage::Enqueued {
                        start: c.start_spec(),
                        end: c.end_spec(),
                        enqueued: now,
                    },
                    ..c
                };
                let t = old(self).ws_type.with_buffer(c.kind, b.pushed(queued));
                if b.is_full() {
                    &&& r is Fail
                    &&& *final(self) == *old(self)
                } else {
                    &&& r == EnqueueResult::CouldEnqueue(ins1, queued, t, now, old(self).is_working_spec())
                    &&& final(self).ws_type == t
                    &&& final(self).buffer_states@ == old(self).buffer_states@.push((now, t))
                }
            }),
    {
        let kind = c.kind;
        let mut b = self.ws_type.get_buffer(kind);
        if b.second.is_some() {
            return EnqueueResult::Fail;
        }
        let mut queued = c;
        queued.set_enqueued(now);
        b.push(queued);
        self.ws_type = self.ws_type.set_buffer(kind, b);
        self.buffer_states.push((now, self.ws_type));
        EnqueueResult::CouldEnqueue(ins1, queued, self.ws_type, now, self.is_working())
    }

    /// Begins an assembly at `start_time` with the next duration of the supply.
    pub fn start(&mut self, start_time: TimeStamp)
        requires
            old(self).wf(),
            !old(self).is_working_spec(),
            old(self).ws_type.can_work_spec(),
            old(self).supply().len() > 0,
            start_time.ticks + total_ticks(old(self).supply()) <= u64::MAX,
        ensures
            final(self).current_duration == Some((start_time, old(self).supply()[0])),
            final(self).supply() == old(self).supply().drop_first(),
            final(self).ws_type == old(self).ws_type,
            final(self).products == old(self).products,
            final(self).buffer_states == old(self).buffer_states,
            final(self).end_ticks() + total_ticks(final(self).supply()) == start_time.ticks
                + total_ticks(old(self).supply()),
            final(self).wf(),
            final(self).model() == old(self).model().start(start_time),
    {
        let d = self.assembly_durations.pop_front().unwrap();
        assert(self.supply() =~= old(self).supply().drop_first());
        self.current_duration = Some((start_time, d));
    }

    /// Responds to a broadcast event: a start notice for this workstation, which
    /// must then be idle and have material, begins an assembly; other events and
    /// notices for other workstations change nothing.
    pub fn respond_to(&mut self, event: FacilityEvent) -> (r: Option<FacilityEvent>)
        requires
            old(self).wf(),
            event matches FacilityEvent::WorkstationStarted(ws, t) ==> ws.id() == old(self).ws_type.id() ==> {
                &&& !old(self).is_working_spec()
                &&& old(self).ws_type.can_work_spec()
                &&& old(self).supply().len() > 0
                &&& t.ticks + total_ticks(old(self).supply()) <= u64::MAX
            },
        ensures
            r is None,
            final(self).wf(),
            final(self).model() == old(self).model().respond_to(event),
            ({
                match event {
                    FacilityEvent::WorkstationStarted(ws, t) => if ws.id() == old(self).ws_type.id() {
                        &&& final(self).current_duration == Some((t, old(self).supply()[0]))
                        &&& final(self).supply() == old(self).supply().drop_first()
                        &&& final(self).ws_type == old(self).ws_type
                        &&& final(self).products == old(self).products
                        &&& final(self).buffer_states == old(self).buffer_states
                    } else {
                        *final(self) == *old(self)
                    },
                    _ => *final(self) == *old(self),
                }
            }),
    {
        match event {
            FacilityEvent::WorkstationStarted(ws, t) => {
                if self.ws_type.same_station(&ws) {
                    self.start(t);
                }
                None
            },
            _ => None,
        }
    }

    /// Completes the assembly in progress at `now`, records the product, starts
    /// the next assembly if material remains, and announces the product.
    pub fn respond(&mut self, now: TimeStamp) -> (r: Option<FacilityEvent>)
        requires
            old(self).wf(),
            old(self).is_working_spec(),
            now.ticks == old(self).end_ticks(),
            old(self).supply_ok(),
            old(self).ws_type.enqueued_by(now),
            now.ticks + total_ticks(old(self).supply()) <= u64::MAX,
        ensures
            final(self).wf(),
            final(self).model() == old(self).model().respond(now),
            ({
                let t = old(self).ws_type.taken();
                let p = old(self).ws_type.product_at(now);
                &&& p.wf() && p.timely()
                &&& r == Some(FacilityEvent::Assembled(p, t))
                &&& final(self).ws_type == t
                &&& final(self).products@ == old(self).products@.push(p)
                &&& final(self).buffer_states@ == old(self).buffer_states@.push((now, t))
                &&& if t.can_work_spec() {
                    &&& final(self).current_duration == Some((now, old(self).supply()[0]))
                    &&& final(self).supply() == old(self).supply().drop_first()
                } else {
                    &&& final(self).current_duration is None
                    &&& final(self).supply() == old(self).supply()
                }
            }),
    {
        self.current_duration = None;
        let product = self.assemble(now);
        self.products.push(product);
        self.buffer_states.push((now, self.ws_type));
        let ghost mid = *self;
        assert(mid.wf()) by {
            assert forall|i: int| 0 <= i < mid.products@.len() implies #[trigger] mid.products@[i].wf()
                && mid.products@[i].timely() by {
                if i < old(self).products@.len() {
                    assert(mid.products@[i] == old(self).products@[i]);
                }
            }
        }
        if self.ws_type.can_work() {
            self.start(now);
        }
        Some(FacilityEvent::Assembled(product, self.ws_type))
    }

    /// Time of the next completion, if an assembly is in progress.
    pub fn next_event_time(&self) -> (r: Option<TimeStamp>)
        requires
            self.wf(),
        ensures
            r is Some <==> self.is_working_spec(),
            r matches Some(t) ==> t.ticks == self.end_ticks(),
    {
        match self.current_duration {
            Some((s, d)) => Some(s.add_duration(d)),
            None => None,
        }
    }

    /// Time left until the next completion, if an assembly is in progress.
    pub fn duration_until_next_event(&self, now: TimeStamp) -> (r: Option<Duration>)
        requires
            self.wf(),
            self.is_working_spec() ==> now.ticks <= self.end_ticks(),
        ensures
            r is Some <==> self.is_working_spec(),
            r matches Some(d) ==> d.ticks == self.end_ticks() - now.ticks,
    {
        match self.current_duration {
            Some((s, d)) => Some(s.add_duration(d).duration_since(now)),
            None => None,
        }
    }
}

} // verus!
