use vstd::prelude::*;
use crate::component::{Component, ComponentKind};
use crate::simulation::{Duration, TimeStamp};

verus! {

/// An assembled unit: P1 from one C1, P2 from a C1 and a C2, P3 from a C1 and a C3,
/// with the time of assembly.
#[derive(Clone, Copy, Debug, PartialEq, Eq, Structural)]
pub enum Product {
    P1(Component, TimeStamp),
    P2(Component, Component, TimeStamp),
    P3(Component, Component, TimeStamp),
}

impl Product {
    pub open spec fn first_spec(&self) -> Component {
        match *self {
            Product::P1(c, _) => c,
            Product::P2(c, _, _) => c,
            Product::P3(c, _, _) => c,
        }
    }

    pub open spec fn second_spec(&self) -> Option<Component> {
        match *self {
            Product::P1(_, _) => None,
            Product::P2(_, c, _) => Some(c),
            Product::P3(_, c, _) => Some(c),
        }
    }

    pub open spec fn timestamp_spec(&self) -> TimeStamp {
        match *self {
            Product::P1(_, ts) => ts,
            Product::P2(_, _, ts) => ts,
            Product::P3(_, _, ts) => ts,
        }
    }

    /// Each constituent is a finished component of the kind the product calls for.
    pub open spec fn wf(&self) -> bool {
        match *self {
            Product::P1(c1, _) => c1.kind == ComponentKind::C1 && c1.wf() && c1.is_finished_spec(),
            Product::P2(c1, c2, _) => {
                &&& c1.kind == ComponentKind::C1 && c1.wf() && c1.is_finished_spec()
                &&& c2.kind == ComponentKind::C2 && c2.wf() && c2.is_finished_spec()
            },
            Product::P3(c1, c3, _) => {
                &&& c1.kind == ComponentKind::C1 && c1.wf() && c1.is_finished_spec()
                &&& c3.kind == ComponentKind::C3 && c3.wf() && c3.is_finished_spec()
            },
        }
    }

    /// Every constituent was queued at a workstation no later than the assembly.
    pub open spec fn timely(&self) -> bool {
        let ts = self.timestamp_spec().ticks;
        &&& self.first_spec().is_enqueued_spec()
        &&& self.first_spec().enqueue_spec().ticks <= ts
        &&& match self.second_spec() {
            Some(c) => c.is_enqueued_spec() && c.enqueue_spec().ticks <= ts,
            None => true,
        }
    }

    /// The product that `first` and `second` make.
    pub open spec fn from_spec(first: Component, second: Option<Component>, timestamp: TimeStamp) -> Product {
        match second {
            None => Product::P1(first, timestamp),
            Some(c) => if c.kind == ComponentKind::C2 {
                Product::P2(first, c, timestamp)
            } else {
                Product::P3(first, c, timestamp)
            },
        }
    }

    /// Assembles a P1 from a lone C1, else a P2 or a P3 after the second component's kind.
    pub fn from(first: Component, second: Option<Component>, timestamp: TimeStamp) -> (r: Product)
        requires
            first.kind == ComponentKind::C1,
            first.wf() && first.is_finished_spec(),
            second matches Some(c) ==> c.kind != ComponentKind::C1 && c.wf() && c.is_finished_spec(),
        ensures
            r == Self::from_spec(first, second, timestamp),
            r.wf(),
            r.first_spec() == first,
            r.second_spec() == second,
            r.timestamp_spec() == timestamp,
    {
        match second {
            None => Product::P1(first, timestamp),
            Some(c) => match c.kind {
                ComponentKind::C2 => Product::P2(first, c, timestamp),
                _ => Product::P3(first, c, timestamp),
            },
        }
    }

    pub fn timestamp(&self) -> (r: TimeStamp)
        ensures
            r == self.timestamp_spec(),
    {
        match self {
            Product::P1(_, ts) => *ts,
            Product::P2(_, _, ts) => *ts,
            Product::P3(_, _, ts) => *ts,
        }
    }

    /// The constituent of `component`'s kind: the second one unless that kind is C1.
    pub open spec fn pick_spec(&self, component: Component) -> Component {
        match self.second_spec() {
            Some(c) => if component.kind == self.first_spec().kind {
                self.first_spec()
            } else {
                c
            },
            None => self.first_spec(),
        }
    }

    /// How long the constituent of `component`'s kind waited in its buffer.
    pub fn wait_time(&self, component: Component) -> (r: Duration)
        requires
            self.timely(),
        ensures
            r.ticks == self.timestamp_spec().ticks - self.pick_spec(component).enqueue_spec().ticks,
    {
        match self {
            Product::P1(c1, ts) => ts.duration_since(c1.enqueue_time()),
            Product::P2(c1, c2, ts) => if component.kind == c1.kind {
                ts.duration_since(c1.enqueue_time())
            } else {
                ts.duration_since(c2.enqueue_time())
            },
            Product::P3(c1, c3, ts) => if component.kind == c1.kind {
                ts.duration_since(c1.enqueue_time())
            } else {
                ts.duration_since(c3.enqueue_time())
            },
        }
    }

    /// Total time the constituents spent in the system, from the start of
    /// inspection up to assembly.
    pub open spec fn time_in_system_spec(&self) -> int {
        let ts = self.timestamp_spec().ticks;
        (ts - self.first_spec().start_spec().ticks) + match self.second_spec() {
            Some(c) => ts - c.start_spec().ticks,
            None => 0,
        }
    }

    pub fn time_components_in_system(&self) -> (r: Duration)
        requires
            self.wf(),
            self.timely(),
            self.time_in_system_spec() <= u64::MAX,
        ensures
            r.ticks == self.time_in_system_spec(),
    {
        match self {
            Product::P1(c1, ts) => ts.duration_since(c1.inspection_start_time()),
            Product::P2(c1, c2, ts) => {
                let a = ts.duration_since(c1.inspection_start_time());
                let b = ts.duration_since(c2.inspection_start_time());
                a.add_duration(b)
            },
            Product::P3(c1, c3, ts) => {
                let a = ts.duration_since(c1.inspection_start_time());
                let b = ts.duration_since(c3.inspection_start_time());
                a.add_duration(b)
            },
        }
    }

    pub open spec fn name_spec(&self) -> Seq<char> {
        match *self {
            Product::P1(..) => "P1"@,
            Product::P2(..) => "P2"@,
            Product::P3(..) => "P3"@,
        }
    }

    pub fn name(&self) -> (r: &'static str)
        ensures
            r@ == self.name_spec(),
    {
        match self {
            Product::P1(..) => {
                proof { reveal_strlit("P1"); }
                "P1"
            },
            Product::P2(..) => {
                proof { reveal_strlit("P2"); }
                "P2"
            },
            Product::P3(..) => {
                proof { reveal_strlit("P3"); }
                "P3"
            },
        }
    }

    /// The earliest inspection start among the constituents.
    pub open spec fn start_time_spec(&self) -> TimeStamp {
        match self.second_spec() {
            Some(c) => if self.first_spec().start_spec().ticks > c.start_spec().ticks {
                c.start_spec()
            } else {
                self.first_spec().start_spec()
            },
            None => self.first_spec().start_spec(),
        }
    }

    /// The time the product was begun: its first constituent's inspection start.
    pub fn start_time(&self) -> (r: TimeStamp)
        requires
            self.wf(),
        ensures
            r == self.start_time_spec(),
    {
        let pick = |a: TimeStamp, b: TimeStamp| -> (r: TimeStamp)
            ensures
                r == (if a.ticks > b.ticks { b } else { a }),
            { if a.ticks > b.ticks { b } else { a } };
        match self {
            Product::P1(c1, _) => c1.inspection_start_time(),
            Product::P2(c1, c2, _) => pick(c1.inspection_start_time(), c2.inspection_start_time()),
            Product::P3(c1, c3, _) => pick(c1.inspection_start_time(), c3.inspection_start_time()),
        }
    }

    pub open spec fn component_count_spec(&self) -> nat {
        match *self {
            Product::P1(..) => 1,
            _ => 2,
        }
    }

    pub fn component_count(&self) -> (r: usize)
        ensures
            r == self.component_count_spec(),
    {
        match self {
            Product::P1(..) => 1,
            _ => 2,
        }
    }
}

} // verus!
