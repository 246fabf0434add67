use vstd::prelude::*;
use crate::simulation::{Duration, TimeStamp};

verus! {

/// The three kinds of component.
#[derive(Clone, Copy, Debug, PartialEq, Eq, Structural)]
pub enum ComponentKind {
    C1,
    C2,
    C3,
}

/// Where a component stands in its lifecycle.
#[derive(Clone, Copy, Debug, PartialEq, Eq, Structural)]
pub enum Stage {
    Unstarted,
    Inspecting { start: TimeStamp },
    Finished { start: TimeStamp, end: TimeStamp },
    Enqueued { start: TimeStamp, end: TimeStamp, enqueued: TimeStamp },
}

/// A unit of work with a fixed inspection duration.
#[derive(Clone, Copy, Debug, PartialEq, Eq, Structural)]
pub struct Component {
    pub kind: ComponentKind,
    pub duration: Duration,
    pub stage: Stage,
}

impl Component {
    /// A finished inspection took exactly the assigned duration, and a component is
    /// queued no earlier than it finished.
    pub open spec fn wf(&self) -> bool {
        match self.stage {
            Stage::Finished { start, end } => end.ticks == start.ticks + self.duration.ticks,
            Stage::Enqueued { start, end, enqueued } => {
                &&& end.ticks == start.ticks + self.duration.ticks
                &&& end.ticks <= enqueued.ticks
            },
            _ => true,
        }
    }

    pub open spec fn is_started_spec(&self) -> bool {
        !(self.stage is Unstarted)
    }

    pub open spec fn is_finished_spec(&self) -> bool {
        self.stage is Finished || self.stage is Enqueued
    }

    pub open spec fn is_enqueued_spec(&self) -> bool {
        self.stage is Enqueued
    }

    pub open spec fn start_spec(&self) -> TimeStamp {
        match self.stage {
            Stage::Inspecting { start } => start,
            Stage::Finished { start, .. } => start,
            Stage::Enqueued { start, .. } => start,
            Stage::Unstarted => TimeStamp { ticks: 0 },
        }
    }

    pub open spec fn end_spec(&self) -> TimeStamp {
        match self.stage {
            Stage::Finished { end, .. } => end,
            Stage::Enqueued { end, .. } => end,
            _ => TimeStamp { ticks: 0 },
        }
    }

    pub open spec fn enqueue_spec(&self) -> TimeStamp {
        match self.stage {
            Stage::Enqueued { enqueued, .. } => enqueued,
            _ => TimeStamp { ticks: 0 },
        }
    }

    pub open spec fn kind_of_number(number: usize) -> ComponentKind {
        if number == 1 {
            ComponentKind::C1
        } else if number == 2 {
            ComponentKind::C2
        } else {
            ComponentKind::C3
        }
    }

    /// A fresh, unstarted component of kind `C<number>`.
    pub fn new(duration: Duration, number: usize) -> (r: Component)
        requires
            1 <= number <= 3,
        ensures
            r.kind == Self::kind_of_number(number),
            r.duration == duration,
            r.stage == Stage::Unstarted,
            r.wf(),
    {
        let kind = if number == 1 {
            ComponentKind::C1
        } else if number == 2 {
            ComponentKind::C2
        } else {
            ComponentKind::C3
        };
        Component { kind, duration, stage: Stage::Unstarted }
    }

    /// A component of `kind` whose inspection starts at `now`.
    pub fn started(kind: ComponentKind, duration: Duration, now: TimeStamp) -> (r: Component)
        ensures
            r.kind == kind,
            r.duration == duration,
            r.stage == (Stage::Inspecting { start: now }),
            r.wf(),
    {
        Component { kind, duration, stage: Stage::Inspecting { start: now } }
    }

    pub fn duration(&self) -> (r: Duration)
        ensures
            r == self.duration,
    {
        self.duration
    }

    pub fn inspection_start_time(&self) -> (r: TimeStamp)
        requires
            self.is_started_spec(),
        ensures
            r == self.start_spec(),
    {
        match self.stage {
            Stage::Inspecting { start } => start,
            Stage::Finished { start, .. } => start,
            Stage::Enqueued { start, .. } => start,
            Stage::Unstarted => TimeStamp { ticks: 0 },
        }
    }

    pub fn inspection_end_time(&self) -> (r: TimeStamp)
        requires
            self.is_finished_spec(),
        ensures
            r == self.end_spec(),
    {
        match self.stage {
            Stage::Finished { end, .. } => end,
            Stage::Enqueued { end, .. } => end,
            _ => TimeStamp { ticks: 0 },
        }
    }

    pub fn enqueue_time(&self) -> (r: TimeStamp)
        requires
            self.is_enqueued_spec(),
        ensures
            r == self.enqueue_spec(),
    {
        match self.stage {
            Stage::Enqueued { enqueued, .. } => enqueued,
            _ => TimeStamp { ticks: 0 },
        }
    }

    /// Records the start of inspection.
    pub fn start_inspecting(&mut self, ts: TimeStamp)
        requires
            old(self).stage == Stage::Unstarted,
        ensures
            *final(self) == (Component { stage: Stage::Inspecting { start: ts }, ..*old(self) }),
            final(self).wf(),
    {
        self.stage = Stage::Inspecting { start: ts };
    }

    /// Records the end of inspection, which falls exactly one duration after its start.
    pub fn finish_inspecting(&mut self, now: TimeStamp)
        requires
            old(self).stage is Inspecting,
            now.ticks == old(self).start_spec().ticks + old(self).duration.ticks,
        ensures
            *final(self) == (Component {
                stage: Stage::Finished { start: old(self).start_spec(), end: now },
                ..*old(self)
            }),
            final(self).wf(),
            final(self).end_spec().ticks - final(self).start_spec().ticks == final(self).duration.ticks,
    {
        let start = self.inspection_start_time();
        self.stage = Stage::Finished { start, end: now };
    }

    /// Records the time the component entered a workstation buffer.
    pub fn set_enqueued(&mut self, now: TimeStamp)
        requires
            old(self).stage is Finished,
            old(self).wf(),
            old(self).end_spec().ticks <= now.ticks,
        ensures
            *final(self) == (Component {
                stage: Stage::Enqueued {
                    start: old(self).start_spec(),
                    end: old(self).end_spec(),
                    enqueued: now,
                },
                ..*old(self)
            }),
            final(self).wf(),
    {
        let start = self.inspection_start_time();
        let end = self.inspection_end_time();
        self.stage = Stage::Enqueued { start, end, enqueued: now };
    }

    pub open spec fn name_spec(&self) -> Seq<char> {
        match self.kind {
            ComponentKind::C1 => "C1"@,
            ComponentKind::C2 => "C2"@,
            ComponentKind::C3 => "C3"@,
        }
    }

    pub fn name(&self) -> (r: &'static str)
        ensures
            r@ == self.name_spec(),
    {
        match self.kind {
            ComponentKind::C1 => {
                proof { reveal_strlit("C1"); }
                "C1"
            },
            ComponentKind::C2 => {
                proof { reveal_strlit("C2"); }
                "C2"
            },
            ComponentKind::C3 => {
                proof { reveal_strlit("C3"); }
                "C3"
            },
        }
    }

    /// Whether the two components are of the same kind.
    pub fn matches(&self, other: &Component) -> (r: bool)
        ensures
            r == (self.kind == other.kind),
    {
        self.kind == other.kind
    }

    pub fn is_finished(&self) -> (r: bool)
        ensures
            r == self.is_finished_spec(),
    {
        match self.stage {
            Stage::Finished { .. } => true,
            Stage::Enqueued { .. } => true,
            _ => false,
        }
    }
}

/// For every finished, well-formed component, the inspection lasted exactly
/// its assigned duration.
pub proof fn lemma_finished_inspection_lasts_duration(c: Component)
    requires
        c.wf(),
        c.is_finished_spec(),
    ensures
        c.end_spec().ticks - c.start_spec().ticks == c.duration.ticks,
{
}

} // verus!
