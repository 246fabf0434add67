use vstd::prelude::*;
use crate::component::Component;
use crate::product::Product;
use crate::simulation::TimeStamp;
use crate::workstation::Type;

verus! {

/// What an attempt to place a component into a workstation buffer came to.
pub enum EnqueueResult {
    /// Accepted: whether a role-1 inspector placed it, the component as queued,
    /// the workstation's buffers afterwards, the time, and whether the workstation
    /// was already assembling.
    CouldEnqueue(bool, Component, Type, TimeStamp, bool),
    /// Rejected: the target buffer was full.
    Fail,
}

/// An event broadcast to every actor.
#[derive(Clone, Copy, Debug)]
pub enum FacilityEvent {
    /// A workstation assembled a product.
    Assembled(Product, Type),
    /// A workstation should start assembling.
    WorkstationStarted(Type, TimeStamp),
    SimulationStarted,
}

impl FacilityEvent {
    pub open spec fn timestamp_spec(&self) -> TimeStamp {
        match *self {
            FacilityEvent::Assembled(p, _) => p.timestamp_spec(),
            FacilityEvent::WorkstationStarted(_, ts) => ts,
            FacilityEvent::SimulationStarted => TimeStamp { ticks: 0 },
        }
    }

    pub fn timestamp(&self) -> (r: TimeStamp)
        ensures
            r == self.timestamp_spec(),
    {
        match self {
            FacilityEvent::Assembled(p, _) => p.timestamp(),
            FacilityEvent::WorkstationStarted(_, ts) => *ts,
            FacilityEvent::SimulationStarted => TimeStamp::start(),
        }
    }
}

} // verus!
