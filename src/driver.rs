//! The simulation driver: a state machine that owns the step loop.
//!
//! The caller performs each action that the driver hands out (an engine update
//! pass, a maintenance pass) and reports back with the matching event.
use vstd::prelude::*;

verus! {

/// Where a run stands.
#[derive(Clone, Copy, Debug, PartialEq, Eq, Structural)]
pub enum Phase {
    Configuring,
    Running,
    Completed,
    Aborted,
}

/// What the caller reports to the driver.
#[derive(Clone, Copy, Debug, PartialEq, Eq, Structural)]
pub enum Event {
    /// Configuration, apparatus, population and engine pipeline are in place.
    SceneReady,
    /// One engine update pass has finished.
    UpdateDone,
    /// One maintenance pass (committing queued creations and removals) has finished.
    MaintenanceDone,
    /// The engine reported an error.
    EngineFailed,
}

/// What the driver asks the caller to do next.
#[derive(Clone, Copy, Debug, PartialEq, Eq, Structural)]
pub enum Action {
    RunUpdate,
    RunMaintenance,
    /// The run is complete: report the elapsed time.
    Finish,
    /// The run cannot go on.
    Abort,
    /// The event did not fit the current phase; nothing changed.
    Ignore,
}

/// The driver's state. `total_steps` is fixed when the driver is made.
#[derive(Clone, Copy, Debug, PartialEq, Eq, Structural)]
pub struct Driver {
    pub phase: Phase,
    pub total_steps: u64,
    pub completed_steps: u64,
    /// The update pass of the current step has run; its maintenance pass has not.
    pub awaiting_maintenance: bool,
}

/// The number of loop iterations for a configured step count: a negative count
/// runs no step, as an empty range would.
pub open spec fn steps_for(configured: i32) -> nat {
    if configured < 0 { 0 } else { configured as nat }
}

/// The driver's transition on one event: the state after it and the action
/// handed out.
pub open spec fn transition(d: Driver, e: Event) -> (Driver, Action) {
    match (d.phase, e) {
        (_, Event::EngineFailed) => if d.phase == Phase::Running {
            (Driver { phase: Phase::Aborted, ..d }, Action::Abort)
        } else {
            (d, Action::Ignore)
        },
        (Phase::Configuring, Event::SceneReady) => if d.total_steps == 0 {
            (Driver { phase: Phase::Completed, ..d }, Action::Finish)
        } else {
            (Driver { phase: Phase::Running, ..d }, Action::RunUpdate)
        },
        (Phase::Running, Event::UpdateDone) => if !d.awaiting_maintenance {
            (Driver { awaiting_maintenance: true, ..d }, Action::RunMaintenance)
        } else {
            (d, Action::Ignore)
        },
        (Phase::Running, Event::MaintenanceDone) => if d.awaiting_maintenance {
            let done = Driver {
                completed_steps: (d.completed_steps + 1) as u64,
                awaiting_maintenance: false,
                ..d
            };
            if d.completed_steps + 1 == d.total_steps {
                (Driver { phase: Phase::Completed, ..done }, Action::Finish)
            } else {
                (done, Action::RunUpdate)
            }
        } else {
            (d, Action::Ignore)
        },
        _ => (d, Action::Ignore),
    }
}

impl Driver {
    /// Well-formed: the step counter never passes the total, a running driver
    /// still has a step to do, and a completed one has done them all.
    pub open spec fn wf(&self) -> bool {
        &&& self.completed_steps <= self.total_steps
        &&& self.phase == Phase::Configuring ==> self.completed_steps == 0
        &&& self.phase == Phase::Running ==> self.completed_steps < self.total_steps
        &&& self.phase == Phase::Completed ==> self.completed_steps == self.total_steps
        &&& self.awaiting_maintenance ==> self.phase == Phase::Running
            || self.phase == Phase::Aborted
        &&& self.phase == Phase::Configuring ==> !self.awaiting_maintenance
    }

    /// A driver in the configuring phase for a run of `total_steps` steps.
    pub fn new(total_steps: u64) -> (r: Driver)
        ensures
            r.wf(),
            r == (Driver {
                phase: Phase::Configuring,
                total_steps,
                completed_steps: 0,
                awaiting_maintenance: false,
            }),
    {
        Driver { phase: Phase::Configuring, total_steps, completed_steps: 0, awaiting_maintenance: false }
    }

    /// A driver for the step count of a configuration file.
    pub fn for_configured_steps(configured: i32) -> (r: Driver)
        ensures
            r.wf(),
            r.phase == Phase::Configuring,
            r.total_steps == steps_for(configured),
            r.completed_steps == 0,
            !r.awaiting_maintenance,
    {
        let total: u64 = if configured < 0 { 0 } else { configured as u64 };
        Driver::new(total)
    }

    /// Takes one event and hands out the next action. A run of zero steps
    /// passes through the running phase and completes on the event that starts
    /// it, with no engine pass asked for.
    pub fn handle(&mut self, e: Event) -> (r: Action)
        requires
            old(self).wf(),
        ensures
            final(self).wf(),
            (*final(self), r) == transition(*old(self), e),
    {
        match (self.phase, e) {
            (_, Event::EngineFailed) => {
                if self.phase == Phase::Running {
                    self.phase = Phase::Aborted;
                    Action::Abort
                } else {
                    Action::Ignore
                }
            },
            (Phase::Configuring, Event::SceneReady) => {
                if self.total_steps == 0 {
                    self.phase = Phase::Completed;
                    Action::Finish
                } else {
                    self.phase = Phase::Running;
                    Action::RunUpdate
                }
            },
            (Phase::Running, Event::UpdateDone) => {
                if !self.awaiting_maintenance {
                    self.awaiting_maintenance = true;
                    Action::RunMaintenance
                } else {
                    Action::Ignore
                }
            },
            (Phase::Running, Event::MaintenanceDone) => {
                if self.awaiting_maintenance {
                    self.completed_steps = self.completed_steps + 1;
                    self.awaiting_maintenance = false;
                    if self.completed_steps == self.total_steps {
                        self.phase = Phase::Completed;
                        Action::Finish
                    } else {
                        Action::RunUpdate
                    }
                } else {
                    Action::Ignore
                }
            },
            _ => Action::Ignore,
        }
    }
}

/// Drives a full run against an engine that does nothing but count the passes
/// it is asked for. Returns the number of update passes and of maintenance
/// passes: both are exactly the step count, and the driver ends completed.
pub fn count_engine_passes(total_steps: u64) -> (r: (u64, u64, Phase))
    ensures
        r.0 == total_steps,
        r.1 == total_steps,
        r.2 == Phase::Completed,
{
    let mut d = Driver::new(total_steps);
    let mut updates: u64 = 0;
    let mut maintenances: u64 = 0;
    let mut act = d.handle(Event::SceneReady);
    while act != Action::Finish
        invariant
            d.wf(),
            d.total_steps == total_steps,
            maintenances == d.completed_steps,
            updates == d.completed_steps + if d.awaiting_maintenance { 1u64 } else { 0u64 },
            act == Action::Finish <==> d.phase == Phase::Completed,
            act != Action::Finish ==> d.phase == Phase::Running,
            act == Action::RunUpdate || act == Action::RunMaintenance || act == Action::Finish,
            act == Action::RunUpdate ==> !d.awaiting_maintenance,
            act == Action::RunMaintenance ==> d.awaiting_maintenance,
        decreases
            2 * (d.total_steps - d.completed_steps) - if d.awaiting_maintenance { 1int } else { 0int },
    {
        if act == Action::RunUpdate {
            updates = updates + 1;
            act = d.handle(Event::UpdateDone);
        } else {
            maintenances = maintenances + 1;
            act = d.handle(Event::MaintenanceDone);
        }
    }
    (updates, maintenances, d.phase)
}

} // verus!
