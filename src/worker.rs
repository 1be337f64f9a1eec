//! The activation worker: once woken, it waits out the dwell delay, checks
//! that the pointer is still in the corner, sends the chord, and keeps quiet
//! for a cool-down before it re-arms.

use vstd::prelude::*;
use crate::region::{HotRegion, Point};

verus! {

/// Dwell delay used when the configuration gives none, in milliseconds.
pub const DEFAULT_DELAY_MS: u64 = 100;

/// Quiet period after an activation before the worker re-arms, in
/// milliseconds.
pub const COOLDOWN_MS: u64 = 500;

/// Settings read once at startup.
#[derive(Clone, Copy, Debug, PartialEq, Eq, Structural)]
pub struct Config {
    /// How long the pointer must stay in the corner, in milliseconds.
    pub delay: Option<u64>,
}

impl Config {
    /// The dwell delay in force: the configured one, else the default.
    pub open spec fn spec_dwell_ms(self) -> u64 {
        match self.delay {
            Some(d) => d,
            None => DEFAULT_DELAY_MS,
        }
    }

    /// The dwell delay in force, in milliseconds.
    pub fn dwell_ms(&self) -> (r: u64)
        ensures
            r == self.spec_dwell_ms(),
    {
        match self.delay {
            Some(d) => d,
            None => DEFAULT_DELAY_MS,
        }
    }
}

/// Where the worker is in its cycle.
#[derive(Clone, Copy, Debug, PartialEq, Eq, Structural)]
pub enum WorkerPhase {
    /// Parked until the activation signal is raised.
    Idle,
    /// Sleeping out the dwell delay.
    Dwelling,
    /// Sleeping out the cool-down.
    CoolingDown,
}

/// What the worker learns when it resumes.
#[derive(Clone, Copy, Debug, PartialEq, Eq, Structural)]
pub enum WorkerEvent {
    /// It was unparked (or has just re-armed); `pending` is the activation
    /// signal as read now.
    Woken { pending: bool },
    /// The dwell delay is over; `cursor` is the pointer position, `None` when
    /// it could not be read.
    DwellElapsed { cursor: Option<Point> },
    /// The cool-down is over.
    CooldownElapsed,
}

/// What the worker asks to be done next.
#[derive(Clone, Copy, Debug, PartialEq, Eq, Structural)]
pub enum WorkerAction {
    /// Park until unparked, then report `Woken`.
    Park,
    /// Sleep `ms` milliseconds, read the pointer, report `DwellElapsed`.
    Dwell { ms: u64 },
    /// Send the chord, sleep `cooldown_ms`, report `CooldownElapsed`.
    Inject { cooldown_ms: u64 },
    /// Sleep `ms` milliseconds without sending anything, report
    /// `CooldownElapsed`.
    CoolDown { ms: u64 },
    /// Clear the activation signal, then report `Woken`.
    Rearm,
}

/// The activation worker's state.
#[derive(Clone, Copy, Debug, PartialEq, Eq, Structural)]
pub struct Worker {
    pub region: HotRegion,
    pub dwell_ms: u64,
    pub phase: WorkerPhase,
}

/// Whether the worker in `phase` expects `event`.
pub open spec fn spec_accepts(phase: WorkerPhase, event: WorkerEvent) -> bool {
    match (phase, event) {
        (WorkerPhase::Idle, WorkerEvent::Woken { .. }) => true,
        (WorkerPhase::Dwelling, WorkerEvent::DwellElapsed { .. }) => true,
        (WorkerPhase::CoolingDown, WorkerEvent::CooldownElapsed) => true,
        _ => false,
    }
}

/// Whether the pointer, as read after the dwell delay, is in the region.
pub open spec fn still_inside(region: HotRegion, cursor: Option<Point>) -> bool {
    match cursor {
        Some(p) => region.spec_contains(p),
        None => false,
    }
}

/// A worker that has just started, parked.
pub open spec fn fresh_worker(config: Config, region: HotRegion) -> Worker {
    Worker { region, dwell_ms: config.spec_dwell_ms(), phase: WorkerPhase::Idle }
}

/// One transition of the worker. An event that the phase does not expect
/// leaves the worker as it is and parks it.
pub open spec fn worker_step(w: Worker, event: WorkerEvent) -> (Worker, WorkerAction) {
    match (w.phase, event) {
        (WorkerPhase::Idle, WorkerEvent::Woken { pending }) => if pending {
            (Worker { phase: WorkerPhase::Dwelling, ..w }, WorkerAction::Dwell { ms: w.dwell_ms })
        } else {
            (w, WorkerAction::Park)
        },
        (WorkerPhase::Dwelling, WorkerEvent::DwellElapsed { cursor }) => if still_inside(
            w.region,
            cursor,
        ) {
            (
                Worker { phase: WorkerPhase::CoolingDown, ..w },
                WorkerAction::Inject { cooldown_ms: COOLDOWN_MS },
            )
        } else {
            (
                Worker { phase: WorkerPhase::CoolingDown, ..w },
                WorkerAction::CoolDown { ms: COOLDOWN_MS },
            )
        },
        (WorkerPhase::CoolingDown, WorkerEvent::CooldownElapsed) => (
            Worker { phase: WorkerPhase::Idle, ..w },
            WorkerAction::Rearm,
        ),
        _ => (w, WorkerAction::Park),
    }
}

impl Worker {
    /// A parked worker for `region`, with the dwell delay of `config`.
    pub fn new(config: &Config, region: HotRegion) -> (r: Worker)
        ensures
            r == fresh_worker(*config, region),
            r.dwell_ms == config.spec_dwell_ms(),
    {
        Worker { region, dwell_ms: config.dwell_ms(), phase: WorkerPhase::Idle }
    }

    /// Whether the worker, in its present phase, expects `event`.
    pub fn accepts(&self, event: &WorkerEvent) -> (r: bool)
        ensures
            r == spec_accepts(self.phase, *event),
    {
        match (self.phase, event) {
            (WorkerPhase::Idle, WorkerEvent::Woken { .. }) => true,
            (WorkerPhase::Dwelling, WorkerEvent::DwellElapsed { .. }) => true,
            (WorkerPhase::CoolingDown, WorkerEvent::CooldownElapsed) => true,
            _ => false,
        }
    }

    /// Takes the event the worker resumed with, and says what to do next.
    pub fn step(&mut self, event: WorkerEvent) -> (r: WorkerAction)
        requires
            spec_accepts(old(self).phase, event),
        ensures
            (*final(self), r) == worker_step(*old(self), event),
    {
        match event {
            WorkerEvent::Woken { pending } => {
                if pending {
                    self.phase = WorkerPhase::Dwelling;
                    WorkerAction::Dwell { ms: self.dwell_ms }
                } else {
                    WorkerAction::Park
                }
            },
            WorkerEvent::DwellElapsed { cursor } => {
                self.phase = WorkerPhase::CoolingDown;
                let inside = match cursor {
                    Some(p) => self.region.contains(p),
                    None => false,
                };
                if inside {
                    WorkerAction::Inject { cooldown_ms: COOLDOWN_MS }
                } else {
                    WorkerAction::CoolDown { ms: COOLDOWN_MS }
                }
            },
            WorkerEvent::CooldownElapsed => {
                self.phase = WorkerPhase::Idle;
                WorkerAction::Rearm
            },
        }
    }
}


/// A woken worker with the signal raised sleeps exactly the configured dwell
/// delay (the default when none is configured) before it looks at the
/// pointer.
pub proof fn lemma_dwell_follows_config(config: Config, region: HotRegion)
    ensures
        worker_step(fresh_worker(config, region), (WorkerEvent::Woken { pending: true })).1
            == (WorkerAction::Dwell { ms: config.spec_dwell_ms() }),
        config.delay == Option::<u64>::None ==> config.spec_dwell_ms() == DEFAULT_DELAY_MS,
        forall|d: u64| config.delay == Some(d) ==> config.spec_dwell_ms() == d,
{
}

/// After the dwell delay the chord is sent if and only if the pointer is
/// still in the region: a pointer that passed through and left by then
/// triggers nothing. Either way the worker then cools down.
pub proof fn lemma_injects_only_when_still_inside(w: Worker, cursor: Option<Point>)
    requires
        w.phase == WorkerPhase::Idle,
    ensures
        dwell_then_check(w, cursor).0 == (WorkerAction::Dwell { ms: w.dwell_ms }),
        still_inside(w.region, cursor) ==> dwell_then_check(w, cursor).1 == (WorkerAction::Inject {
            cooldown_ms: COOLDOWN_MS,
        }),
        !still_inside(w.region, cursor) ==> dwell_then_check(w, cursor).1 == (WorkerAction::CoolDown {
            ms: COOLDOWN_MS,
        }),
        dwell_then_check(w, cursor).2.phase == WorkerPhase::CoolingDown,
{
}

/// The two actions of a worker that is woken with the signal raised and
/// then told the pointer position after the dwell delay, and the worker
/// that results.
pub open spec fn dwell_then_check(w: Worker, cursor: Option<Point>) -> (
    WorkerAction,
    WorkerAction,
    Worker,
) {
    let (w1, a1) = worker_step(w, WorkerEvent::Woken { pending: true });
    let (w2, a2) = worker_step(w1, WorkerEvent::DwellElapsed { cursor });
    (a1, a2, w2)
}

} // verus!
