//! The hot corner as a whole: the edge detector, the activation signal they
//! share, and the worker, with the hook and the worker taking turns.

use vstd::prelude::*;
use crate::detector::{detector_step, EdgeDetector, HookAction, PointerEvent, WM_MOUSEMOVE};
use crate::keys::Guards;
use crate::region::Point;
use crate::worker::{still_inside, worker_step, Worker, WorkerAction, WorkerEvent, WorkerPhase};

verus! {

/// Everything the hot corner holds while it runs.
#[derive(Clone, Copy, Debug, PartialEq, Eq, Structural)]
pub struct HotCornerState {
    pub detector: EdgeDetector,
    /// The activation signal: raised by the detector, cleared by the worker
    /// when it re-arms.
    pub pending: bool,
    pub worker: Worker,
}

/// One thing that happens to the hot corner.
#[derive(Clone, Copy, Debug, PartialEq, Eq, Structural)]
pub enum SystemInput {
    /// The hook receives a notification, with the guards read at its time.
    Pointer { event: PointerEvent, guards: Guards },
    /// The worker resumes after parking or sleeping; `cursor` is the pointer
    /// position it would read.
    WorkerResumes { cursor: Option<Point> },
}

/// What the worker learns when it resumes in state `s`.
pub open spec fn resume_event(s: HotCornerState, cursor: Option<Point>) -> WorkerEvent {
    match s.worker.phase {
        WorkerPhase::Idle => WorkerEvent::Woken { pending: s.pending },
        WorkerPhase::Dwelling => WorkerEvent::DwellElapsed { cursor },
        WorkerPhase::CoolingDown => WorkerEvent::CooldownElapsed,
    }
}

/// One step of the hot corner: the new state and the number of chords sent
/// (zero or one).
pub open spec fn system_step(s: HotCornerState, input: SystemInput) -> (HotCornerState, nat) {
    match input {
        SystemInput::Pointer { event, guards } => {
            let (hot, a) = detector_step(s.detector.hot, s.worker.region, event, guards);
            (
                HotCornerState {
                    detector: EdgeDetector { hot },
                    pending: s.pending || a == HookAction::Activate,
                    ..s
                },
                0,
            )
        },
        SystemInput::WorkerResumes { cursor } => {
            let (w, a) = worker_step(s.worker, resume_event(s, cursor));
            (
                HotCornerState {
                    pending: if a == WorkerAction::Rearm {
                        false
                    } else {
                        s.pending
                    },
                    worker: w,
                    ..s
                },
                if a is Inject {
                    1
                } else {
                    0
                },
            )
        },
    }
}

/// The hot corner over a sequence of inputs: the final state and the number
/// of chords sent.
pub open spec fn system_run(s: HotCornerState, inputs: Seq<SystemInput>) -> (HotCornerState, nat)
    decreases inputs.len(),
{
    if inputs.len() == 0 {
        (s, 0)
    } else {
        let (s1, n) = system_step(s, inputs[0]);
        let (s2, m) = system_run(s1, inputs.drop_first());
        (s2, n + m)
    }
}

/// Whether every input is a pointer notification.
pub open spec fn all_pointer(inputs: Seq<SystemInput>) -> bool {
    forall|i: int| 0 <= i < inputs.len() ==> (#[trigger] inputs[i]) is Pointer
}

/// Whether every input is the worker resuming.
pub open spec fn all_resumes(inputs: Seq<SystemInput>) -> bool {
    forall|i: int| 0 <= i < inputs.len() ==> (#[trigger] inputs[i]) is WorkerResumes
}

/// Running over two sequences in turn is running over their concatenation.
pub proof fn lemma_system_run_append(s: HotCornerState, a: Seq<SystemInput>, b: Seq<SystemInput>)
    ensures
        system_run(s, a + b) == {
            let (s1, n) = system_run(s, a);
            let (s2, m) = system_run(s1, b);
            (s2, n + m)
        },
    decreases a.len(),
{
    if a.len() > 0 {
        let (s1, _) = system_step(s, a[0]);
        assert((a + b).drop_first() =~= a.drop_first() + b);
        lemma_system_run_append(s1, a.drop_first(), b);
    } else {
        assert(a + b =~= b);
    }
}

/// Pointer notifications alone send nothing and leave the worker where it
/// is; they can only raise the signal, never clear it.
pub proof fn lemma_pointer_inputs_leave_worker(s: HotCornerState, inputs: Seq<SystemInput>)
    requires
        all_pointer(inputs),
    ensures
        system_run(s, inputs).1 == 0,
        system_run(s, inputs).0.worker == s.worker,
        s.pending ==> system_run(s, inputs).0.pending,
    decreases inputs.len(),
{
    if inputs.len() > 0 {
        assert(inputs[0] is Pointer);
        let (s1, _) = system_step(s, inputs[0]);
        assert(all_pointer(inputs.drop_first())) by {
            assert forall|i: int| 0 <= i < inputs.drop_first().len() implies (
            #[trigger] inputs.drop_first()[i]) is Pointer by {
                assert(inputs.drop_first()[i] == inputs[i + 1]);
            }
        }
        lemma_pointer_inputs_leave_worker(s1, inputs.drop_first());
    }
}

/// A parked worker with the signal clear stays parked, however often it is
/// resumed, and sends nothing.
pub proof fn lemma_parked_stays_parked(s: HotCornerState, inputs: Seq<SystemInput>)
    requires
        s.worker.phase == WorkerPhase::Idle,
        !s.pending,
        all_resumes(inputs),
    ensures
        system_run(s, inputs) == (s, 0nat),
    decreases inputs.len(),
{
    if inputs.len() > 0 {
        assert(inputs[0] is WorkerResumes);
        assert(system_step(s, inputs[0]).0 == s);
        assert(all_resumes(inputs.drop_first())) by {
            assert forall|i: int| 0 <= i < inputs.drop_first().len() implies (
            #[trigger] inputs.drop_first()[i]) is WorkerResumes by {
                assert(inputs.drop_first()[i] == inputs[i + 1]);
            }
        }
        lemma_parked_stays_parked(s, inputs.drop_first());
    }
}

/// Entering the corner again while the worker cools down after a chord
/// sends no second chord: whatever the pointer does during the cool-down,
/// the worker then clears the signal and parks, and resuming it sends
/// nothing until a new entry raises the signal again.
pub proof fn lemma_cooldown_absorbs_reentry(
    s: HotCornerState,
    window: Seq<SystemInput>,
    after: Seq<SystemInput>,
)
    requires
        s.worker.phase == WorkerPhase::CoolingDown,
        all_pointer(window),
        after.len() > 0,
        all_resumes(after),
    ensures
        system_run(s, window + after).1 == 0,
        system_run(s, window + after).0.worker.phase == WorkerPhase::Idle,
        !system_run(s, window + after).0.pending,
{
    lemma_system_run_append(s, window, after);
    lemma_pointer_inputs_leave_worker(s, window);
    let s1 = system_run(s, window).0;
    assert(after[0] is WorkerResumes);
    let (s2, n) = system_step(s1, after[0]);
    assert(n == 0);
    assert(s2.worker.phase == WorkerPhase::Idle && !s2.pending);
    assert(all_resumes(after.drop_first())) by {
        assert forall|i: int| 0 <= i < after.drop_first().len() implies (
        #[trigger] after.drop_first()[i]) is WorkerResumes by {
            assert(after.drop_first()[i] == after[i + 1]);
        }
    }
    lemma_parked_stays_parked(s2, after.drop_first());
}

/// While the worker is busy with an activation the signal stays raised, so
/// at most one activation is outstanding at a time.
pub open spec fn one_outstanding(s: HotCornerState) -> bool {
    s.worker.phase != WorkerPhase::Idle ==> s.pending
}

/// Every step keeps at most one activation outstanding.
pub proof fn lemma_step_keeps_one_outstanding(s: HotCornerState, input: SystemInput)
    requires
        one_outstanding(s),
    ensures
        one_outstanding(system_step(s, input).0),
{
}

/// An entry with nothing held wakes the worker; whatever the pointer does
/// while the worker sleeps out the dwell delay, the chord is sent once if
/// the pointer is in the corner when the delay is over, and not at all if it
/// has left by then.
pub proof fn lemma_entry_then_dwell(
    w: Worker,
    entry: PointerEvent,
    first_cursor: Option<Point>,
    during: Seq<SystemInput>,
    cursor: Option<Point>,
)
    requires
        w.phase == WorkerPhase::Idle,
        entry.message == WM_MOUSEMOVE,
        w.region.spec_contains(entry.point),
        all_pointer(during),
    ensures
        ({
            let s = HotCornerState { detector: EdgeDetector { hot: false }, pending: false, worker: w };
            let inputs = seq![
                SystemInput::Pointer { event: entry, guards: Guards { button_held: false, modifier_held: false } },
                SystemInput::WorkerResumes { cursor: first_cursor },
            ] + during + seq![SystemInput::WorkerResumes { cursor }];
            system_run(s, inputs).1 == if still_inside(w.region, cursor) { 1nat } else { 0nat }
        }),
{
    let s = HotCornerState { detector: EdgeDetector { hot: false }, pending: false, worker: w };
    let start = seq![
        SystemInput::Pointer { event: entry, guards: Guards { button_held: false, modifier_held: false } },
        SystemInput::WorkerResumes { cursor: first_cursor },
    ];
    let last = seq![SystemInput::WorkerResumes { cursor }];
    let (s1, n1) = system_step(s, start[0]);
    assert(s1.pending && s1.worker == w);
    let (s2, n2) = system_step(s1, start[1]);
    assert(s2.worker.phase == WorkerPhase::Dwelling && n1 + n2 == 0);
    assert(start.drop_first()[0] == start[1]);
    assert(start.drop_first().drop_first().len() == 0);
    assert(system_run(s2, start.drop_first().drop_first()) == (s2, 0nat));
    assert(system_run(s1, start.drop_first()) == (s2, 0nat));
    assert(system_run(s, start) == (s2, 0nat));
    lemma_pointer_inputs_leave_worker(s2, during);
    let s3 = system_run(s2, during).0;
    assert(s3.worker.phase == WorkerPhase::Dwelling);
    assert(last.drop_first().len() == 0);
    let (s4, n4) = system_step(s3, last[0]);
    assert(n4 == if still_inside(w.region, cursor) { 1nat } else { 0nat });
    assert(system_run(s4, last.drop_first()) == (s4, 0nat));
    assert(system_run(s3, last).1 == n4);
    lemma_system_run_append(s, start, during);
    lemma_system_run_append(s, start + during, last);
}

} // verus!
