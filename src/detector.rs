//! The edge detector: decides, on each pointer notification, whether the
//! pointer has just entered the hot corner and the worker should be woken.

use vstd::prelude::*;
use crate::keys::Guards;
use crate::region::{HotRegion, Point};

verus! {

/// Message id of a pointer-movement notification.
pub const WM_MOUSEMOVE: u32 = 0x0200;

/// A pointer notification: its message id and the pointer position.
#[derive(Clone, Copy, Debug, PartialEq, Eq, Structural)]
pub struct PointerEvent {
    pub message: u32,
    pub point: Point,
}

/// What the hook does with a notification. The notification is forwarded to
/// the next handler in either case.
#[derive(Clone, Copy, Debug, PartialEq, Eq, Structural)]
pub enum HookAction {
    /// Only forward.
    Forward,
    /// Raise the activation signal, then forward.
    Activate,
}

/// One transition of the edge detector, from whether the corner is hot.
/// Returns the new hotness and the action; the rules apply in order.
pub open spec fn detector_step(hot: bool, region: HotRegion, event: PointerEvent, guards: Guards) -> (
    bool,
    HookAction,
) {
    if event.message != WM_MOUSEMOVE {
        (hot, HookAction::Forward)
    } else if !region.spec_contains(event.point) {
        (false, HookAction::Forward)
    } else if hot {
        (true, HookAction::Forward)
    } else if guards.button_held || guards.modifier_held {
        (false, HookAction::Forward)
    } else {
        (true, HookAction::Activate)
    }
}

/// Whether the guards take part in the step: a movement into the region
/// while it is cold.
pub open spec fn spec_wants_guards(hot: bool, region: HotRegion, event: PointerEvent) -> bool {
    event.message == WM_MOUSEMOVE && region.spec_contains(event.point) && !hot
}

/// Runs the detector over a sequence of notifications, each with the guards
/// read at its time. Returns the final hotness and the number of activations.
pub open spec fn detector_run(hot: bool, region: HotRegion, inputs: Seq<(PointerEvent, Guards)>) -> (
    bool,
    nat,
)
    decreases inputs.len(),
{
    if inputs.len() == 0 {
        (hot, 0)
    } else {
        let (h, a) = detector_step(hot, region, inputs[0].0, inputs[0].1);
        let (h2, n) = detector_run(h, region, inputs.drop_first());
        (h2, n + if a == HookAction::Activate { 1nat } else { 0nat })
    }
}

/// The cold/hot state of the corner, owned by the hook.
#[derive(Clone, Copy, Debug, PartialEq, Eq, Structural)]
pub struct EdgeDetector {
    /// The pointer is in the corner and the entry has already been signalled.
    pub hot: bool,
}

impl EdgeDetector {
    /// A detector in the cold state.
    pub fn new() -> (r: EdgeDetector)
        ensures
            !r.hot,
    {
        EdgeDetector { hot: false }
    }

    /// Whether the next call of `on_event` with this notification reads the
    /// guards; when it does not, any guards may be passed.
    pub fn wants_guards(&self, region: &HotRegion, event: &PointerEvent) -> (r: bool)
        ensures
            r == spec_wants_guards(self.hot, *region, *event),
    {
        event.message == WM_MOUSEMOVE && region.contains(event.point) && !self.hot
    }

    /// Handles one notification.
    pub fn on_event(&mut self, region: &HotRegion, event: &PointerEvent, guards: &Guards) -> (r:
        HookAction)
        ensures
            (final(self).hot, r) == detector_step(old(self).hot, *region, *event, *guards),
            event.message == WM_MOUSEMOVE && !region.spec_contains(event.point) ==> !final(self).hot,
            guards.button_held ==> r == HookAction::Forward,
            guards.modifier_held ==> r == HookAction::Forward,
            r == HookAction::Activate <==> (spec_wants_guards(old(self).hot, *region, *event)
                && guards.spec_is_clear()),
    {
        if event.message != WM_MOUSEMOVE {
            HookAction::Forward
        } else if !region.contains(event.point) {
            self.hot = false;
            HookAction::Forward
        } else if self.hot {
            HookAction::Forward
        } else if guards.button_held || guards.modifier_held {
            HookAction::Forward
        } else {
            self.hot = true;
            HookAction::Activate
        }
    }
}

/// Where the detector does not ask for the guards, the step is the same
/// whatever they are.
pub proof fn lemma_guards_unread(hot: bool, region: HotRegion, event: PointerEvent, g1: Guards, g2: Guards)
    requires
        !spec_wants_guards(hot, region, event),
    ensures
        detector_step(hot, region, event, g1) == detector_step(hot, region, event, g2),
{
}

/// Whether every notification is a movement inside the region.
pub open spec fn all_moves_inside(region: HotRegion, inputs: Seq<(PointerEvent, Guards)>) -> bool {
    forall|i: int|
        0 <= i < inputs.len() ==> {
            &&& (#[trigger] inputs[i]).0.message == WM_MOUSEMOVE
            &&& region.spec_contains(inputs[i].0.point)
        }
}

/// Once hot, movements that stay inside keep the corner hot and signal
/// nothing more.
pub proof fn lemma_lingering_is_quiet(region: HotRegion, inputs: Seq<(PointerEvent, Guards)>)
    requires
        all_moves_inside(region, inputs),
    ensures
        detector_run(true, region, inputs) == (true, 0nat),
    decreases inputs.len(),
{
    if inputs.len() > 0 {
        assert(inputs[0].0.message == WM_MOUSEMOVE);
        lemma_lingering_is_quiet(region, inputs.drop_first());
    }
}

/// Entering the region once, with nothing held at the entry, and then
/// moving about inside it signals exactly one activation, however many
/// movements follow.
pub proof fn lemma_one_activation_per_entry(region: HotRegion, inputs: Seq<(PointerEvent, Guards)>)
    requires
        inputs.len() > 0,
        all_moves_inside(region, inputs),
        inputs[0].1.spec_is_clear(),
    ensures
        detector_run(false, region, inputs) == (true, 1nat),
{
    assert(inputs[0].0.message == WM_MOUSEMOVE);
    lemma_lingering_is_quiet(region, inputs.drop_first());
}

/// Leaving the region cools the corner, so the next entry with nothing held
/// signals again: a visit, an exit and a second visit give two activations.
pub proof fn lemma_reentry_signals_again(
    region: HotRegion,
    first: Seq<(PointerEvent, Guards)>,
    exit: (PointerEvent, Guards),
    second: Seq<(PointerEvent, Guards)>,
)
    requires
        first.len() > 0,
        second.len() > 0,
        all_moves_inside(region, first),
        all_moves_inside(region, second),
        first[0].1.spec_is_clear(),
        second[0].1.spec_is_clear(),
        exit.0.message == WM_MOUSEMOVE,
        !region.spec_contains(exit.0.point),
    ensures
        detector_run(false, region, first + seq![exit] + second) == (true, 2nat),
{
    lemma_one_activation_per_entry(region, first);
    lemma_one_activation_per_entry(region, second);
    let tail = seq![exit] + second;
    assert(tail.drop_first() =~= second);
    assert(detector_run(true, region, tail) == (true, 1nat));
    lemma_run_append(false, region, first, tail);
    assert(first + seq![exit] + second =~= first + tail);
}

/// Running over two sequences in turn is running over their concatenation.
pub proof fn lemma_run_append(
    hot: bool,
    region: HotRegion,
    a: Seq<(PointerEvent, Guards)>,
    b: Seq<(PointerEvent, Guards)>,
)
    ensures
        detector_run(hot, region, a + b) == {
            let (h, n) = detector_run(hot, region, a);
            let (h2, m) = detector_run(h, region, b);
            (h2, n + m)
        },
    decreases a.len(),
{
    if a.len() > 0 {
        let (h, _) = detector_step(hot, region, a[0].0, a[0].1);
        assert((a + b).drop_first() =~= a.drop_first() + b);
        lemma_run_append(h, region, a.drop_first(), b);
    } else {
        assert(a + b =~= b);
    }
}

/// An entry with a mouse button down signals nothing and leaves the corner
/// cold; once the button is released, a new entry with nothing held
/// signals.
pub proof fn lemma_release_rearms(region: HotRegion, held: PointerEvent, hg: Guards, entry: PointerEvent)
    requires
        held.message == WM_MOUSEMOVE,
        region.spec_contains(held.point),
        hg.button_held,
        entry.message == WM_MOUSEMOVE,
        region.spec_contains(entry.point),
    ensures
        detector_step(false, region, held, hg) == (false, HookAction::Forward),
        detector_step(false, region, entry, Guards { button_held: false, modifier_held: false })
            == (true, HookAction::Activate),
        detector_run(
            false,
            region,
            seq![(held, hg), (entry, Guards { button_held: false, modifier_held: false })],
        ) == (true, 1nat),
{
    let s = seq![(held, hg), (entry, Guards { button_held: false, modifier_held: false })];
    let t = s.drop_first();
    assert(s[0] == (held, hg));
    assert(t[0] == s[1]);
    assert(t.drop_first().len() == 0);
    assert(detector_run(true, region, t.drop_first()) == (true, 0nat));
    assert(detector_run(false, region, t) == (true, 1nat));
}

} // verus!
