use hot_corners::detector::{EdgeDetector, HookAction, PointerEvent, WM_MOUSEMOVE};
use hot_corners::keys::{hot_corner_input, Guards};
use hot_corners::region::{HotRegion, Point};
use hot_corners::worker::{
    Config, Worker, WorkerAction, WorkerEvent, WorkerPhase, COOLDOWN_MS, DEFAULT_DELAY_MS,
};

fn mv(x: i32, y: i32) -> PointerEvent {
    PointerEvent { message: WM_MOUSEMOVE, point: Point { x, y } }
}

const CLEAR: Guards = Guards { button_held: false, modifier_held: false };
const BUTTON: Guards = Guards { button_held: true, modifier_held: false };
const MODIFIER: Guards = Guards { button_held: false, modifier_held: true };

#[test]
fn one_activation_per_entry() {
    let g = HotRegion::hot_corner();
    let mut d = EdgeDetector::new();
    assert_eq!(d.on_event(&g, &mv(300, 300), &CLEAR), HookAction::Forward);
    assert_eq!(d.on_event(&g, &mv(5, 5), &CLEAR), HookAction::Activate);
    assert!(d.hot);
    for i in 0..50 {
        assert_eq!(d.on_event(&g, &mv(i % 10, 0), &CLEAR), HookAction::Forward);
    }
    assert_eq!(d.on_event(&g, &mv(100, 100), &CLEAR), HookAction::Forward);
    assert!(!d.hot);
    assert_eq!(d.on_event(&g, &mv(0, 0), &CLEAR), HookAction::Activate);
}

#[test]
fn button_suppresses_until_released() {
    let g = HotRegion::hot_corner();
    let mut d = EdgeDetector::new();
    assert_eq!(d.on_event(&g, &mv(0, 0), &BUTTON), HookAction::Forward);
    assert!(!d.hot);
    assert_eq!(d.on_event(&g, &mv(1, 1), &BUTTON), HookAction::Forward);
    assert_eq!(d.on_event(&g, &mv(2, 2), &CLEAR), HookAction::Activate);
}

#[test]
fn modifier_suppresses() {
    let g = HotRegion::hot_corner();
    let mut d = EdgeDetector::new();
    assert_eq!(d.on_event(&g, &mv(0, 0), &MODIFIER), HookAction::Forward);
    assert!(!d.hot);
    let both = Guards { button_held: true, modifier_held: true };
    assert_eq!(d.on_event(&g, &mv(0, 0), &both), HookAction::Forward);
    assert!(!d.hot);
}

#[test]
fn non_movement_is_ignored() {
    let g = HotRegion::hot_corner();
    let mut d = EdgeDetector::new();
    let click = PointerEvent { message: 0x0201, point: Point { x: 0, y: 0 } };
    assert!(!d.wants_guards(&g, &click));
    assert_eq!(d.on_event(&g, &click, &CLEAR), HookAction::Forward);
    assert!(!d.hot);
    d.on_event(&g, &mv(0, 0), &CLEAR);
    let far_click = PointerEvent { message: 0x0201, point: Point { x: 900, y: 900 } };
    assert_eq!(d.on_event(&g, &far_click, &CLEAR), HookAction::Forward);
    assert!(d.hot);
}

#[test]
fn guards_wanted_only_on_cold_entry() {
    let g = HotRegion::hot_corner();
    let mut d = EdgeDetector::new();
    assert!(!d.wants_guards(&g, &mv(100, 100)));
    assert!(d.wants_guards(&g, &mv(0, 0)));
    d.on_event(&g, &mv(0, 0), &CLEAR);
    assert!(!d.wants_guards(&g, &mv(1, 1)));
}

#[test]
fn flick_through_does_not_inject() {
    let g = HotRegion::hot_corner();
    let mut w = Worker::new(&Config { delay: None }, g);
    assert_eq!(w.step(WorkerEvent::Woken { pending: true }), WorkerAction::Dwell { ms: 100 });
    let out = Some(Point { x: 400, y: 300 });
    assert_eq!(
        w.step(WorkerEvent::DwellElapsed { cursor: out }),
        WorkerAction::CoolDown { ms: COOLDOWN_MS }
    );
    assert_eq!(w.phase, WorkerPhase::CoolingDown);
    assert_eq!(w.step(WorkerEvent::CooldownElapsed), WorkerAction::Rearm);
    assert_eq!(w.phase, WorkerPhase::Idle);
}

#[test]
fn dwell_inside_injects_chord() {
    let g = HotRegion::hot_corner();
    let mut w = Worker::new(&Config { delay: None }, g);
    assert_eq!(w.step(WorkerEvent::Woken { pending: true }), WorkerAction::Dwell { ms: 100 });
    let inside = Some(Point { x: -3, y: 0 });
    assert_eq!(
        w.step(WorkerEvent::DwellElapsed { cursor: inside }),
        WorkerAction::Inject { cooldown_ms: COOLDOWN_MS }
    );
    assert_eq!(hot_corner_input().len(), 4);
}

#[test]
fn unreadable_cursor_does_not_inject() {
    let mut w = Worker::new(&Config { delay: Some(10) }, HotRegion::hot_corner());
    w.step(WorkerEvent::Woken { pending: true });
    assert_eq!(
        w.step(WorkerEvent::DwellElapsed { cursor: None }),
        WorkerAction::CoolDown { ms: COOLDOWN_MS }
    );
}

#[test]
fn parked_without_signal() {
    let mut w = Worker::new(&Config { delay: None }, HotRegion::hot_corner());
    assert_eq!(w.step(WorkerEvent::Woken { pending: false }), WorkerAction::Park);
    assert_eq!(w.phase, WorkerPhase::Idle);
}

#[test]
fn worker_accepts_by_phase() {
    let mut w = Worker::new(&Config { delay: None }, HotRegion::hot_corner());
    assert!(w.accepts(&WorkerEvent::Woken { pending: false }));
    assert!(!w.accepts(&WorkerEvent::CooldownElapsed));
    assert!(!w.accepts(&WorkerEvent::DwellElapsed { cursor: None }));
    w.step(WorkerEvent::Woken { pending: true });
    assert!(w.accepts(&WorkerEvent::DwellElapsed { cursor: None }));
    assert!(!w.accepts(&WorkerEvent::Woken { pending: true }));
}

#[test]
fn reentry_during_cooldown_is_absorbed() {
    let g = HotRegion::hot_corner();
    let mut d = EdgeDetector::new();
    let mut w = Worker::new(&Config { delay: None }, g);
    let mut pending = false;

    if d.on_event(&g, &mv(0, 0), &CLEAR) == HookAction::Activate {
        pending = true;
    }
    assert!(pending);
    assert_eq!(w.step(WorkerEvent::Woken { pending }), WorkerAction::Dwell { ms: 100 });
    let inside = Some(Point { x: 0, y: 0 });
    assert!(matches!(
        w.step(WorkerEvent::DwellElapsed { cursor: inside }),
        WorkerAction::Inject { .. }
    ));

    // Leave and come back while the worker cools down.
    let mut raised = 0;
    for p in [mv(300, 300), mv(0, 0), mv(400, 0), mv(1, 1)] {
        if d.on_event(&g, &p, &CLEAR) == HookAction::Activate {
            pending = true;
            raised += 1;
        }
    }
    assert_eq!(raised, 2);

    assert_eq!(w.step(WorkerEvent::CooldownElapsed), WorkerAction::Rearm);
    pending = false;
    assert_eq!(w.step(WorkerEvent::Woken { pending }), WorkerAction::Park);
    assert_eq!(w.phase, WorkerPhase::Idle);
}

#[test]
fn configured_delay_is_used() {
    let c = Config { delay: Some(250) };
    assert_eq!(c.dwell_ms(), 250);
    let mut w = Worker::new(&c, HotRegion::hot_corner());
    assert_eq!(w.dwell_ms, 250);
    assert_eq!(w.step(WorkerEvent::Woken { pending: true }), WorkerAction::Dwell { ms: 250 });
}

#[test]
fn missing_delay_uses_default() {
    let c = Config { delay: None };
    assert_eq!(c.dwell_ms(), DEFAULT_DELAY_MS);
    assert_eq!(DEFAULT_DELAY_MS, 100);
    let mut w = Worker::new(&c, HotRegion::hot_corner());
    assert_eq!(
        w.step(WorkerEvent::Woken { pending: true }),
        WorkerAction::Dwell { ms: DEFAULT_DELAY_MS }
    );
}
