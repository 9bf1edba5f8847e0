//! The application state machine, driven by a host that answers from a script.
use laufey_input::app::motion_dispatch;
use laufey_input::app::App;
use laufey_input::cursor::AcceptedCursorGrab;
use laufey_input::cursor::AcceptedCursorGrabMode;
use laufey_input::cursor::PendingPointerUngrab;
use laufey_input::cursor::LAUFEY_CURSOR_GRAB_CONFINED;
use laufey_input::cursor::LAUFEY_CURSOR_GRAB_LOCKED;
use laufey_input::cursor::LAUFEY_CURSOR_GRAB_NONE;
use laufey_input::step::AfterForce;
use laufey_input::step::CommonEvent;
use laufey_input::step::ControlFlow;
use laufey_input::step::DeviceEvent;
use laufey_input::step::Effect;
use laufey_input::step::GrabTarget;
use laufey_input::step::MotionDispatch;
use laufey_input::step::NativeCall;
use laufey_input::step::NativeGrabMode;
use laufey_input::step::Next;
use laufey_input::step::Step;
use laufey_input::step::WindowEvent;
use laufey_input::wayland::Capabilities;

/// What a run came to: the effects of all its steps and the calls it led to.
#[derive(Debug, PartialEq)]
struct Run {
    effects: Vec<Effect<f64>>,
    calls: Vec<NativeCall>,
    queries: usize,
}

const DISPLAY: Capabilities =
    Capabilities::Wayland { pointer_constraints: true, relative_pointer: true };

fn drive_on(app: &mut App<f64>, step: Step<f64>, answers: &[bool], display: Capabilities) -> Run {
    let mut run = Run { effects: Vec::new(), calls: Vec::new(), queries: 0 };
    let mut step = step;
    loop {
        run.effects.extend(step.effects);
        step = match step.next {
            Next::Done => {
                assert_eq!(run.calls.len(), answers.len(), "every answer is used");
                return run;
            }
            Next::Call { call, then } => {
                let answer = answers[run.calls.len()];
                run.calls.push(call);
                app.resume(then, answer)
            }
            Next::QueryCapabilities { window_id, mode } => {
                run.queries += 1;
                app.capabilities_known(window_id, mode, display)
            }
        };
    }
}

fn drive(app: &mut App<f64>, step: Step<f64>, answers: &[bool]) -> Run {
    drive_on(app, step, answers, DISPLAY)
}

fn window(app: &mut App<f64>, native_id: u64, event: WindowEvent<f64>, answers: &[bool]) -> Run {
    let step = app.window_event(native_id, event);
    drive(app, step, answers)
}

fn request(app: &mut App<f64>, window_id: u32, mode: i32, answers: &[bool]) -> Run {
    let step = app.user_event(CommonEvent::SetCursorGrab { window_id, mode });
    drive(app, step, answers)
}

fn answer_of(run: &Run) -> bool {
    let answers: Vec<bool> = run
        .effects
        .iter()
        .filter_map(|effect| match effect {
            Effect::CompleteCursorGrab { success } => Some(*success),
            _ => None,
        })
        .collect();
    assert_eq!(answers.len(), 1);
    answers[0]
}

fn set(target: GrabTarget, mode: NativeGrabMode) -> NativeCall {
    NativeCall::SetCursorGrab { target, mode }
}

fn live(window_id: u32) -> GrabTarget {
    GrabTarget::Live { window_id }
}

fn shown(target: GrabTarget, visible: bool) -> Effect<f64> {
    Effect::SetCursorVisible { target, visible }
}

/// Windows 1 and 2, the first one focused and with the cursor inside.
fn ready() -> App<f64> {
    let mut app: App<f64> = App::new(None);
    app.create_window(1, 100);
    app.create_window(2, 200);
    window(&mut app, 100, WindowEvent::Focused { focused: true }, &[]);
    window(&mut app, 100, WindowEvent::CursorEntered, &[]);
    app
}

fn grabbed(mode: i32) -> App<f64> {
    let mut app = ready();
    assert!(answer_of(&request(&mut app, 1, mode, &[true])));
    app
}

const LOCKED: Option<AcceptedCursorGrab> =
    Some(AcceptedCursorGrab { window_id: 1, mode: AcceptedCursorGrabMode::Locked });

const CONFINED: Option<AcceptedCursorGrab> =
    Some(AcceptedCursorGrab { window_id: 1, mode: AcceptedCursorGrabMode::Confined });

// --- Acquiring ---

#[test]
fn locking_asks_the_display_once_and_hides_the_cursor() {
    let mut app = ready();
    let run = request(&mut app, 1, LAUFEY_CURSOR_GRAB_LOCKED, &[true]);
    assert_eq!(run.queries, 1);
    assert_eq!(run.calls, vec![set(live(1), NativeGrabMode::Locked)]);
    assert_eq!(
        run.effects,
        vec![shown(live(1), false), Effect::CompleteCursorGrab { success: true }]
    );
    assert_eq!(app.cursor_grab, LOCKED);
    assert_eq!(app.wayland_cursor_capabilities, Some(DISPLAY));

    // The same request again needs neither the display nor the native window.
    let again = request(&mut app, 1, LAUFEY_CURSOR_GRAB_LOCKED, &[]);
    assert_eq!(again.queries, 0);
    assert_eq!(again.effects, vec![Effect::CompleteCursorGrab { success: true }]);
}

#[test]
fn confining_keeps_the_cursor_visible() {
    let mut app = ready();
    let run = request(&mut app, 1, LAUFEY_CURSOR_GRAB_CONFINED, &[true]);
    assert_eq!(run.calls, vec![set(live(1), NativeGrabMode::Confined)]);
    assert_eq!(
        run.effects,
        vec![shown(live(1), true), Effect::CompleteCursorGrab { success: true }]
    );
    assert_eq!(app.cursor_grab, CONFINED);
}

#[test]
fn a_lock_falls_back_to_confinement() {
    let mut app = ready();
    let run = request(&mut app, 1, LAUFEY_CURSOR_GRAB_LOCKED, &[false, true]);
    assert_eq!(
        run.calls,
        vec![set(live(1), NativeGrabMode::Locked), set(live(1), NativeGrabMode::Confined)]
    );
    assert!(answer_of(&run));
    assert_eq!(app.cursor_grab, LOCKED);

    let mut app = ready();
    let run = request(&mut app, 1, LAUFEY_CURSOR_GRAB_LOCKED, &[false, false]);
    assert!(!answer_of(&run));
    assert_eq!(app.cursor_grab, None);
}

#[test]
fn a_refused_confinement_is_not_retried() {
    let mut app = ready();
    let run = request(&mut app, 1, LAUFEY_CURSOR_GRAB_CONFINED, &[false]);
    assert_eq!(run.calls.len(), 1);
    assert_eq!(run.effects, vec![Effect::CompleteCursorGrab { success: false }]);
    assert_eq!(app.cursor_grab, None);
}

#[test]
fn unknown_codes_are_refused() {
    let mut app = grabbed(LAUFEY_CURSOR_GRAB_LOCKED);
    let run = request(&mut app, 1, 99, &[]);
    assert_eq!(run.effects, vec![Effect::CompleteCursorGrab { success: false }]);
    assert_eq!(app.cursor_grab, LOCKED);
}

#[test]
fn a_grab_needs_focus_and_cursor() {
    let mut app = ready();
    // Window 2 has neither.
    assert!(!answer_of(&request(&mut app, 2, LAUFEY_CURSOR_GRAB_LOCKED, &[])));
    // Focus alone is not enough.
    window(&mut app, 200, WindowEvent::Focused { focused: true }, &[]);
    assert!(!answer_of(&request(&mut app, 2, LAUFEY_CURSOR_GRAB_LOCKED, &[])));
    // A click shows that the cursor is inside.
    window(&mut app, 200, WindowEvent::MouseInput, &[]);
    assert!(answer_of(&request(&mut app, 2, LAUFEY_CURSOR_GRAB_LOCKED, &[true])));
    // Window 1 has the cursor inside, but no focus any more.
    assert!(!answer_of(&request(&mut app, 1, LAUFEY_CURSOR_GRAB_LOCKED, &[])));
    // A window that does not exist.
    assert!(!answer_of(&request(&mut app, 3, LAUFEY_CURSOR_GRAB_CONFINED, &[])));
}

#[test]
fn the_display_has_a_say() {
    let mut app = ready();
    let confined_only =
        Capabilities::Wayland { pointer_constraints: true, relative_pointer: false };
    let step = app.user_event(CommonEvent::SetCursorGrab {
        window_id: 1,
        mode: LAUFEY_CURSOR_GRAB_LOCKED,
    });
    let run = drive_on(&mut app, step, &[], confined_only);
    assert_eq!(run.queries, 1);
    assert!(!answer_of(&run));
    // What it said is remembered.
    let run = request(&mut app, 1, LAUFEY_CURSOR_GRAB_CONFINED, &[true]);
    assert_eq!(run.queries, 0);
    assert!(answer_of(&run));

    // Where it never has to be asked, it is not.
    let mut app: App<f64> = App::new(Some(Capabilities::NotWayland));
    app.create_window(1, 100);
    window(&mut app, 100, WindowEvent::Focused { focused: true }, &[]);
    window(&mut app, 100, WindowEvent::CursorEntered, &[]);
    assert_eq!(
        app.supports_cursor_grab_mode(1, AcceptedCursorGrabMode::Locked),
        Some(true)
    );
    assert_eq!(request(&mut app, 1, LAUFEY_CURSOR_GRAB_LOCKED, &[true]).queries, 0);
}

#[test]
fn support_is_unknown_before_the_display_was_asked() {
    let app = ready();
    assert_eq!(app.supports_cursor_grab_mode(1, AcceptedCursorGrabMode::Locked), None);
    assert_eq!(app.supports_cursor_grab_mode(9, AcceptedCursorGrabMode::Locked), Some(false));
}

#[test]
fn another_mode_replaces_the_grab() {
    let mut app = grabbed(LAUFEY_CURSOR_GRAB_LOCKED);
    let run = request(&mut app, 1, LAUFEY_CURSOR_GRAB_CONFINED, &[true, true]);
    assert_eq!(
        run.calls,
        vec![set(live(1), NativeGrabMode::Free), set(live(1), NativeGrabMode::Confined)]
    );
    assert_eq!(
        run.effects,
        vec![
            shown(live(1), true),
            shown(live(1), true),
            Effect::CompleteCursorGrab { success: true }
        ]
    );
    assert_eq!(app.cursor_grab, CONFINED);
}

#[test]
fn a_grab_that_cannot_be_given_up_blocks_the_next() {
    let mut app = grabbed(LAUFEY_CURSOR_GRAB_LOCKED);
    let run = request(&mut app, 1, LAUFEY_CURSOR_GRAB_CONFINED, &[false]);
    assert!(!answer_of(&run));
    assert_eq!(app.cursor_grab, None);
    assert_eq!(
        app.pending_pointer_ungrab,
        Some(PendingPointerUngrab { window_id: 1, detached: false })
    );
    // The next request tries the release again first, and gives up with it.
    let run = request(&mut app, 1, LAUFEY_CURSOR_GRAB_CONFINED, &[false]);
    assert_eq!(run.calls, vec![set(live(1), NativeGrabMode::Free)]);
    assert!(!answer_of(&run));
    // Once it succeeds, the request goes through.
    let run = request(&mut app, 1, LAUFEY_CURSOR_GRAB_CONFINED, &[true, true]);
    assert!(answer_of(&run));
    assert_eq!(app.pending_pointer_ungrab, None);
    assert_eq!(app.cursor_grab, CONFINED);
}

// --- Releasing ---

#[test]
fn a_release_undoes_a_grab() {
    let mut app = grabbed(LAUFEY_CURSOR_GRAB_LOCKED);
    let run = request(&mut app, 1, LAUFEY_CURSOR_GRAB_NONE, &[true]);
    assert_eq!(run.calls, vec![set(live(1), NativeGrabMode::Free)]);
    assert_eq!(
        run.effects,
        vec![shown(live(1), true), Effect::CompleteCursorGrab { success: true }]
    );
    assert_eq!(app.cursor_grab, None);
    assert_eq!(app.pending_pointer_ungrab, None);
}

#[test]
fn a_release_without_a_grab_succeeds_for_open_windows() {
    let mut app = ready();
    assert!(answer_of(&request(&mut app, 1, LAUFEY_CURSOR_GRAB_NONE, &[])));
    assert!(answer_of(&request(&mut app, 2, LAUFEY_CURSOR_GRAB_NONE, &[])));
    assert!(!answer_of(&request(&mut app, 3, LAUFEY_CURSOR_GRAB_NONE, &[])));
    // Another window's grab stays.
    let mut app = grabbed(LAUFEY_CURSOR_GRAB_LOCKED);
    assert!(answer_of(&request(&mut app, 2, LAUFEY_CURSOR_GRAB_NONE, &[])));
    assert_eq!(app.cursor_grab, LOCKED);
}

#[test]
fn a_failed_release_is_reported_and_retried() {
    let mut app = grabbed(LAUFEY_CURSOR_GRAB_LOCKED);
    assert!(!answer_of(&request(&mut app, 1, LAUFEY_CURSOR_GRAB_NONE, &[false])));
    assert_eq!(app.cursor_grab, None);
    // Asked again, the pending release is tried, and fails again.
    let run = request(&mut app, 1, LAUFEY_CURSOR_GRAB_NONE, &[false]);
    assert_eq!(
        run.effects,
        vec![shown(live(1), true), Effect::CompleteCursorGrab { success: false }]
    );
    // Then it succeeds.
    assert!(answer_of(&request(&mut app, 1, LAUFEY_CURSOR_GRAB_NONE, &[true])));
    assert_eq!(app.pending_pointer_ungrab, None);
    // Another window does not have to wait for it.
    let mut app = grabbed(LAUFEY_CURSOR_GRAB_LOCKED);
    assert!(!answer_of(&request(&mut app, 1, LAUFEY_CURSOR_GRAB_NONE, &[false])));
    assert!(answer_of(&request(&mut app, 2, LAUFEY_CURSOR_GRAB_NONE, &[])));
}

#[test]
fn focus_loss_releases() {
    let mut app = grabbed(LAUFEY_CURSOR_GRAB_CONFINED);
    let run = window(&mut app, 100, WindowEvent::Focused { focused: false }, &[true]);
    assert_eq!(
        run.effects,
        vec![shown(live(1), true), Effect::DispatchFocused { window_id: 1, focused: false }]
    );
    assert_eq!(app.cursor_grab, None);
    assert_eq!(app.focused_laufey_id, None);

    // Without a grab only the focus goes.
    let mut app = ready();
    let run = window(&mut app, 200, WindowEvent::Focused { focused: false }, &[]);
    assert_eq!(run.effects, vec![Effect::DispatchFocused { window_id: 2, focused: false }]);
    assert_eq!(app.focused_laufey_id, Some(1));
}

#[test]
fn the_cursor_leaving_releases() {
    let mut app = grabbed(LAUFEY_CURSOR_GRAB_LOCKED);
    window(&mut app, 100, WindowEvent::ModifiersChanged { modifiers: 5 }, &[]);
    let run = window(&mut app, 100, WindowEvent::CursorLeft, &[false]);
    assert_eq!(
        run.effects,
        vec![
            shown(live(1), true),
            Effect::DispatchCursorEnterLeave { window_id: 1, entered: false, modifiers: 5 }
        ]
    );
    assert_eq!(app.cursor_grab, None);
    assert_eq!(
        app.pending_pointer_ungrab,
        Some(PendingPointerUngrab { window_id: 1, detached: false })
    );
    // Leaving again tries the pending release.
    let run = window(&mut app, 100, WindowEvent::CursorLeft, &[true]);
    assert_eq!(run.calls, vec![set(live(1), NativeGrabMode::Free)]);
    assert_eq!(app.pending_pointer_ungrab, None);
}

#[test]
fn suspension_releases() {
    let mut app = grabbed(LAUFEY_CURSOR_GRAB_LOCKED);
    let step = app.suspended();
    let run = drive(&mut app, step, &[true]);
    assert_eq!(run.effects, vec![shown(live(1), true)]);
    assert_eq!(app.cursor_grab, None);
    let step = app.suspended();
    assert_eq!(drive(&mut app, step, &[]).effects, vec![]);
}

// --- Closing ---

#[test]
fn closing_drops_the_window_and_its_grab() {
    let mut app = grabbed(LAUFEY_CURSOR_GRAB_LOCKED);
    let step = app.user_event(CommonEvent::CloseWindow { window_id: 1 });
    let run = drive(&mut app, step, &[true]);
    assert_eq!(
        run.effects,
        vec![
            shown(live(1), true),
            Effect::RemoveWindow { window_id: 1 },
            Effect::DropWindow { window_id: 1 }
        ]
    );
    assert_eq!(app.cursor_grab, None);
    assert_eq!(app.laufey_id(100), None);
    assert_eq!(app.laufey_id(200), Some(2));
    // The last window takes the application along.
    let step = app.user_event(CommonEvent::CloseWindow { window_id: 2 });
    let run = drive(&mut app, step, &[]);
    assert_eq!(
        run.effects,
        vec![
            Effect::RemoveWindow { window_id: 2 },
            Effect::DropWindow { window_id: 2 },
            Effect::Exit
        ]
    );
}

#[test]
fn a_window_with_a_stuck_grab_is_kept_until_it_is_free() {
    let mut app = grabbed(LAUFEY_CURSOR_GRAB_LOCKED);
    let step = app.user_event(CommonEvent::CloseWindow { window_id: 1 });
    let run = drive(&mut app, step, &[false]);
    assert_eq!(
        run.effects,
        vec![
            shown(live(1), true),
            Effect::RemoveWindow { window_id: 1 },
            Effect::DetachWindow { window_id: 1 }
        ]
    );
    assert_eq!(
        app.pending_pointer_ungrab,
        Some(PendingPointerUngrab { window_id: 1, detached: true })
    );
    // Nobody gets a grab meanwhile.
    window(&mut app, 200, WindowEvent::Focused { focused: true }, &[]);
    window(&mut app, 200, WindowEvent::CursorEntered, &[]);
    let run = request(&mut app, 2, LAUFEY_CURSOR_GRAB_CONFINED, &[false]);
    assert_eq!(run.calls, vec![set(GrabTarget::Detached, NativeGrabMode::Free)]);
    assert!(!answer_of(&run));
    // The retry before the loop waits frees it.
    let step = app.about_to_wait();
    let run = drive(&mut app, step, &[true]);
    assert_eq!(
        run.effects,
        vec![
            shown(GrabTarget::Detached, true),
            Effect::DropDetached,
            Effect::SetControlFlow { flow: ControlFlow::Wait },
            Effect::PollMenuEvents,
            Effect::PollTrayEvents
        ]
    );
    assert_eq!(app.pending_pointer_ungrab, None);
    assert!(answer_of(&request(&mut app, 2, LAUFEY_CURSOR_GRAB_CONFINED, &[true])));
}

#[test]
fn the_runtime_decides_about_a_close() {
    let mut app = grabbed(LAUFEY_CURSOR_GRAB_LOCKED);
    let run = window(&mut app, 100, WindowEvent::CloseRequested, &[false]);
    assert_eq!(run.calls, vec![NativeCall::CloseRequested { window_id: 1 }]);
    assert_eq!(run.effects, vec![]);
    assert_eq!(app.cursor_grab, LOCKED);
    assert_eq!(app.laufey_id(100), Some(1));

    let run = window(&mut app, 100, WindowEvent::CloseRequested, &[true, true]);
    assert_eq!(
        run.calls,
        vec![
            NativeCall::CloseRequested { window_id: 1 },
            set(live(1), NativeGrabMode::Free)
        ]
    );
    assert_eq!(app.cursor_grab, None);
    assert_eq!(app.laufey_id(100), None);
}

#[test]
fn a_destroyed_window_frees_the_process() {
    let mut app = grabbed(LAUFEY_CURSOR_GRAB_LOCKED);
    let run = window(&mut app, 100, WindowEvent::Destroyed, &[false]);
    assert_eq!(run.calls, vec![NativeCall::ReleaseProcessGrab]);
    assert_eq!(
        run.effects,
        vec![
            Effect::DispatchCloseRequested { window_id: 1 },
            Effect::RemoveWindow { window_id: 1 },
            Effect::DropWindow { window_id: 1 },
            Effect::ShowAllCursors
        ]
    );
    assert!(app.pending_process_ungrab);
    assert_eq!(app.cursor_grab, None);
    // Until the process is free, requests are refused and waits are short.
    window(&mut app, 200, WindowEvent::Focused { focused: true }, &[]);
    window(&mut app, 200, WindowEvent::CursorEntered, &[]);
    assert!(!answer_of(&request(&mut app, 2, LAUFEY_CURSOR_GRAB_LOCKED, &[false])));
    assert!(!answer_of(&request(&mut app, 2, LAUFEY_CURSOR_GRAB_NONE, &[false])));
    let step = app.about_to_wait();
    let run = drive(&mut app, step, &[false]);
    assert_eq!(
        run.effects[0],
        Effect::SetControlFlow { flow: ControlFlow::WaitFor { millis: 50 } }
    );
    assert!(answer_of(&request(&mut app, 2, LAUFEY_CURSOR_GRAB_LOCKED, &[true, true])));
    assert!(!app.pending_process_ungrab);
}

#[test]
fn a_destroyed_window_without_a_grab_is_just_gone() {
    let mut app = ready();
    let run = window(&mut app, 200, WindowEvent::Destroyed, &[]);
    assert_eq!(
        run.effects,
        vec![
            Effect::DispatchCloseRequested { window_id: 2 },
            Effect::RemoveWindow { window_id: 2 },
            Effect::DropWindow { window_id: 2 }
        ]
    );
    let run = window(&mut app, 100, WindowEvent::Destroyed, &[]);
    assert_eq!(run.effects.last(), Some(&Effect::Exit));
}

#[test]
fn a_destroyed_window_ends_its_pending_release() {
    let mut app = grabbed(LAUFEY_CURSOR_GRAB_LOCKED);
    assert!(!answer_of(&request(&mut app, 1, LAUFEY_CURSOR_GRAB_NONE, &[false])));
    let run = window(&mut app, 100, WindowEvent::Destroyed, &[true]);
    assert_eq!(run.calls, vec![NativeCall::ReleaseProcessGrab]);
    assert_eq!(app.pending_pointer_ungrab, None);
    assert!(!app.pending_process_ungrab);
}

#[test]
fn closing_and_releasing_can_be_asked_for_directly() {
    let mut app = grabbed(LAUFEY_CURSOR_GRAB_LOCKED);
    let mut effects = Vec::new();
    let next = app.force_release_cursor_grab(&mut effects, 1, AfterForce::Suspended);
    let run = drive(&mut app, Step { effects, next }, &[true]);
    assert_eq!(run.effects, vec![shown(live(1), true)]);
    let mut effects = Vec::new();
    let next = app.close_window(&mut effects, 1, false);
    drive(&mut app, Step { effects, next }, &[]);
    assert_eq!(app.laufey_id(100), None);
    let mut effects = Vec::new();
    let next = app.set_cursor_grab(&mut effects, 1, LAUFEY_CURSOR_GRAB_NONE);
    assert!(!answer_of(&drive(&mut app, Step { effects, next }, &[])));
}

#[test]
fn another_windows_grab_is_left_alone() {
    // Window 1 holds the grab; everything below happens to window 2.
    let mut app = grabbed(LAUFEY_CURSOR_GRAB_LOCKED);
    let run = request(&mut app, 2, LAUFEY_CURSOR_GRAB_NONE, &[]);
    assert!(run.calls.is_empty());
    assert!(answer_of(&run));
    assert_eq!(app.cursor_grab, LOCKED);

    let run = window(&mut app, 200, WindowEvent::CloseRequested, &[true]);
    assert!(!run.effects.contains(&Effect::Exit));
    assert_eq!(app.cursor_grab, LOCKED);
    assert_eq!(app.laufey_id(200), None);

    app.create_window(2, 201);
    let step = app.user_event(CommonEvent::CloseWindow { window_id: 2 });
    let run = drive(&mut app, step, &[]);
    assert!(run.calls.is_empty());
    assert_eq!(app.cursor_grab, LOCKED);

    app.create_window(2, 202);
    let run = window(&mut app, 202, WindowEvent::Destroyed, &[]);
    assert!(run.calls.is_empty());
    assert!(!run.effects.contains(&Effect::Exit));
    let told = Effect::DispatchCloseRequested { window_id: 2 };
    assert_eq!(run.effects.iter().filter(|effect| **effect == told).count(), 1);
    assert_eq!(app.cursor_grab, LOCKED);
}

// --- Motion ---

#[test]
fn motion_goes_to_the_locked_window_in_order() {
    let mut app = grabbed(LAUFEY_CURSOR_GRAB_LOCKED);
    window(&mut app, 100, WindowEvent::ModifiersChanged { modifiers: 4 }, &[]);
    app.device_event(DeviceEvent::MouseMotion { dx: 1.5, dy: -2.0 });
    app.device_event(DeviceEvent::Other);
    app.device_event(DeviceEvent::MouseMotion { dx: 0.25, dy: 0.0 });
    let run = window(&mut app, 200, WindowEvent::MouseWheel, &[]);
    assert_eq!(
        run.effects,
        vec![
            Effect::MotionDelta { dx: 1.5, dy: -2.0 },
            Effect::MotionDelta { dx: 0.25, dy: 0.0 },
            Effect::DispatchMouseMotion { window_id: 1, modifiers: 4 },
            Effect::DispatchWheel { window_id: 2, modifiers: 0 }
        ]
    );
    // It is dispatched once.
    let step = app.about_to_wait();
    assert_eq!(
        drive(&mut app, step, &[]).effects,
        vec![
            Effect::SetControlFlow { flow: ControlFlow::Wait },
            Effect::PollMenuEvents,
            Effect::PollTrayEvents
        ]
    );
}

#[test]
fn motion_that_comes_to_nothing_is_not_dispatched() {
    let moved = motion_dispatch(3, 4, (1.5, -2.0), false, true);
    assert_eq!(
        moved,
        Some(MotionDispatch { window_id: 3, delta_x: 1.5, delta_y: -2.0, modifiers: 4 })
    );
    assert_eq!(motion_dispatch(3, 4, (0.0, 0.0), true, true), None);
    assert_eq!(motion_dispatch(3, 4, (1.5, -2.0), false, false), None);
    assert_eq!(motion_dispatch(3, 4, (0.0, 0.0), true, false), None);
}

#[test]
fn motion_is_lost_without_a_lock() {
    let mut app = grabbed(LAUFEY_CURSOR_GRAB_CONFINED);
    app.device_event(DeviceEvent::MouseMotion { dx: 1.0, dy: 1.0 });
    assert!(app.pending_mouse_motion.is_empty());

    // A lock without the focus does not collect motion either.
    let mut app = grabbed(LAUFEY_CURSOR_GRAB_LOCKED);
    window(&mut app, 200, WindowEvent::Focused { focused: true }, &[]);
    assert_eq!(app.cursor_grab, LOCKED);
    app.device_event(DeviceEvent::MouseMotion { dx: 1.0, dy: 1.0 });
    assert!(app.pending_mouse_motion.is_empty());
}

#[test]
fn a_release_request_dispatches_what_came_before() {
    let mut app = grabbed(LAUFEY_CURSOR_GRAB_LOCKED);
    app.device_event(DeviceEvent::MouseMotion { dx: 3.0, dy: 4.0 });
    let run = request(&mut app, 1, LAUFEY_CURSOR_GRAB_NONE, &[true]);
    assert_eq!(
        run.effects,
        vec![
            Effect::MotionDelta { dx: 3.0, dy: 4.0 },
            Effect::DispatchMouseMotion { window_id: 1, modifiers: 0 },
            shown(live(1), true),
            Effect::CompleteCursorGrab { success: true }
        ]
    );
    // A suspension does not.
    let mut app = grabbed(LAUFEY_CURSOR_GRAB_LOCKED);
    app.device_event(DeviceEvent::MouseMotion { dx: 3.0, dy: 4.0 });
    let step = app.suspended();
    assert_eq!(drive(&mut app, step, &[true]).effects, vec![shown(live(1), true)]);
    assert!(app.pending_mouse_motion.is_empty());
}

#[test]
fn absolute_movement_is_reported_unless_locked() {
    let mut app = ready();
    let run = window(&mut app, 200, WindowEvent::CursorMoved { x: 1.0, y: 2.0 }, &[]);
    assert_eq!(
        run.effects,
        vec![
            Effect::StoreCursorPosition { window_id: 2, x: 1.0, y: 2.0 },
            Effect::DispatchMouseMove { window_id: 2, x: 1.0, y: 2.0, modifiers: 0 }
        ]
    );
    let mut app = grabbed(LAUFEY_CURSOR_GRAB_LOCKED);
    let run = window(&mut app, 100, WindowEvent::CursorMoved { x: 1.0, y: 2.0 }, &[]);
    assert_eq!(run.effects, vec![]);
    let run = window(&mut app, 200, WindowEvent::CursorMoved { x: 1.0, y: 2.0 }, &[]);
    assert_eq!(run.effects.len(), 2);
}

// --- Other events ---

#[test]
fn window_events_are_dispatched_with_the_windows_modifiers() {
    let mut app = ready();
    assert_eq!(
        window(&mut app, 100, WindowEvent::ModifiersChanged { modifiers: 9 }, &[]).effects,
        vec![]
    );
    assert_eq!(
        window(&mut app, 100, WindowEvent::KeyboardInput, &[]).effects,
        vec![Effect::DispatchKeyboard { window_id: 1, modifiers: 9 }]
    );
    assert_eq!(
        window(&mut app, 100, WindowEvent::MouseInput, &[]).effects,
        vec![Effect::DispatchMouseClick { window_id: 1, modifiers: 9 }]
    );
    assert_eq!(
        window(&mut app, 100, WindowEvent::CursorEntered, &[]).effects,
        vec![Effect::DispatchCursorEnterLeave { window_id: 1, entered: true, modifiers: 9 }]
    );
    assert_eq!(
        window(&mut app, 200, WindowEvent::KeyboardInput, &[]).effects,
        vec![Effect::DispatchKeyboard { window_id: 2, modifiers: 0 }]
    );
    assert_eq!(
        window(&mut app, 100, WindowEvent::Moved { x: -5, y: 6 }, &[]).effects,
        vec![
            Effect::StorePosition { window_id: 1, x: -5, y: 6 },
            Effect::DispatchMove { window_id: 1, x: -5, y: 6 }
        ]
    );
    assert_eq!(window(&mut app, 100, WindowEvent::Unhandled, &[]).effects, vec![]);
}

#[test]
fn sizes_are_reported_as_signed_numbers() {
    let mut app = ready();
    let resized = WindowEvent::Resized { width: 800, height: 600 };
    assert_eq!(
        window(&mut app, 100, resized, &[]).effects,
        vec![
            Effect::StoreSize { window_id: 1, width: 800, height: 600 },
            Effect::DispatchResize { window_id: 1, width: 800, height: 600 }
        ]
    );
    let resized = WindowEvent::Resized { width: 0x7fff_ffff, height: 0x8000_0000 };
    assert_eq!(
        window(&mut app, 100, resized, &[]).effects[1],
        Effect::DispatchResize { window_id: 1, width: i32::MAX, height: i32::MIN }
    );
    let resized = WindowEvent::Resized { width: u32::MAX, height: 0 };
    assert_eq!(
        window(&mut app, 100, resized, &[]).effects[1],
        Effect::DispatchResize { window_id: 1, width: -1, height: 0 }
    );
}

#[test]
fn unknown_windows_are_ignored() {
    let mut app = grabbed(LAUFEY_CURSOR_GRAB_LOCKED);
    app.device_event(DeviceEvent::MouseMotion { dx: 1.0, dy: 1.0 });
    let run = window(&mut app, 999, WindowEvent::Destroyed, &[]);
    assert_eq!(run.effects, vec![]);
    assert_eq!(app.pending_mouse_motion, vec![(1.0, 1.0)]);
}

#[test]
fn requests_of_the_runtime() {
    let mut app = ready();
    let cases = vec![
        (CommonEvent::Quit, vec![Effect::Exit]),
        (CommonEvent::CreateWindow { window_id: 5 }, vec![Effect::CreateWindow { window_id: 5 }]),
        (CommonEvent::UiTask, vec![Effect::RunUiTask]),
        (CommonEvent::DockTask, vec![Effect::DrainDock]),
        (CommonEvent::TrayTask, vec![Effect::DrainTray]),
        (CommonEvent::Other, vec![]),
    ];
    for (event, effects) in cases {
        let step = app.user_event(event);
        assert_eq!(drive(&mut app, step, &[]).effects, effects);
    }
    let properties = |window_id: u32| {
        vec![
            CommonEvent::SetTitle { window_id },
            CommonEvent::SetWindowSize { window_id },
            CommonEvent::SetWindowPosition { window_id },
            CommonEvent::SetResizable { window_id },
            CommonEvent::SetAlwaysOnTop { window_id },
            CommonEvent::SetClickPassthrough { window_id },
            CommonEvent::Show { window_id },
            CommonEvent::Hide { window_id },
            CommonEvent::Focus { window_id },
            CommonEvent::SetApplicationMenu { window_id },
            CommonEvent::ShowContextMenu { window_id },
        ]
    };
    for event in properties(2) {
        let step = app.user_event(event);
        assert_eq!(
            drive(&mut app, step, &[]).effects,
            vec![Effect::ApplyCommonEvent { window_id: 2 }]
        );
    }
    for event in properties(3) {
        let step = app.user_event(event);
        assert_eq!(drive(&mut app, step, &[]).effects, vec![]);
    }
}

#[test]
fn the_focused_window_or_any_other() {
    let mut app: App<f64> = App::new(None);
    assert_eq!(app.focused_window(), None);
    app.create_window(7, 70);
    assert_eq!(app.focused_window(), Some(7));
    app.create_window(8, 80);
    assert!(matches!(app.focused_window(), Some(7) | Some(8)));
    window(&mut app, 80, WindowEvent::Focused { focused: true }, &[]);
    assert_eq!(app.focused_window(), Some(8));
    // A focused window that was closed leaves nothing to go to.
    let step = app.user_event(CommonEvent::CloseWindow { window_id: 8 });
    drive(&mut app, step, &[]);
    assert_eq!(app.focused_window(), None);
}
