//! Decoding of raw codes, event predicates, and the routing of close requests.
use laufey_input::events::CloseRequestedEvent;
use laufey_input::events::CursorEnterLeaveEvent;
use laufey_input::events::FocusedEvent;
use laufey_input::events::KeyModifiers;
use laufey_input::events::MouseButton;
use laufey_input::events::MouseButtonState;
use laufey_input::events::MouseClickEvent;
use laufey_input::events::MouseMotionEvent;
use laufey_input::events::MoveEvent;
use laufey_input::events::ResizeEvent;
use laufey_input::events::WheelDeltaMode;
use laufey_input::events::LAUFEY_MOUSE_BUTTON_BACK;
use laufey_input::events::LAUFEY_MOUSE_BUTTON_FORWARD;
use laufey_input::events::LAUFEY_MOUSE_BUTTON_LEFT;
use laufey_input::events::LAUFEY_MOUSE_BUTTON_MIDDLE;
use laufey_input::events::LAUFEY_MOUSE_BUTTON_RIGHT;
use laufey_input::events::LAUFEY_MOUSE_PRESSED;
use laufey_input::events::LAUFEY_MOUSE_RELEASED;
use laufey_input::events::LAUFEY_WHEEL_DELTA_LINE;
use laufey_input::events::LAUFEY_WHEEL_DELTA_PAGE;
use laufey_input::events::LAUFEY_WHEEL_DELTA_PIXEL;
use laufey_input::handlers::close_requested_trampoline;
use laufey_input::handlers::on_close_requested;
use laufey_input::handlers::remove_mouse_motion_handler;
use laufey_input::handlers::CloseDispatch;
use laufey_input::handlers::Registry;
use std::sync::atomic::{AtomicBool, AtomicU32, Ordering};
use std::sync::{Arc, Mutex};

// --- MouseButton::from_raw ---

#[test]
fn mouse_button_known() {
    assert_eq!(MouseButton::from_raw(LAUFEY_MOUSE_BUTTON_LEFT), MouseButton::Left);
    assert_eq!(MouseButton::from_raw(LAUFEY_MOUSE_BUTTON_RIGHT), MouseButton::Right);
    assert_eq!(MouseButton::from_raw(LAUFEY_MOUSE_BUTTON_MIDDLE), MouseButton::Middle);
    assert_eq!(MouseButton::from_raw(LAUFEY_MOUSE_BUTTON_BACK), MouseButton::Back);
    assert_eq!(MouseButton::from_raw(LAUFEY_MOUSE_BUTTON_FORWARD), MouseButton::Forward);
}

#[test]
fn mouse_button_unknown_preserves_id() {
    // A backend can ship a new kind of button, and what came through can still
    // be inspected.
    assert_eq!(MouseButton::from_raw(99), MouseButton::Other(99));
}

// --- MouseClickEvent predicates ---

fn ev(state: MouseButtonState, button: MouseButton, clicks: i32) -> MouseClickEvent<f64> {
    MouseClickEvent {
        window_id: 1,
        state,
        button,
        x: 0.0,
        y: 0.0,
        modifiers: KeyModifiers::default(),
        click_count: clicks,
    }
}

#[test]
fn is_click_requires_left_released_with_clicks() {
    assert!(ev(MouseButtonState::Released, MouseButton::Left, 1).is_click());
    assert!(ev(MouseButtonState::Released, MouseButton::Left, 2).is_click());
}

#[test]
fn is_click_rejects_press_and_non_left() {
    // Press of left button is not a click.
    assert!(!ev(MouseButtonState::Pressed, MouseButton::Left, 1).is_click());
    // Right-button release is not a click.
    assert!(!ev(MouseButtonState::Released, MouseButton::Right, 1).is_click());
    // A release that did not pair with a recent press is no click either.
    assert!(!ev(MouseButtonState::Released, MouseButton::Left, 0).is_click());
}

#[test]
fn is_double_click_requires_click_count_2() {
    assert!(!ev(MouseButtonState::Released, MouseButton::Left, 1).is_double_click());
    assert!(ev(MouseButtonState::Released, MouseButton::Left, 2).is_double_click());
    assert!(ev(MouseButtonState::Released, MouseButton::Left, 3).is_double_click());
    // Right-button double click doesn't count.
    assert!(!ev(MouseButtonState::Released, MouseButton::Right, 2).is_double_click());
}

// --- MouseButtonState::from_raw ---

#[test]
fn mouse_button_state_known_values() {
    assert_eq!(MouseButtonState::from_raw(LAUFEY_MOUSE_PRESSED), MouseButtonState::Pressed);
    assert_eq!(MouseButtonState::from_raw(LAUFEY_MOUSE_RELEASED), MouseButtonState::Released);
}

#[test]
fn mouse_button_state_unknown_defaults_to_released() {
    assert_eq!(MouseButtonState::from_raw(99), MouseButtonState::Released);
    assert_eq!(MouseButtonState::from_raw(-1), MouseButtonState::Released);
}

// --- WheelDeltaMode::from_raw ---

#[test]
fn wheel_delta_mode_known_values() {
    assert_eq!(WheelDeltaMode::from_raw(LAUFEY_WHEEL_DELTA_PIXEL), WheelDeltaMode::Pixel);
    assert_eq!(WheelDeltaMode::from_raw(LAUFEY_WHEEL_DELTA_LINE), WheelDeltaMode::Line);
    assert_eq!(WheelDeltaMode::from_raw(LAUFEY_WHEEL_DELTA_PAGE), WheelDeltaMode::Page);
}

#[test]
fn wheel_delta_mode_unknown_defaults_to_pixel() {
    assert_eq!(WheelDeltaMode::from_raw(99), WheelDeltaMode::Pixel);
    assert_eq!(WheelDeltaMode::from_raw(-1), WheelDeltaMode::Pixel);
}

// --- Event fields ---

#[test]
fn resize_event_fields_distinct() {
    let ev = ResizeEvent { window_id: 1, width: 800, height: 600 };
    assert_eq!(ev.width, 800);
    assert_eq!(ev.height, 600);
}

#[test]
fn move_event_fields_distinct() {
    let ev = MoveEvent { window_id: 1, x: 100, y: 200 };
    assert_eq!(ev.x, 100);
    assert_eq!(ev.y, 200);
}

#[test]
fn cursor_enter_leave_carries_position_and_entered_flag() {
    let entered = CursorEnterLeaveEvent {
        window_id: 1,
        entered: true,
        x: 10.5,
        y: 20.5,
        modifiers: KeyModifiers::default(),
    };
    let left = CursorEnterLeaveEvent { entered: false, ..entered };
    assert!(entered.entered);
    assert!(!left.entered);
    // Position must survive the boolean toggle.
    assert_eq!(left.x, 10.5);
    assert_eq!(left.y, 20.5);
}

#[test]
fn mouse_motion_preserves_relative_deltas() {
    let ev = MouseMotionEvent {
        window_id: 1,
        delta_x: -3.25,
        delta_y: 8.5,
        modifiers: KeyModifiers::default(),
    };
    assert_eq!(ev.delta_x, -3.25);
    assert_eq!(ev.delta_y, 8.5);
}

#[test]
fn focused_event_distinct_states() {
    let focused = FocusedEvent { window_id: 1, focused: true };
    let blurred = FocusedEvent { window_id: 1, focused: false };
    assert!(focused.focused);
    assert!(!blurred.focused);
}

// --- Close requests ---

type Handler = Arc<dyn Fn(CloseRequestedEvent) + Send + Sync>;

type Shared = Arc<Mutex<Registry<Handler>>>;

fn shared() -> Shared {
    Arc::new(Mutex::new(Registry::new()))
}

/// Deals with a close request as a host does: the handler runs while nobody
/// holds the registry.  Says whether the close was left to the host.
fn request_close(registry: &Shared, window_id: u32) -> bool {
    let decided = match close_requested_trampoline(&registry.lock().unwrap(), window_id) {
        CloseDispatch::Handle { handler, event } => Some((handler.clone(), event)),
        CloseDispatch::CompleteClose { .. } => None,
    };
    let left_to_host = decided.is_none();
    if let Some((handler, event)) = decided {
        handler(event);
    }
    remove_mouse_motion_handler(&mut registry.lock().unwrap(), window_id);
    left_to_host
}

#[test]
fn close_requested_no_handler_is_noop() {
    let registry = shared();
    let fired = Arc::new(AtomicBool::new(false));
    let noted = fired.clone();
    on_close_requested(
        &mut registry.lock().unwrap(),
        9002,
        Arc::new(move |_event: CloseRequestedEvent| noted.store(true, Ordering::SeqCst)),
    );
    // No handler for this window: the host completes the close, and no other
    // window's handler is touched.
    assert!(request_close(&registry, 9001));
    assert!(!fired.load(Ordering::SeqCst));
}

#[test]
fn close_requested_handler_can_reenter_dispatch() {
    let registry = shared();
    let window_id = 7777;
    let depth = Arc::new(AtomicU32::new(0));
    {
        let depth = depth.clone();
        let again = registry.clone();
        on_close_requested(
            &mut registry.lock().unwrap(),
            window_id,
            Arc::new(move |event: CloseRequestedEvent| {
                // A blocking handler pumps events, which can bring a second
                // close request on the same thread.
                if depth.fetch_add(1, Ordering::SeqCst) == 0 {
                    request_close(&again, event.window_id);
                }
            }),
        );
    }
    request_close(&registry, window_id);
    assert_eq!(depth.load(Ordering::SeqCst), 2);
}

#[test]
fn close_requested_dispatches_to_registered_handler_once() {
    let registry = shared();
    let window_id = 4242;
    let calls = Arc::new(AtomicU32::new(0));
    let seen_window_id = Arc::new(AtomicU32::new(0));
    {
        let calls = calls.clone();
        let seen_window_id = seen_window_id.clone();
        on_close_requested(
            &mut registry.lock().unwrap(),
            window_id,
            Arc::new(move |event: CloseRequestedEvent| {
                calls.fetch_add(1, Ordering::SeqCst);
                seen_window_id.store(event.window_id, Ordering::SeqCst);
            }),
        );
    }
    assert!(!request_close(&registry, window_id));
    assert_eq!(calls.load(Ordering::SeqCst), 1);
    assert_eq!(seen_window_id.load(Ordering::SeqCst), window_id);
}

#[test]
fn close_requested_only_fires_handler_for_matching_window_id() {
    let registry = shared();
    let registered_window_id = 1;
    let other_window_id = 2;
    let fired = Arc::new(AtomicBool::new(false));
    {
        let fired = fired.clone();
        on_close_requested(
            &mut registry.lock().unwrap(),
            registered_window_id,
            Arc::new(move |_event: CloseRequestedEvent| {
                fired.store(true, Ordering::SeqCst);
            }),
        );
    }
    request_close(&registry, other_window_id);
    assert!(!fired.load(Ordering::SeqCst));
}
