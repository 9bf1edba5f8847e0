//! Registration of handlers and the routing of raw callbacks.
use laufey_input::events::KeyModifiers;
use laufey_input::events::MouseButton;
use laufey_input::events::MouseButtonState;
use laufey_input::events::WheelDeltaMode;
use laufey_input::handlers::close_requested_trampoline;
use laufey_input::handlers::cursor_enter_leave_trampoline;
use laufey_input::handlers::ensure_handler;
use laufey_input::handlers::focused_trampoline;
use laufey_input::handlers::mouse_click_trampoline;
use laufey_input::handlers::mouse_motion_trampoline;
use laufey_input::handlers::mouse_move_trampoline;
use laufey_input::handlers::move_trampoline;
use laufey_input::handlers::on_close_requested;
use laufey_input::handlers::on_cursor_enter_leave;
use laufey_input::handlers::on_focused;
use laufey_input::handlers::on_mouse_click;
use laufey_input::handlers::on_mouse_motion;
use laufey_input::handlers::on_mouse_move;
use laufey_input::handlers::on_move;
use laufey_input::handlers::on_page_load;
use laufey_input::handlers::on_resize;
use laufey_input::handlers::on_wheel;
use laufey_input::handlers::page_load_trampoline;
use laufey_input::handlers::remove_mouse_motion_handler;
use laufey_input::handlers::resize_trampoline;
use laufey_input::handlers::wheel_trampoline;
use laufey_input::handlers::CloseDispatch;
use laufey_input::handlers::EventKind;
use laufey_input::handlers::Registry;

#[test]
fn a_callback_is_installed_once_per_kind() {
    let mut registry: Registry<&str> = Registry::new();
    assert_eq!(on_mouse_click(&mut registry, 1, "a"), Some(EventKind::MouseClick));
    assert_eq!(on_mouse_click(&mut registry, 2, "b"), None);
    assert_eq!(on_mouse_move(&mut registry, 1, "a"), Some(EventKind::MouseMove));
    assert_eq!(on_wheel(&mut registry, 1, "a"), Some(EventKind::Wheel));
    assert_eq!(on_cursor_enter_leave(&mut registry, 1, "a"), Some(EventKind::CursorEnterLeave));
    assert_eq!(on_focused(&mut registry, 1, "a"), Some(EventKind::Focused));
    assert_eq!(on_resize(&mut registry, 1, "a"), Some(EventKind::Resize));
    assert_eq!(on_move(&mut registry, 1, "a"), Some(EventKind::Move));
    assert_eq!(on_page_load(&mut registry, 1, "a"), Some(EventKind::PageLoad));
    assert_eq!(on_page_load(&mut registry, 1, "b"), None);
    assert_eq!(
        on_mouse_motion(&mut registry, 1, "a"),
        (Some(EventKind::MouseMotion), Some(EventKind::CloseRequested))
    );
    // Motion handlers had close requests delivered already.
    assert_eq!(on_close_requested(&mut registry, 1, "a"), None);
    assert_eq!(on_mouse_motion(&mut registry, 2, "b"), (None, None));
}

#[test]
fn a_motion_handler_asks_only_for_what_is_missing() {
    let mut registry: Registry<&str> = Registry::new();
    assert_eq!(on_close_requested(&mut registry, 1, "a"), Some(EventKind::CloseRequested));
    assert_eq!(on_mouse_motion(&mut registry, 1, "b"), (Some(EventKind::MouseMotion), None));
}

#[test]
fn the_last_registration_wins_for_its_window_only() {
    let mut registry: Registry<&str> = Registry::new();
    on_focused(&mut registry, 1, "first");
    on_focused(&mut registry, 2, "other");
    on_focused(&mut registry, 1, "second");
    let (handler, event) = focused_trampoline(&registry, 1, 1).unwrap();
    assert_eq!(*handler, "second");
    assert_eq!(event.window_id, 1);
    assert!(event.focused);
    let (handler, event) = focused_trampoline(&registry, 2, 0).unwrap();
    assert_eq!(*handler, "other");
    assert!(!event.focused);
    assert!(focused_trampoline(&registry, 3, 1).is_none());
    // Another kind has no handler.
    assert!(resize_trampoline(&registry, 1, 800, 600).is_none());
}

#[test]
fn raw_arguments_end_up_in_their_fields() {
    let mut registry: Registry<u8> = Registry::new();
    on_mouse_click(&mut registry, 4, 1);
    on_mouse_move(&mut registry, 4, 2);
    on_mouse_motion(&mut registry, 4, 3);
    on_wheel(&mut registry, 4, 4);
    on_cursor_enter_leave(&mut registry, 4, 5);
    on_resize(&mut registry, 4, 6);
    on_move(&mut registry, 4, 7);
    on_page_load(&mut registry, 4, 8);

    let (handler, click) =
        mouse_click_trampoline(&registry, 4, 0, 2, 1.5, 2.5, 6, 3).unwrap();
    assert_eq!(*handler, 1);
    assert_eq!(click.window_id, 4);
    assert_eq!(click.state, MouseButtonState::Pressed);
    assert_eq!(click.button, MouseButton::Middle);
    assert_eq!((click.x, click.y), (1.5, 2.5));
    assert_eq!(click.modifiers, KeyModifiers { bits: 6 });
    assert_eq!(click.click_count, 3);

    let (handler, moved) = mouse_move_trampoline(&registry, 4, 1.0, 2.0, 5).unwrap();
    assert_eq!(*handler, 2);
    assert_eq!((moved.x, moved.y, moved.modifiers.bits), (1.0, 2.0, 5));

    let (handler, motion) = mouse_motion_trampoline(&registry, 4, -1.0, 2.0, 0).unwrap();
    assert_eq!(*handler, 3);
    assert_eq!((motion.delta_x, motion.delta_y), (-1.0, 2.0));

    let (handler, wheel) = wheel_trampoline(&registry, 4, 1.0, 2.0, 3.0, 4.0, 7, 1).unwrap();
    assert_eq!(*handler, 4);
    assert_eq!((wheel.delta_x, wheel.delta_y, wheel.x, wheel.y), (1.0, 2.0, 3.0, 4.0));
    assert_eq!(wheel.modifiers, KeyModifiers::from_raw(7));
    assert_eq!(wheel.delta_mode, WheelDeltaMode::Line);

    let (handler, entered) =
        cursor_enter_leave_trampoline(&registry, 4, -1, 3.0, 4.0, 1).unwrap();
    assert_eq!(*handler, 5);
    assert!(entered.entered);
    assert_eq!((entered.x, entered.y, entered.modifiers.bits), (3.0, 4.0, 1));
    assert!(!cursor_enter_leave_trampoline(&registry, 4, 0, 3.0, 4.0, 1).unwrap().1.entered);

    let (handler, resized) = resize_trampoline(&registry, 4, 800, 600).unwrap();
    assert_eq!(*handler, 6);
    assert_eq!((resized.width, resized.height), (800, 600));

    let (handler, placed) = move_trampoline(&registry, 4, 100, 200).unwrap();
    assert_eq!(*handler, 7);
    assert_eq!((placed.x, placed.y), (100, 200));

    // A page can load again and again.
    for _ in 0..2 {
        let (handler, loaded) = page_load_trampoline(&registry, 4).unwrap();
        assert_eq!(*handler, 8);
        assert_eq!(loaded.window_id, 4);
    }
}

#[test]
fn a_close_takes_only_the_windows_motion_handler() {
    let mut registry: Registry<&str> = Registry::new();
    on_mouse_motion(&mut registry, 1, "one");
    on_mouse_motion(&mut registry, 2, "two");
    on_focused(&mut registry, 1, "focus");
    remove_mouse_motion_handler(&mut registry, 1);
    assert!(mouse_motion_trampoline(&registry, 1, 0.0, 0.0, 0).is_none());
    assert!(mouse_motion_trampoline(&registry, 2, 0.0, 0.0, 0).is_some());
    assert!(focused_trampoline(&registry, 1, 1).is_some());
    // Its callback stays installed.
    assert_eq!(on_mouse_motion(&mut registry, 1, "again"), (None, None));
}

#[test]
fn delivery_can_be_set_up_before_the_first_handler() {
    let kinds = vec![
        EventKind::MouseClick,
        EventKind::MouseMove,
        EventKind::MouseMotion,
        EventKind::Wheel,
        EventKind::CursorEnterLeave,
        EventKind::Focused,
        EventKind::Resize,
        EventKind::Move,
        EventKind::CloseRequested,
        EventKind::PageLoad,
    ];
    let mut registry: Registry<&str> = Registry::new();
    for kind in &kinds {
        assert_eq!(ensure_handler(&mut registry, *kind), Some(*kind));
    }
    for kind in &kinds {
        assert_eq!(ensure_handler(&mut registry, *kind), None);
    }
    assert!(focused_trampoline(&registry, 1, 1).is_none());
    assert_eq!(on_focused(&mut registry, 1, "a"), None);
    assert_eq!(on_mouse_motion(&mut registry, 1, "a"), (None, None));
    assert!(focused_trampoline(&registry, 1, 1).is_some());
}

#[test]
fn the_close_callback_of_a_motion_handler_is_asked_for_once() {
    let mut registry: Registry<&str> = Registry::new();
    assert_eq!(
        on_mouse_motion(&mut registry, 1, "a"),
        (Some(EventKind::MouseMotion), Some(EventKind::CloseRequested))
    );
    remove_mouse_motion_handler(&mut registry, 1);
    on_wheel(&mut registry, 1, "b");
    assert_eq!(on_mouse_motion(&mut registry, 2, "c"), (None, None));
    assert_eq!(on_close_requested(&mut registry, 3, "d"), None);
    assert_eq!(ensure_handler(&mut registry, EventKind::CloseRequested), None);
}

#[test]
fn a_close_that_is_dealt_with_ends_relative_motion() {
    let mut registry: Registry<&str> = Registry::new();
    on_mouse_motion(&mut registry, 1, "motion");
    on_close_requested(&mut registry, 1, "ask");
    let decides = match close_requested_trampoline(&registry, 1) {
        CloseDispatch::Handle { handler, .. } => *handler,
        CloseDispatch::CompleteClose { .. } => panic!("window 1 has a handler"),
    };
    assert_eq!(decides, "ask");
    // The handler registers another one before it is done.
    on_mouse_motion(&mut registry, 1, "meanwhile");
    on_resize(&mut registry, 1, "resize");
    remove_mouse_motion_handler(&mut registry, 1);
    assert!(mouse_motion_trampoline(&registry, 1, 0.0, 0.0, 0).is_none());
    assert!(resize_trampoline(&registry, 1, 2, 3).is_some());
    assert!(matches!(
        close_requested_trampoline(&registry, 1),
        CloseDispatch::Handle { .. }
    ));
}

#[test]
fn a_window_without_a_close_handler_is_closed_by_the_host() {
    let mut registry: Registry<&str> = Registry::new();
    on_close_requested(&mut registry, 1, "ask");
    match close_requested_trampoline(&registry, 2) {
        CloseDispatch::CompleteClose { window_id } => assert_eq!(window_id, 2),
        CloseDispatch::Handle { .. } => panic!("window 2 has no handler"),
    }
    match close_requested_trampoline(&registry, 1) {
        CloseDispatch::Handle { handler, event } => {
            assert_eq!(*handler, "ask");
            assert_eq!(event.window_id, 1);
        }
        CloseDispatch::CompleteClose { .. } => panic!("window 1 has a handler"),
    }
}

#[test]
fn other_buttons_and_default_modifiers() {
    assert_eq!(MouseButton::from_raw(5), MouseButton::Other(5));
    assert_eq!(MouseButton::from_raw(-1), MouseButton::Other(-1));
    assert_eq!(KeyModifiers::default(), KeyModifiers { bits: 0 });
}
