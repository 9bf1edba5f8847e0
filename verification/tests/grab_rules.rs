//! The rules about grab modes, releases, and display capabilities.
use laufey_input::cursor::accepted_cursor_grab_mode;
use laufey_input::cursor::cursor_release_complete;
use laufey_input::cursor::locked_cursor_grab_window;
use laufey_input::cursor::AcceptedCursorGrab;
use laufey_input::cursor::AcceptedCursorGrabMode;
use laufey_input::cursor::LAUFEY_CURSOR_GRAB_CONFINED;
use laufey_input::cursor::LAUFEY_CURSOR_GRAB_LOCKED;
use laufey_input::cursor::LAUFEY_CURSOR_GRAB_NONE;
use laufey_input::wayland::query;
use laufey_input::wayland::Capabilities;
use laufey_input::wayland::DisplayProbe;
use laufey_input::wayland::RegistryData;

#[test]
fn cursor_grab_modes_reject_unknown_values() {
    assert_eq!(
        accepted_cursor_grab_mode(LAUFEY_CURSOR_GRAB_CONFINED),
        Some(AcceptedCursorGrabMode::Confined)
    );
    assert_eq!(
        accepted_cursor_grab_mode(LAUFEY_CURSOR_GRAB_LOCKED),
        Some(AcceptedCursorGrabMode::Locked)
    );
    assert_eq!(accepted_cursor_grab_mode(LAUFEY_CURSOR_GRAB_NONE), None);
    assert_eq!(accepted_cursor_grab_mode(99), None);
}

#[test]
fn only_locked_grab_receives_raw_motion() {
    let confined =
        Some(AcceptedCursorGrab { window_id: 7, mode: AcceptedCursorGrabMode::Confined });
    let locked = Some(AcceptedCursorGrab { window_id: 7, mode: AcceptedCursorGrabMode::Locked });
    assert_eq!(locked_cursor_grab_window(confined), None);
    assert_eq!(locked_cursor_grab_window(locked), Some(7));
}

#[test]
fn pending_native_ungrab_is_not_a_completed_release() {
    assert!(cursor_release_complete(None, None, 7));
    assert!(!cursor_release_complete(None, Some(7), 7));
    assert!(cursor_release_complete(None, Some(8), 7));

    let locked = Some(AcceptedCursorGrab { window_id: 7, mode: AcceptedCursorGrabMode::Locked });
    assert!(!cursor_release_complete(locked, None, 7));
}

#[test]
fn wayland_locked_mode_requires_both_protocols() {
    assert!(Capabilities::NotWayland.supports(true));
    assert!(Capabilities::Wayland { pointer_constraints: true, relative_pointer: false }
        .supports(false));
    assert!(!Capabilities::Wayland { pointer_constraints: true, relative_pointer: false }
        .supports(true));
    assert!(Capabilities::Wayland { pointer_constraints: true, relative_pointer: true }
        .supports(true));
}

#[test]
fn grab_elsewhere_is_a_completed_release() {
    let other = Some(AcceptedCursorGrab { window_id: 8, mode: AcceptedCursorGrabMode::Confined });
    assert!(cursor_release_complete(other, None, 7));
    assert!(!cursor_release_complete(other, Some(7), 7));
    assert_eq!(locked_cursor_grab_window(None), None);
}

#[test]
fn no_grab_without_pointer_constraints() {
    let relative_only =
        Capabilities::Wayland { pointer_constraints: false, relative_pointer: true };
    assert!(!relative_only.supports(false));
    assert!(!relative_only.supports(true));
    assert!(!Capabilities::Unavailable.supports(false));
    assert!(!Capabilities::Unavailable.supports(true));
    assert!(Capabilities::NotWayland.supports(false));
}

#[test]
fn registry_takes_note_of_the_two_protocols() {
    let mut data = RegistryData::new();
    data.event(&"wl_compositor".to_string());
    assert_eq!(data, RegistryData { pointer_constraints: false, relative_pointer: false });
    data.event(&"zwp_relative_pointer_manager_v1".to_string());
    assert_eq!(data, RegistryData { pointer_constraints: false, relative_pointer: true });
    data.event(&"zwp_pointer_constraints_v1".to_string());
    assert_eq!(data, RegistryData { pointer_constraints: true, relative_pointer: true });
    data.event(&"zwp_pointer_constraints_v2".to_string());
    assert_eq!(data, RegistryData { pointer_constraints: true, relative_pointer: true });
}

#[test]
fn probe_outcomes_become_capabilities() {
    assert_eq!(query(DisplayProbe::NoHandle), Capabilities::Unavailable);
    assert_eq!(query(DisplayProbe::OtherDisplay), Capabilities::NotWayland);
    assert_eq!(query(DisplayProbe::NoRegistry), Capabilities::Unavailable);
    assert_eq!(query(DisplayProbe::NoRoundtrip), Capabilities::Unavailable);
    let announced = RegistryData { pointer_constraints: true, relative_pointer: false };
    assert_eq!(
        query(DisplayProbe::Answered { announced }),
        Capabilities::Wayland { pointer_constraints: true, relative_pointer: false }
    );
}
