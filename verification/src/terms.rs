//! What the words of the model mean, in terms of what a state holds.
use vstd::prelude::*;
use crate::cursor::locked_window;
use crate::cursor::release_complete;
use crate::cursor::requested_mode;
use crate::cursor::AcceptedCursorGrab;
use crate::cursor::AcceptedCursorGrabMode;
use crate::cursor::PendingPointerUngrab;
use crate::events::CursorEnterLeaveEvent;
use crate::events::FocusedEvent;
use crate::events::MouseButton;
use crate::events::MouseButtonState;
use crate::events::MouseClickEvent;
use crate::events::MouseMotionEvent;
use crate::events::MouseMoveEvent;
use crate::events::MoveEvent;
use crate::events::PageLoadEvent;
use crate::events::ResizeEvent;
use crate::events::WheelDeltaMode;
use crate::events::WheelEvent;
use crate::handlers::EventKind;
use crate::handlers::HandlerTable;
use crate::handlers::Registry;
use crate::model::AppState;
use crate::model::WindowInfo;
use crate::step::DeviceEvent;
use crate::step::Effect;
use crate::step::GrabTarget;
use crate::wayland::Capabilities;
use crate::wayland::DisplayProbe;
use crate::wayland::RegistryData;

verus! {

// ---- Codes ----

/// Five button codes have a name, in the order left, right, middle, back and
/// forward; every other code is kept.
pub proof fn law_button_codes(code: i32)
    ensures
        MouseButton::of_raw(code) == MouseButton::Left <==> code == 0,
        MouseButton::of_raw(code) == MouseButton::Right <==> code == 1,
        MouseButton::of_raw(code) == MouseButton::Middle <==> code == 2,
        MouseButton::of_raw(code) == MouseButton::Back <==> code == 3,
        MouseButton::of_raw(code) == MouseButton::Forward <==> code == 4,
        code < 0 || code > 4 ==> MouseButton::of_raw(code) == MouseButton::Other(code),
{
}

/// Every code but the pressed one means released.
pub proof fn law_button_state_codes(raw: i32)
    ensures
        MouseButtonState::of_raw(raw) == MouseButtonState::Pressed <==> raw == 0,
        MouseButtonState::of_raw(raw) == MouseButtonState::Released <==> raw != 0,
{
}

/// Every code that means neither lines nor pages means pixels.
pub proof fn law_wheel_codes(raw: i32)
    ensures
        WheelDeltaMode::of_raw(raw) == WheelDeltaMode::Line <==> raw == 1,
        WheelDeltaMode::of_raw(raw) == WheelDeltaMode::Page <==> raw == 2,
        WheelDeltaMode::of_raw(raw) == WheelDeltaMode::Pixel <==> raw != 1 && raw != 2,
{
}

/// A run of clicks is completed by letting go of the left button, in any state
/// of everything else.
pub proof fn law_clicks_complete_on_release<C>(event: MouseClickEvent<C>, clicks: int)
    ensures
        event.completes_left_clicks(clicks) <==> event.state != MouseButtonState::Pressed
            && event.button == MouseButton::Left && clicks <= event.click_count,
{
}

/// Two codes ask for a grab, and each for one of its own.
pub proof fn law_grab_codes(code: i32)
    ensures
        requested_mode(code) == Some(AcceptedCursorGrabMode::Confined) <==> code
            == crate::cursor::LAUFEY_CURSOR_GRAB_CONFINED,
        requested_mode(code) == Some(AcceptedCursorGrabMode::Locked) <==> code
            == crate::cursor::LAUFEY_CURSOR_GRAB_LOCKED,
        code == crate::cursor::LAUFEY_CURSOR_GRAB_NONE ==> requested_mode(code) is None,
{
}

// ---- Raw callbacks ----

/// A click carries what the callback said of it, argument by argument.
pub proof fn law_click_arguments<C>(
    window_id: u32,
    state: i32,
    button: i32,
    x: C,
    y: C,
    modifiers: u32,
    click_count: i32,
)
    ensures
        ({
            let event = MouseClickEvent::decoded(
                window_id,
                state,
                button,
                x,
                y,
                modifiers,
                click_count,
            );
            &&& event.window_id == window_id
            &&& event.state == MouseButtonState::Pressed <==> state == 0
            &&& event.button == MouseButton::Left <==> button == 0
            &&& event.button == MouseButton::of_raw(button)
            &&& event.x == x
            &&& event.y == y
            &&& event.modifiers.bits == modifiers
            &&& event.click_count == click_count
        }),
{
}

/// Movement carries what the callback said of it, argument by argument.
pub proof fn law_movement_arguments<C>(window_id: u32, x: C, y: C, modifiers: u32)
    ensures
        ({
            let absolute = MouseMoveEvent::decoded(window_id, x, y, modifiers);
            let relative = MouseMotionEvent::decoded(window_id, x, y, modifiers);
            &&& absolute.window_id == window_id
            &&& absolute.x == x
            &&& absolute.y == y
            &&& absolute.modifiers.bits == modifiers
            &&& relative.window_id == window_id
            &&& relative.delta_x == x
            &&& relative.delta_y == y
            &&& relative.modifiers.bits == modifiers
        }),
{
}

/// A turn of the wheel carries what the callback said of it, argument by argument.
pub proof fn law_wheel_arguments<C>(
    window_id: u32,
    delta_x: C,
    delta_y: C,
    x: C,
    y: C,
    modifiers: u32,
    delta_mode: i32,
)
    ensures
        ({
            let event = WheelEvent::decoded(
                window_id,
                delta_x,
                delta_y,
                x,
                y,
                modifiers,
                delta_mode,
            );
            &&& event.window_id == window_id
            &&& event.delta_x == delta_x
            &&& event.delta_y == delta_y
            &&& event.x == x
            &&& event.y == y
            &&& event.modifiers.bits == modifiers
            &&& event.delta_mode == WheelDeltaMode::Line <==> delta_mode == 1
            &&& event.delta_mode == WheelDeltaMode::Page <==> delta_mode == 2
        }),
{
}

/// The cursor entered, and a window has the focus, exactly if the callback's flag
/// is not zero.  All else is carried as it is.
pub proof fn law_flag_arguments<C>(window_id: u32, flag: i32, x: C, y: C, modifiers: u32)
    ensures
        ({
            let crossing = CursorEnterLeaveEvent::decoded(window_id, flag, x, y, modifiers);
            let focus = FocusedEvent::decoded(window_id, flag);
            &&& crossing.window_id == window_id
            &&& crossing.entered <==> flag != 0
            &&& crossing.x == x
            &&& crossing.y == y
            &&& crossing.modifiers.bits == modifiers
            &&& focus.window_id == window_id
            &&& focus.focused <==> flag != 0
        }),
{
}

/// Sizes, positions and loaded pages are carried as they are.
pub proof fn law_window_arguments(window_id: u32, first: i32, second: i32)
    ensures
        ({
            let resized = ResizeEvent::decoded(window_id, first, second);
            let moved = MoveEvent::decoded(window_id, first, second);
            &&& resized.window_id == window_id
            &&& resized.width == first
            &&& resized.height == second
            &&& moved.window_id == window_id
            &&& moved.x == first
            &&& moved.y == second
            &&& PageLoadEvent::decoded(window_id).window_id == window_id
        }),
{
}

// ---- Displays ----

/// Announcing an interface shows that protocol and takes none away; an interface
/// that is not one of the two changes nothing.
pub proof fn law_announcements(announced: RegistryData, interface: Seq<char>)
    ensures
        interface == "zwp_pointer_constraints_v1"@ ==> announced.told(
            interface,
        ).pointer_constraints,
        interface == "zwp_relative_pointer_manager_v1"@ ==> announced.told(
            interface,
        ).relative_pointer,
        announced.pointer_constraints ==> announced.told(interface).pointer_constraints,
        announced.relative_pointer ==> announced.told(interface).relative_pointer,
        announced.told(interface).pointer_constraints ==> announced.pointer_constraints || interface
            == "zwp_pointer_constraints_v1"@,
        announced.told(interface).relative_pointer ==> announced.relative_pointer || interface
            == "zwp_relative_pointer_manager_v1"@,
{
}

/// A display of another system is not a Wayland one.  A Wayland display that
/// answered allows what it announced.  One that did not answer allows nothing.
pub proof fn law_probe(probe: DisplayProbe, announced: RegistryData)
    ensures
        probe.shows() == Capabilities::NotWayland <==> probe == DisplayProbe::OtherDisplay,
        probe == (DisplayProbe::Answered { announced }) ==> {
            &&& probe.shows().allows(false) <==> announced.pointer_constraints
            &&& probe.shows().allows(true) <==> announced.pointer_constraints
                && announced.relative_pointer
        },
        probe == DisplayProbe::NoHandle || probe == DisplayProbe::NoRegistry || probe
            == DisplayProbe::NoRoundtrip ==> probe.shows() == Capabilities::Unavailable,
{
}

// ---- Grabs ----

/// Only a locked cursor has a window that relative motion goes to.
pub proof fn law_locked_window(grab: Option<AcceptedCursorGrab>, window_id: u32)
    ensures
        locked_window(grab) == Some(window_id) <==> grab == Some(
            AcceptedCursorGrab { window_id, mode: AcceptedCursorGrabMode::Locked },
        ),
{
}

/// A release is complete for a window exactly if it neither holds a grab nor
/// waits for one to be released.
pub proof fn law_release_complete(
    grab: Option<AcceptedCursorGrab>,
    pending: Option<u32>,
    window_id: u32,
)
    ensures
        release_complete(grab, pending, window_id) <==> {
            &&& grab != Some(
                AcceptedCursorGrab { window_id, mode: AcceptedCursorGrabMode::Locked },
            )
            &&& grab != Some(
                AcceptedCursorGrab { window_id, mode: AcceptedCursorGrabMode::Confined },
            )
            &&& pending != Some(window_id)
        },
{
    if let Some(held) = grab {
        assert(held.mode == AcceptedCursorGrabMode::Locked || held.mode
            == AcceptedCursorGrabMode::Confined);
    }
}

/// A display that is not a Wayland one leaves everything to the native call.  A
/// Wayland one allows confining with the one protocol, and locking with both.
/// A display that could not be asked allows nothing.
pub proof fn law_display_allows(known: Capabilities)
    ensures
        known.allows(false) <==> known == Capabilities::NotWayland || known == (
        Capabilities::Wayland { pointer_constraints: true, relative_pointer: false }) || known == (
        Capabilities::Wayland { pointer_constraints: true, relative_pointer: true }),
        known.allows(true) <==> known == Capabilities::NotWayland || known == (
        Capabilities::Wayland { pointer_constraints: true, relative_pointer: true }),
{
}

// ---- The state ----

/// Who holds the grab, who waits for a release, and whether anything is still to
/// be released.
pub proof fn law_holding_and_releasing<C>(state: AppState<C>, window_id: u32)
    ensures
        state.grabs(window_id) <==> state.grab == Some(
            AcceptedCursorGrab { window_id, mode: AcceptedCursorGrabMode::Locked },
        ) || state.grab == Some(
            AcceptedCursorGrab { window_id, mode: AcceptedCursorGrabMode::Confined },
        ),
        state.releasing(window_id) <==> state.pending == Some(
            PendingPointerUngrab { window_id, detached: true },
        ) || state.pending == Some(PendingPointerUngrab { window_id, detached: false }),
        state.pending_window() == Some(window_id) <==> state.releasing(window_id),
        state.outstanding() <==> state.process_ungrab || state.pending is Some,
        state.detached() <==> state.pending is Some && state.pending->0.detached,
{
    if let Some(held) = state.grab {
        assert(held.mode == AcceptedCursorGrabMode::Locked || held.mode
            == AcceptedCursorGrabMode::Confined);
    }
}

/// A pending release is tried on the closed window that is kept for it, or on
/// the open window it is about.
pub proof fn law_retry_target<C>(state: AppState<C>, window_id: u32)
    ensures
        state.retry_target() == Some(GrabTarget::Detached) <==> state.pending is Some
            && state.pending->0.detached,
        state.retry_target() == Some(GrabTarget::Live { window_id }) <==> state.pending == Some(
            PendingPointerUngrab { window_id, detached: false },
        ) && state.windows.contains_key(window_id),
{
}

/// A window may have the grab while it is open, is the focused one, and has the
/// cursor inside.
pub proof fn law_entitlement<C>(state: AppState<C>, window_id: u32)
    ensures
        state.may_grab(window_id) <==> {
            &&& state.windows.contains_key(window_id)
            &&& state.windows[window_id].cursor_inside
            &&& state.focused == Some(window_id)
        },
{
}

/// What a known display allows is known; an unknown one has to be asked, unless
/// there is no window to ask it about.
pub proof fn law_support<C>(state: AppState<C>, window_id: u32, known: Capabilities)
    ensures
        state.capabilities == Some(known) ==> {
            &&& state.support(window_id, AcceptedCursorGrabMode::Locked) == Some(known.allows(true))
            &&& state.support(window_id, AcceptedCursorGrabMode::Confined) == Some(
                known.allows(false),
            )
        },
        state.capabilities is None ==> forall|mode: AcceptedCursorGrabMode| #[trigger]
            state.support(window_id, mode) == (if state.windows.contains_key(window_id) {
                None
            } else {
                Some(false)
            }),
{
}

/// Windows are looked up by their native names, and their modifiers are those
/// last reported.
pub proof fn law_lookup<C>(state: AppState<C>, native_id: u64, window_id: u32)
    ensures
        state.laufey_id(native_id) == Some(window_id) <==> state.native_ids.contains_key(native_id)
            && state.native_ids[native_id] == window_id,
        state.laufey_id(native_id) is None <==> !state.native_ids.contains_key(native_id),
        state.is_open(window_id) <==> state.windows.contains_key(window_id),
        state.windows.contains_key(window_id) ==> state.modifiers(window_id)
            == state.windows[window_id].modifiers,
        !state.windows.contains_key(window_id) ==> state.modifiers(window_id) == 0,
{
}

/// Application-wide operations go to the focused window, to nobody if that one is
/// closed, and to some open window if none has the focus.
pub proof fn law_front_window<C>(state: AppState<C>, window: Option<u32>)
    requires
        state.fronted_by(window),
    ensures
        window matches Some(id) ==> state.windows.contains_key(id),
        window is Some && state.focused is Some ==> state.focused == window,
        window is None && state.focused is Some ==> !state.windows.contains_key(state.focused->0),
        window is None && state.focused is None ==> forall|id: u32|
            !#[trigger] state.windows.contains_key(id),
{
}

/// An application starts out with nothing but what is known of the display.
pub proof fn law_starts_empty<C>(capabilities: Option<Capabilities>)
    ensures
        ({
            let state = AppState::<C>::initial(capabilities);
            &&& forall|window_id: u32| !#[trigger] state.windows.contains_key(window_id)
            &&& forall|native_id: u64| !#[trigger] state.native_ids.contains_key(native_id)
            &&& state.focused is None
            &&& state.grab is None
            &&& state.pending is None
            &&& !state.process_ungrab
            &&& state.motion.len() == 0
            &&& state.capabilities == capabilities
        }),
{
}

/// A new window is found under its names, without modifiers and without the
/// cursor.  All else is as it was.
pub proof fn law_creation_adds_one_window<C>(
    state: AppState<C>,
    window_id: u32,
    native_id: u64,
    other_id: u32,
    other_native: u64,
)
    requires
        other_id != window_id,
        other_native != native_id,
    ensures
        ({
            let now = state.created(window_id, native_id);
            &&& now.windows.contains_key(window_id)
            &&& now.windows[window_id] == WindowInfo {
                native_id,
                modifiers: 0,
                cursor_inside: false,
            }
            &&& now.native_ids.contains_key(native_id)
            &&& now.native_ids[native_id] == window_id
            &&& now.windows.contains_key(other_id) == state.windows.contains_key(other_id)
            &&& now.windows.contains_key(other_id) ==> now.windows[other_id]
                == state.windows[other_id]
            &&& now.native_ids.contains_key(other_native) == state.native_ids.contains_key(
                other_native,
            )
            &&& now.native_ids.contains_key(other_native) ==> now.native_ids[other_native]
                == state.native_ids[other_native]
            &&& now == (AppState {
                windows: now.windows,
                native_ids: now.native_ids,
                ..state
            })
        }),
{
}

// ---- Motion ----

/// A relative step is added to those collected exactly if the cursor is locked
/// to a window that is open, has the focus and has the cursor inside.  Nothing
/// else changes, and no other device event changes anything.
pub proof fn law_device_event<C>(state: AppState<C>, dx: C, dy: C, window_id: u32)
    ensures
        ({
            let now = state.device_event(DeviceEvent::MouseMotion { dx, dy });
            let counts = {
                &&& state.grab == Some(
                    AcceptedCursorGrab { window_id, mode: AcceptedCursorGrabMode::Locked },
                )
                &&& state.focused == Some(window_id)
                &&& state.windows.contains_key(window_id)
                &&& state.windows[window_id].cursor_inside
            };
            &&& counts ==> now.motion == state.motion.push((dx, dy))
            &&& state.focused == Some(window_id) && !counts ==> now.motion == state.motion
            &&& state.focused is None ==> now.motion == state.motion
            &&& now == (AppState { motion: now.motion, ..state })
        }),
        state.device_event(DeviceEvent::Other) == state,
{
}

/// A flush hands out every collected step once, in order, and then says which
/// window they are for and which modifiers are held there.  Without a locked
/// cursor, or without steps, it does nothing.
pub proof fn law_flush<C>(state: AppState<C>, window_id: u32)
    ensures
        ({
            let flush = state.flush_effects();
            let steps = state.motion.len() as int;
            let locked = state.grab == Some(
                AcceptedCursorGrab { window_id, mode: AcceptedCursorGrabMode::Locked },
            );
            &&& locked && steps > 0 ==> {
                &&& flush.len() == steps + 1
                &&& forall|i: int|
                    0 <= i < steps ==> #[trigger] flush[i] == (Effect::<C>::MotionDelta {
                        dx: state.motion[i].0,
                        dy: state.motion[i].1,
                    })
                &&& flush[steps] == (Effect::<C>::DispatchMouseMotion {
                    window_id,
                    modifiers: if state.windows.contains_key(window_id) {
                        state.windows[window_id].modifiers
                    } else {
                        0
                    },
                })
            }
            &&& steps == 0 ==> flush.len() == 0
            &&& state.grab is None ==> flush.len() == 0
            &&& state.grab == Some(
                AcceptedCursorGrab { window_id, mode: AcceptedCursorGrabMode::Confined },
            ) ==> flush.len() == 0
        }),
{
}

// ---- Handlers ----

/// Each kind of event has handlers of its own.
pub proof fn law_tables<H>(registry: Registry<H>, window_id: u32)
    ensures
        registry.has(EventKind::MouseClick, window_id)
            == registry.mouse_click.handlers@.contains_key(window_id),
        registry.has(EventKind::MouseMove, window_id)
            == registry.mouse_move.handlers@.contains_key(window_id),
        registry.has(EventKind::MouseMotion, window_id)
            == registry.mouse_motion.handlers@.contains_key(window_id),
        registry.has(EventKind::Wheel, window_id) == registry.wheel.handlers@.contains_key(
            window_id,
        ),
        registry.has(EventKind::CursorEnterLeave, window_id)
            == registry.cursor_enter_leave.handlers@.contains_key(window_id),
        registry.has(EventKind::Focused, window_id) == registry.focused.handlers@.contains_key(
            window_id,
        ),
        registry.has(EventKind::Resize, window_id) == registry.resize.handlers@.contains_key(
            window_id,
        ),
        registry.has(EventKind::Move, window_id) == registry.moved.handlers@.contains_key(
            window_id,
        ),
        registry.has(EventKind::CloseRequested, window_id)
            == registry.close_requested.handlers@.contains_key(window_id),
        registry.has(EventKind::PageLoad, window_id) == registry.page_load.handlers@.contains_key(
            window_id,
        ),
{
}

/// A callback is to be installed exactly for a kind that is not delivered yet.
pub proof fn law_install<H>(registry: Registry<H>, kind: EventKind)
    ensures
        registry.install(kind) == Some(kind) <==> !registry.table(kind).installed,
        registry.install(kind) is None <==> registry.table(kind).installed,
{
}

/// Registering a handler, and taking one away, concerns this one window; having
/// events delivered concerns none.
pub proof fn law_table_changes<H>(
    table: HandlerTable<H>,
    window_id: u32,
    handler: H,
    other_id: u32,
)
    ensures
        table.registered(window_id, handler).installed,
        table.registered(window_id, handler).handlers == table.handlers.insert(window_id, handler),
        table.unregistered(window_id).installed == table.installed,
        !table.unregistered(window_id).handlers.contains_key(window_id),
        other_id != window_id && table.handlers.contains_key(other_id) ==> {
            &&& table.unregistered(window_id).handlers.contains_key(other_id)
            &&& table.unregistered(window_id).handlers[other_id] == table.handlers[other_id]
        },
        table.ensured().installed,
        table.ensured().handlers == table.handlers,
        !HandlerTable::<H>::empty().installed,
        !HandlerTable::<H>::empty().handlers.contains_key(window_id),
{
}

/// An event is handed to the window's handler of its kind as it is, and to
/// nobody exactly where there is none.
pub proof fn law_event_reaches_its_handler<H, E>(
    registry: Registry<H>,
    kind: EventKind,
    window_id: u32,
    event: E,
    delivery: Option<(&H, E)>,
)
    requires
        registry.delivers(kind, window_id, event, delivery),
    ensures
        registry.table(kind).handlers.contains_key(window_id) ==> delivery == Some(
            (&registry.table(kind).handlers[window_id], event),
        ),
        !registry.table(kind).handlers.contains_key(window_id) ==> delivery is None,
{
}

} // verus!
