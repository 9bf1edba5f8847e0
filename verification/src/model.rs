//! The application as a transition system: what every input and every answer of
//! the host does to the state, and what is asked of the host in return.
use vstd::prelude::*;
use crate::cursor::locked_window;
use crate::cursor::release_complete;
use crate::cursor::requested_mode;
use crate::cursor::AcceptedCursorGrab;
use crate::cursor::AcceptedCursorGrabMode;
use crate::cursor::PendingPointerUngrab;
use crate::cursor::LAUFEY_CURSOR_GRAB_NONE;
use crate::step::AfterForce;
use crate::step::AfterRelease;
use crate::step::CommonEvent;
use crate::step::ControlFlow;
use crate::step::DeviceEvent;
use crate::step::Effect;
use crate::step::GrabTarget;
use crate::step::MotionDispatch;
use crate::step::NativeCall;
use crate::step::NativeGrabMode;
use crate::step::Next;
use crate::step::Resume;
use crate::step::WindowEvent;
use crate::wayland::Capabilities;

verus! {

/// What is known about an open window.
#[derive(Debug, Clone, Copy, PartialEq, Eq, Structural)]
pub struct WindowInfo {
    /// The windowing system's name for the window.
    pub native_id: u64,
    /// The modifier bits that the windowing system last reported.
    pub modifiers: u32,
    pub cursor_inside: bool,
}

/// The state of the application.
#[verifier::ext_equal]
pub struct AppState<C> {
    /// The open windows.
    pub windows: Map<u32, WindowInfo>,
    /// From the windowing system's names back to ours.
    pub native_ids: Map<u64, u32>,
    /// The window that was last focused.
    pub focused: Option<u32>,
    /// The cursor grab that is held.
    pub grab: Option<AcceptedCursorGrab>,
    /// A window grab that is still to be released.
    pub pending: Option<PendingPointerUngrab>,
    /// A process-wide grab, of a window that is gone, is still to be released.
    pub process_ungrab: bool,
    /// Relative motion that has not been dispatched yet.
    pub motion: Seq<(C, C)>,
    /// What the display lets grabs do, once known.
    pub capabilities: Option<Capabilities>,
}

/// Where an input leads to: the new state, what the host does, and what it does
/// after that.
#[verifier::ext_equal]
pub struct Outcome<C> {
    pub state: AppState<C>,
    pub effects: Seq<Effect<C>>,
    pub next: Next,
}

impl<C> Outcome<C> {
    /// Nothing is left to do.
    pub open spec fn done(state: AppState<C>, effects: Seq<Effect<C>>) -> Outcome<C> {
        Outcome { state, effects, next: Next::Done }
    }

    /// A native call is to be answered at `then`.
    pub open spec fn calls(state: AppState<C>, call: NativeCall, then: Resume) -> Outcome<C> {
        Outcome { state, effects: seq![], next: Next::Call { call, then } }
    }

    /// The same, with other effects before.
    pub open spec fn after(self, earlier: Seq<Effect<C>>) -> Outcome<C> {
        Outcome { effects: earlier + self.effects, ..self }
    }

    /// What is observed, with the effects that were collected before and since,
    /// is this outcome.
    pub open spec fn reached(
        self,
        state: AppState<C>,
        before: Seq<Effect<C>>,
        since: Seq<Effect<C>>,
        next: Next,
    ) -> bool {
        &&& state =~= self.state
        &&& since =~= before + self.effects
        &&& next == self.next
    }
}

/// The native mode that brings a window into a grab mode.
pub open spec fn native_mode(mode: AcceptedCursorGrabMode) -> NativeGrabMode {
    match mode {
        AcceptedCursorGrabMode::Confined => NativeGrabMode::Confined,
        AcceptedCursorGrabMode::Locked => NativeGrabMode::Locked,
    }
}

/// Freeing the cursor from a native window.
pub open spec fn ungrab(target: GrabTarget) -> NativeCall {
    NativeCall::SetCursorGrab { target, mode: NativeGrabMode::Free }
}

/// Putting an open window into a grab mode.
pub open spec fn grab_live(window_id: u32, mode: NativeGrabMode) -> NativeCall {
    NativeCall::SetCursorGrab { target: GrabTarget::Live { window_id }, mode }
}

/// One effect per relative step, in the order in which they came.
pub open spec fn motion_deltas<C>(motion: Seq<(C, C)>) -> Seq<Effect<C>> {
    Seq::new(motion.len(), |i: int| Effect::MotionDelta { dx: motion[i].0, dy: motion[i].1 })
}

/// What is dispatched of relative motion that was added up to `delta`: nothing
/// where it comes to zero, and nothing without a backend to dispatch it.
pub open spec fn dispatched_motion<C>(
    window_id: u32,
    modifiers: u32,
    delta: (C, C),
    is_zero: bool,
    attached: bool,
) -> Option<MotionDispatch<C>> {
    if is_zero || !attached {
        None
    } else {
        Some(MotionDispatch { window_id, delta_x: delta.0, delta_y: delta.1, modifiers })
    }
}

// ---- Looking at the state ----

impl<C> AppState<C> {
    /// No window, no grab, nothing to release.
    pub open spec fn initial(capabilities: Option<Capabilities>) -> AppState<C> {
        AppState {
            windows: Map::empty(),
            native_ids: Map::empty(),
            focused: None,
            grab: None,
            pending: None,
            process_ungrab: false,
            motion: seq![],
            capabilities,
        }
    }

    pub open spec fn is_open(self, window_id: u32) -> bool {
        self.windows.contains_key(window_id)
    }

    /// The window holds the grab.
    pub open spec fn grabs(self, window_id: u32) -> bool {
        self.grab matches Some(grab) && grab.window_id == window_id
    }

    /// The window's grab is still to be released.
    pub open spec fn releasing(self, window_id: u32) -> bool {
        self.pending matches Some(pending) && pending.window_id == window_id
    }

    /// The window that waits for its grab to be released.
    pub open spec fn pending_window(self) -> Option<u32> {
        match self.pending {
            Some(pending) => Some(pending.window_id),
            None => None,
        }
    }

    /// The host keeps a closed native window alive.
    pub open spec fn detached(self) -> bool {
        self.pending matches Some(pending) && pending.detached
    }

    /// Some grab is still to be released.
    pub open spec fn outstanding(self) -> bool {
        self.process_ungrab || self.pending is Some
    }

    pub open spec fn laufey_id(self, native_id: u64) -> Option<u32> {
        if self.native_ids.contains_key(native_id) {
            Some(self.native_ids[native_id])
        } else {
            None
        }
    }

    pub open spec fn modifiers(self, window_id: u32) -> u32 {
        if self.is_open(window_id) {
            self.windows[window_id].modifiers
        } else {
            0
        }
    }

    /// The window is the one with the focus, and the cursor is inside it.
    pub open spec fn may_grab(self, window_id: u32) -> bool {
        &&& self.focused == Some(window_id)
        &&& self.is_open(window_id)
        &&& self.windows[window_id].cursor_inside
    }

    /// Application-wide operations go to this window: the focused one if it is
    /// open, or just any open one where none has the focus.
    pub open spec fn fronted_by(self, window: Option<u32>) -> bool {
        match self.focused {
            Some(id) => window == (if self.is_open(id) {
                Some(id)
            } else {
                None
            }),
            None => match window {
                Some(id) => self.is_open(id),
                None => self.windows.is_empty(),
            },
        }
    }

    /// Whether the display lets the window have such a grab, or `None` where it
    /// has to be asked first.
    pub open spec fn support(self, window_id: u32, mode: AcceptedCursorGrabMode) -> Option<bool> {
        match self.capabilities {
            Some(known) => Some(known.allows(mode == AcceptedCursorGrabMode::Locked)),
            None => if self.is_open(window_id) {
                None
            } else {
                Some(false)
            },
        }
    }

    /// The native window that the pending release is tried on.
    pub open spec fn retry_target(self) -> Option<GrabTarget> {
        match self.pending {
            Some(pending) => if pending.detached {
                Some(GrabTarget::Detached)
            } else if self.is_open(pending.window_id) {
                Some(GrabTarget::Live { window_id: pending.window_id })
            } else {
                None
            },
            None => None,
        }
    }

    /// The host lets go of a detached window, if it keeps one.
    pub open spec fn drop_detached(self) -> Seq<Effect<C>> {
        if self.detached() {
            seq![Effect::DropDetached]
        } else {
            seq![]
        }
    }
}

// ---- Small changes ----

impl<C> AppState<C> {
    pub open spec fn without_motion(self) -> AppState<C> {
        AppState { motion: seq![], ..self }
    }

    /// A release that no native window is left for is given up.
    pub open spec fn without_orphan(self) -> AppState<C> {
        AppState {
            pending: if self.retry_target() is Some {
                self.pending
            } else {
                None
            },
            ..self
        }
    }

    pub open spec fn with_info(self, window_id: u32, info: WindowInfo) -> AppState<C> {
        AppState { windows: self.windows.insert(window_id, info), ..self }
    }

    pub open spec fn with_cursor_inside(self, window_id: u32, inside: bool) -> AppState<C> {
        self.with_info(
            window_id,
            WindowInfo { cursor_inside: inside, ..self.windows[window_id] },
        )
    }

    /// The window and its native name are forgotten.
    pub open spec fn without_window(self, window_id: u32) -> AppState<C> {
        AppState {
            windows: self.windows.remove(window_id),
            native_ids: self.native_ids.remove(self.windows[window_id].native_id),
            ..self
        }
    }

    /// A native window has been created.
    pub open spec fn created(self, window_id: u32, native_id: u64) -> AppState<C> {
        AppState {
            windows: self.windows.insert(
                window_id,
                WindowInfo { native_id, modifiers: 0, cursor_inside: false },
            ),
            native_ids: self.native_ids.insert(native_id, window_id),
            ..self
        }
    }

    /// The process-wide release has been tried.
    pub open spec fn process_answered(self, released: bool) -> AppState<C> {
        AppState { process_ungrab: self.process_ungrab && !released, ..self }
    }

    /// The pending release has been tried.
    pub open spec fn pending_answered(self, released: bool) -> AppState<C> {
        AppState {
            pending: if released {
                None
            } else {
                self.pending
            },
            ..self
        }
    }

    /// The cursor reappears over the window that the release was tried on, and
    /// a window that was only kept for its grab goes away with it.
    pub open spec fn pending_effects(self, target: GrabTarget, released: bool) -> Seq<Effect<C>> {
        seq![Effect::SetCursorVisible { target, visible: true }] + (if released {
            self.drop_detached()
        } else {
            seq![]
        })
    }

    /// An open window has been asked to give up the grab: it does not hold it
    /// any more, but if the native release failed it is to be tried again.
    pub open spec fn live_answered(self, window_id: u32, released: bool) -> AppState<C> {
        AppState {
            grab: None,
            pending: if released {
                None
            } else {
                Some(PendingPointerUngrab { window_id, detached: false })
            },
            ..self
        }
    }

    pub open spec fn live_effects(self, window_id: u32) -> Seq<Effect<C>> {
        seq![Effect::SetCursorVisible { target: GrabTarget::Live { window_id }, visible: true }]
            + self.drop_detached()
    }
}

// ---- Relative motion ----

impl<C> AppState<C> {
    /// Relative motion counts only for a locked window that has the focus and
    /// the cursor.
    pub open spec fn device_event(self, event: DeviceEvent<C>) -> AppState<C> {
        match (event, locked_window(self.grab)) {
            (DeviceEvent::MouseMotion { dx, dy }, Some(window_id)) => if self.may_grab(window_id) {
                AppState { motion: self.motion.push((dx, dy)), ..self }
            } else {
                self
            },
            _ => self,
        }
    }

    /// What is dispatched of the motion collected so far: all of it, to the
    /// locked window, or nothing.
    pub open spec fn flush_effects(self) -> Seq<Effect<C>> {
        match locked_window(self.grab) {
            Some(window_id) => if self.motion.len() == 0 {
                seq![]
            } else {
                motion_deltas(self.motion).push(
                    Effect::DispatchMouseMotion {
                        window_id,
                        modifiers: self.modifiers(window_id),
                    },
                )
            },
            None => seq![],
        }
    }
}

// ---- Giving up the grab on request ----

impl<C> AppState<C> {
    pub open spec fn release(self, window_id: u32, then: AfterRelease) -> Outcome<C> {
        let state = self.without_motion();
        if state.process_ungrab {
            Outcome::calls(
                state,
                NativeCall::ReleaseProcessGrab,
                Resume::ReleaseProcess { window_id, then },
            )
        } else {
            state.release_pending(window_id, then)
        }
    }

    pub open spec fn release_process_answered(
        self,
        window_id: u32,
        then: AfterRelease,
        released: bool,
    ) -> Outcome<C> {
        let state = self.process_answered(released);
        if state.process_ungrab {
            state.release_finished(false, then)
        } else {
            state.release_pending(window_id, then)
        }
    }

    pub open spec fn release_pending(self, window_id: u32, then: AfterRelease) -> Outcome<C> {
        if !self.releasing(window_id) {
            self.release_live(window_id, then)
        } else {
            match self.retry_target() {
                Some(target) => Outcome::calls(
                    self,
                    ungrab(target),
                    Resume::ReleasePending { window_id, target, then },
                ),
                None => self.without_orphan().release_live(window_id, then),
            }
        }
    }

    pub open spec fn release_pending_answered(
        self,
        window_id: u32,
        target: GrabTarget,
        then: AfterRelease,
        released: bool,
    ) -> Outcome<C> {
        let state = self.pending_answered(released);
        (if state.releasing(window_id) {
            state.release_finished(false, then)
        } else {
            state.release_live(window_id, then)
        }).after(self.pending_effects(target, released))
    }

    pub open spec fn release_live(self, window_id: u32, then: AfterRelease) -> Outcome<C> {
        if release_complete(self.grab, self.pending_window(), window_id) {
            self.release_finished(self.is_open(window_id), then)
        } else if self.is_open(window_id) {
            Outcome::calls(
                self,
                grab_live(window_id, NativeGrabMode::Free),
                Resume::ReleaseLive { window_id, then },
            )
        } else {
            (AppState { grab: None, ..self }).release_finished(false, then)
        }
    }

    pub open spec fn release_live_answered(
        self,
        window_id: u32,
        then: AfterRelease,
        released: bool,
    ) -> Outcome<C> {
        self.live_answered(window_id, released).release_finished(released, then).after(
            self.live_effects(window_id),
        )
    }

    pub open spec fn release_finished(self, success: bool, then: AfterRelease) -> Outcome<C> {
        match then {
            AfterRelease::Report => self.grab_request_answered(success),
            AfterRelease::Acquire { window_id, mode } => if success {
                self.take_grab(window_id, mode)
            } else {
                self.grab_request_answered(false)
            },
        }
    }

    pub open spec fn grab_request_answered(self, success: bool) -> Outcome<C> {
        Outcome::done(self, seq![Effect::CompleteCursorGrab { success }])
    }
}

// ---- Acquiring a grab ----

impl<C> AppState<C> {
    pub open spec fn set_cursor_grab(self, window_id: u32, mode: i32) -> Outcome<C> {
        if mode == LAUFEY_CURSOR_GRAB_NONE {
            self.release(window_id, AfterRelease::Report)
        } else {
            match requested_mode(mode) {
                Some(requested) => self.acquire(window_id, requested),
                None => self.grab_request_answered(false),
            }
        }
    }

    pub open spec fn acquire(self, window_id: u32, mode: AcceptedCursorGrabMode) -> Outcome<C> {
        if self.process_ungrab {
            Outcome::calls(
                self,
                NativeCall::ReleaseProcessGrab,
                Resume::AcquireProcess { window_id, mode },
            )
        } else {
            self.acquire_pending(window_id, mode)
        }
    }

    pub open spec fn acquire_pending(
        self,
        window_id: u32,
        mode: AcceptedCursorGrabMode,
    ) -> Outcome<C> {
        match self.retry_target() {
            Some(target) => Outcome::calls(
                self,
                ungrab(target),
                Resume::AcquirePending { window_id, mode, target },
            ),
            None => self.without_orphan().acquire_checked(window_id, mode),
        }
    }

    pub open spec fn acquire_pending_answered(
        self,
        window_id: u32,
        mode: AcceptedCursorGrabMode,
        target: GrabTarget,
        released: bool,
    ) -> Outcome<C> {
        self.pending_answered(released).acquire_checked(window_id, mode).after(
            self.pending_effects(target, released),
        )
    }

    /// Refused while anything is still to be released, and for a window without
    /// the focus or the cursor.
    pub open spec fn acquire_checked(
        self,
        window_id: u32,
        mode: AcceptedCursorGrabMode,
    ) -> Outcome<C> {
        if self.outstanding() || !self.may_grab(window_id) {
            self.grab_request_answered(false)
        } else {
            match self.support(window_id, mode) {
                Some(supported) => self.acquire_supported(window_id, mode, supported),
                None => Outcome {
                    state: self,
                    effects: seq![],
                    next: Next::QueryCapabilities { window_id, mode },
                },
            }
        }
    }

    pub open spec fn capabilities_known(
        self,
        window_id: u32,
        mode: AcceptedCursorGrabMode,
        capabilities: Capabilities,
    ) -> Outcome<C> {
        (AppState { capabilities: Some(capabilities), ..self }).acquire_supported(
            window_id,
            mode,
            capabilities.allows(mode == AcceptedCursorGrabMode::Locked),
        )
    }

    /// A grab that is held already is simply confirmed, another one is given up
    /// first.
    pub open spec fn acquire_supported(
        self,
        window_id: u32,
        mode: AcceptedCursorGrabMode,
        supported: bool,
    ) -> Outcome<C> {
        if !supported {
            self.grab_request_answered(false)
        } else {
            match self.grab {
                Some(held) => if held.window_id == window_id && held.mode == mode {
                    self.grab_request_answered(true)
                } else {
                    self.release(held.window_id, AfterRelease::Acquire { window_id, mode })
                },
                None => self.take_grab(window_id, mode),
            }
        }
    }

    pub open spec fn take_grab(self, window_id: u32, mode: AcceptedCursorGrabMode) -> Outcome<C> {
        if self.is_open(window_id) {
            Outcome::calls(
                self,
                grab_live(window_id, native_mode(mode)),
                Resume::AcquireGrab { window_id, mode },
            )
        } else {
            self.grab_request_answered(false)
        }
    }

    /// Where a window cannot be locked, confining it together with raw motion
    /// serves as well.
    pub open spec fn grab_answered(
        self,
        window_id: u32,
        mode: AcceptedCursorGrabMode,
        accepted: bool,
    ) -> Outcome<C> {
        if accepted {
            self.grab_accepted(window_id, mode)
        } else if mode == AcceptedCursorGrabMode::Locked {
            Outcome::calls(
                self,
                grab_live(window_id, NativeGrabMode::Confined),
                Resume::AcquireFallback { window_id },
            )
        } else {
            self.grab_request_answered(false)
        }
    }

    pub open spec fn fallback_answered(self, window_id: u32, accepted: bool) -> Outcome<C> {
        if accepted {
            self.grab_accepted(window_id, AcceptedCursorGrabMode::Locked)
        } else {
            self.grab_request_answered(false)
        }
    }

    /// The cursor stays visible exactly over a confined window.
    pub open spec fn grab_accepted(
        self,
        window_id: u32,
        mode: AcceptedCursorGrabMode,
    ) -> Outcome<C> {
        (AppState {
            grab: Some(AcceptedCursorGrab { window_id, mode }),
            pending: None,
            motion: seq![],
            ..self
        }).grab_request_answered(true).after(
            seq![
                Effect::SetCursorVisible {
                    target: GrabTarget::Live { window_id },
                    visible: mode == AcceptedCursorGrabMode::Confined,
                },
            ] + self.drop_detached(),
        )
    }
}

// ---- Losing the grab ----

impl<C> AppState<C> {
    pub open spec fn force_release(self, window_id: u32, then: AfterForce) -> Outcome<C> {
        if self.grabs(window_id) {
            if self.is_open(window_id) {
                Outcome::calls(
                    self,
                    grab_live(window_id, NativeGrabMode::Free),
                    Resume::ForceLive { window_id, then },
                )
            } else {
                (AppState { grab: None, ..self }).without_motion().forced(then)
            }
        } else if self.releasing(window_id) {
            match self.retry_target() {
                Some(target) => Outcome::calls(
                    self,
                    ungrab(target),
                    Resume::ForcePending { target, then },
                ),
                None => self.without_orphan().without_motion().forced(then),
            }
        } else {
            self.without_motion().forced(then)
        }
    }

    pub open spec fn force_pending_answered(
        self,
        target: GrabTarget,
        then: AfterForce,
        released: bool,
    ) -> Outcome<C> {
        self.pending_answered(released).without_motion().forced(then).after(
            self.pending_effects(target, released),
        )
    }

    pub open spec fn force_live_answered(
        self,
        window_id: u32,
        then: AfterForce,
        released: bool,
    ) -> Outcome<C> {
        self.live_answered(window_id, released).without_motion().forced(then).after(
            self.live_effects(window_id),
        )
    }

    pub open spec fn forced(self, then: AfterForce) -> Outcome<C> {
        match then {
            AfterForce::Suspended => Outcome::done(self, seq![]),
            AfterForce::CursorLeft { window_id, modifiers } => Outcome::done(
                self,
                seq![Effect::DispatchCursorEnterLeave { window_id, entered: false, modifiers }],
            ),
            AfterForce::FocusLost { window_id } => Outcome::done(
                AppState {
                    focused: if self.focused == Some(window_id) {
                        None
                    } else {
                        self.focused
                    },
                    ..self
                },
                seq![Effect::DispatchFocused { window_id, focused: false }],
            ),
            AfterForce::Close { window_id } => self.close_released(window_id),
        }
    }

    pub open spec fn suspended(self) -> Outcome<C> {
        match self.grab {
            Some(grab) => self.force_release(grab.window_id, AfterForce::Suspended),
            None => Outcome::done(self, seq![]),
        }
    }
}

// ---- Closing windows ----

impl<C> AppState<C> {
    pub open spec fn close_window(self, window_id: u32, native_destroyed: bool) -> Outcome<C> {
        if native_destroyed {
            self.destroyed(window_id)
        } else {
            self.force_release(window_id, AfterForce::Close { window_id })
        }
    }

    /// A window that still has a grab to release is kept, hidden, until it is
    /// rid of it.
    pub open spec fn close_released(self, window_id: u32) -> Outcome<C> {
        if !self.is_open(window_id) {
            self.closed()
        } else if self.releasing(window_id) {
            (AppState {
                pending: Some(PendingPointerUngrab { window_id, detached: true }),
                ..self.without_window(window_id)
            }).closed().after(
                seq![Effect::RemoveWindow { window_id }, Effect::DetachWindow { window_id }],
            )
        } else {
            self.without_window(window_id).closed().after(
                seq![Effect::RemoveWindow { window_id }, Effect::DropWindow { window_id }],
            )
        }
    }

    /// A window that the system destroyed takes its grab along; if it had one,
    /// what the grab did to the whole process is undone.
    pub open spec fn destroyed(self, window_id: u32) -> Outcome<C> {
        let had_grab = self.grabs(window_id) || self.releasing(window_id);
        let ungrabbed = AppState {
            grab: if self.grabs(window_id) {
                None
            } else {
                self.grab
            },
            motion: if self.grabs(window_id) {
                seq![]
            } else {
                self.motion
            },
            pending: if self.releasing(window_id) {
                None
            } else {
                self.pending
            },
            ..self
        };
        let dropped = if self.releasing(window_id) {
            self.drop_detached()
        } else {
            seq![]
        };
        let state = if self.is_open(window_id) {
            ungrabbed.without_window(window_id)
        } else {
            ungrabbed
        };
        let removed = if self.is_open(window_id) {
            seq![Effect::RemoveWindow { window_id }, Effect::DropWindow { window_id }]
        } else {
            seq![]
        };
        (if had_grab {
            Outcome::calls(state, NativeCall::ReleaseProcessGrab, Resume::DestroyedProcess).after(
                seq![Effect::ShowAllCursors],
            )
        } else {
            state.closed()
        }).after(dropped + removed)
    }

    pub open spec fn destroyed_process_answered(self, released: bool) -> Outcome<C> {
        (AppState { process_ungrab: !released, ..self }).closed()
    }

    /// The application ends with its last window.
    pub open spec fn closed(self) -> Outcome<C> {
        Outcome::done(
            self,
            if self.windows.is_empty() {
                seq![Effect::Exit]
            } else {
                seq![]
            },
        )
    }

    pub open spec fn close_decided(self, window_id: u32, proceed: bool) -> Outcome<C> {
        if proceed {
            self.close_window(window_id, false)
        } else {
            Outcome::done(self, seq![])
        }
    }
}

// ---- Events ----

/// The value of a 32-bit size as a signed number: sizes beyond its range wrap
/// around.
pub open spec fn signed_size(size: u32) -> int {
    if size <= i32::MAX {
        size as int
    } else {
        size - 0x1_0000_0000
    }
}

impl<C> AppState<C> {
    /// Motion collected so far is dispatched first.  Events of unknown windows
    /// are ignored.
    pub open spec fn window_event(self, native_id: u64, event: WindowEvent<C>) -> Outcome<C> {
        match self.laufey_id(native_id) {
            Some(window_id) => {
                let state = self.without_motion();
                (if state.is_open(window_id) {
                    state.open_window_event(window_id, event)
                } else {
                    Outcome::done(state, seq![])
                }).after(self.flush_effects())
            },
            None => Outcome::done(self, seq![]),
        }
    }

    pub open spec fn open_window_event(
        self,
        window_id: u32,
        event: WindowEvent<C>,
    ) -> Outcome<C> {
        let info = self.windows[window_id];
        let modifiers = info.modifiers;
        let inside = self.with_cursor_inside(window_id, true);
        match event {
            WindowEvent::CloseRequested => Outcome::calls(
                self,
                NativeCall::CloseRequested { window_id },
                Resume::CloseDecision { window_id },
            ),
            WindowEvent::Resized { width, height } => Outcome::done(
                self,
                seq![
                    Effect::StoreSize {
                        window_id,
                        width: signed_size(width) as i32,
                        height: signed_size(height) as i32,
                    },
                    Effect::DispatchResize {
                        window_id,
                        width: signed_size(width) as i32,
                        height: signed_size(height) as i32,
                    },
                ],
            ),
            WindowEvent::Moved { x, y } => Outcome::done(
                self,
                seq![
                    Effect::StorePosition { window_id, x, y },
                    Effect::DispatchMove { window_id, x, y },
                ],
            ),
            WindowEvent::ModifiersChanged { modifiers: reported } => Outcome::done(
                self.with_info(window_id, WindowInfo { modifiers: reported, ..info }),
                seq![],
            ),
            WindowEvent::KeyboardInput => Outcome::done(
                self,
                seq![Effect::DispatchKeyboard { window_id, modifiers }],
            ),
            WindowEvent::CursorMoved { x, y } => Outcome::done(
                inside,
                if locked_window(self.grab) == Some(window_id) {
                    seq![]
                } else {
                    seq![
                        Effect::StoreCursorPosition { window_id, x, y },
                        Effect::DispatchMouseMove { window_id, x, y, modifiers },
                    ]
                },
            ),
            WindowEvent::MouseInput => Outcome::done(
                inside,
                seq![Effect::DispatchMouseClick { window_id, modifiers }],
            ),
            WindowEvent::MouseWheel => Outcome::done(
                self,
                seq![Effect::DispatchWheel { window_id, modifiers }],
            ),
            WindowEvent::CursorEntered => Outcome::done(
                inside,
                seq![Effect::DispatchCursorEnterLeave { window_id, entered: true, modifiers }],
            ),
            WindowEvent::CursorLeft => self.with_cursor_inside(window_id, false).force_release(
                window_id,
                AfterForce::CursorLeft { window_id, modifiers },
            ),
            WindowEvent::Focused { focused } => if focused {
                Outcome::done(
                    AppState { focused: Some(window_id), ..self },
                    seq![Effect::DispatchFocused { window_id, focused: true }],
                )
            } else if self.grabs(window_id) {
                self.force_release(window_id, AfterForce::FocusLost { window_id })
            } else {
                self.forced(AfterForce::FocusLost { window_id })
            },
            WindowEvent::Destroyed => self.close_window(window_id, true).after(
                seq![Effect::DispatchCloseRequested { window_id }],
            ),
            WindowEvent::Unhandled => Outcome::done(self, seq![]),
        }
    }

    /// Motion collected so far is dispatched first.
    pub open spec fn user_event(self, event: CommonEvent) -> Outcome<C> {
        self.without_motion().requested(event).after(self.flush_effects())
    }

    pub open spec fn requested(self, event: CommonEvent) -> Outcome<C> {
        match event {
            CommonEvent::Quit => Outcome::done(self, seq![Effect::Exit]),
            CommonEvent::CreateWindow { window_id } => Outcome::done(
                self,
                seq![Effect::CreateWindow { window_id }],
            ),
            CommonEvent::CloseWindow { window_id } => self.close_window(window_id, false),
            CommonEvent::SetCursorGrab { window_id, mode } => self.set_cursor_grab(
                window_id,
                mode,
            ),
            CommonEvent::UiTask => Outcome::done(self, seq![Effect::RunUiTask]),
            CommonEvent::DockTask => Outcome::done(self, seq![Effect::DrainDock]),
            CommonEvent::TrayTask => Outcome::done(self, seq![Effect::DrainTray]),
            _ => Outcome::done(
                self,
                match event.property_window() {
                    Some(window_id) => if self.is_open(window_id) {
                        seq![Effect::ApplyCommonEvent { window_id }]
                    } else {
                        seq![]
                    },
                    None => seq![],
                },
            ),
        }
    }

    /// Whatever is still to be released is tried again.
    pub open spec fn about_to_wait(self) -> Outcome<C> {
        if self.process_ungrab {
            Outcome::calls(self, NativeCall::ReleaseProcessGrab, Resume::WaitProcess)
        } else {
            self.wait_pending()
        }
    }

    pub open spec fn wait_pending(self) -> Outcome<C> {
        match self.retry_target() {
            Some(target) => Outcome::calls(self, ungrab(target), Resume::WaitPending { target }),
            None => self.without_orphan().wait_finished(),
        }
    }

    pub open spec fn wait_pending_answered(self, target: GrabTarget, released: bool) -> Outcome<C> {
        self.pending_answered(released).wait_finished().after(
            self.pending_effects(target, released),
        )
    }

    /// The loop sleeps until the next event, or not long if something is still
    /// to be released.
    pub open spec fn wait_finished(self) -> Outcome<C> {
        let flow = if self.outstanding() {
            ControlFlow::WaitFor { millis: 50 }
        } else {
            ControlFlow::Wait
        };
        Outcome::done(
            self.without_motion(),
            seq![Effect::SetControlFlow { flow }] + self.flush_effects() + seq![
                Effect::PollMenuEvents,
                Effect::PollTrayEvents,
            ],
        )
    }

    /// The host answered a native call.
    pub open spec fn resume(self, then: Resume, answer: bool) -> Outcome<C> {
        match then {
            Resume::ReleaseProcess { window_id, then } => self.release_process_answered(
                window_id,
                then,
                answer,
            ),
            Resume::ReleasePending { window_id, target, then } => self.release_pending_answered(
                window_id,
                target,
                then,
                answer,
            ),
            Resume::ReleaseLive { window_id, then } => self.release_live_answered(
                window_id,
                then,
                answer,
            ),
            Resume::AcquireProcess { window_id, mode } => self.process_answered(
                answer,
            ).acquire_pending(window_id, mode),
            Resume::AcquirePending { window_id, mode, target } => self.acquire_pending_answered(
                window_id,
                mode,
                target,
                answer,
            ),
            Resume::AcquireGrab { window_id, mode } => self.grab_answered(window_id, mode, answer),
            Resume::AcquireFallback { window_id } => self.fallback_answered(window_id, answer),
            Resume::ForcePending { target, then } => self.force_pending_answered(
                target,
                then,
                answer,
            ),
            Resume::ForceLive { window_id, then } => self.force_live_answered(
                window_id,
                then,
                answer,
            ),
            Resume::CloseDecision { window_id } => self.close_decided(window_id, answer),
            Resume::DestroyedProcess => self.destroyed_process_answered(answer),
            Resume::WaitProcess => self.process_answered(answer).wait_pending(),
            Resume::WaitPending { target } => self.wait_pending_answered(target, answer),
        }
    }
}

} // verus!
