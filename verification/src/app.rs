//! The application: open windows, the keyboard focus, and the one cursor grab.
//!
//! Every method is a transition of the system in [`model`](crate::model).  Native
//! calls are never made here.  A method that depends on one returns what to call
//! and where to go on, and [`App::resume`] goes on with the answer.
use std::collections::HashMap;
use vstd::prelude::*;
use crate::cursor::accepted_cursor_grab_mode;
use crate::cursor::cursor_release_complete;
use crate::cursor::locked_cursor_grab_window;
use crate::cursor::AcceptedCursorGrab;
use crate::cursor::AcceptedCursorGrabMode;
use crate::cursor::PendingPointerUngrab;
use crate::cursor::LAUFEY_CURSOR_GRAB_NONE;
use crate::model::dispatched_motion;
use crate::model::motion_deltas;
use crate::model::signed_size;
use crate::model::AppState;
use crate::model::WindowInfo;
use crate::safety::law_about_to_wait_wf;
use crate::safety::law_capabilities_known_wf;
use crate::safety::law_close_window_wf;
use crate::safety::law_force_release_wf;
use crate::safety::law_resume_wf;
use crate::safety::law_set_cursor_grab_wf;
use crate::safety::law_suspended_wf;
use crate::safety::law_user_event_wf;
use crate::safety::law_window_event_wf;
use crate::step::AfterForce;
use crate::step::AfterRelease;
use crate::step::CommonEvent;
use crate::step::ControlFlow;
use crate::step::DeviceEvent;
use crate::step::Effect;
use crate::step::GrabTarget;
use crate::step::MotionDispatch;
use crate::step::NativeCall;
use crate::step::NativeGrabMode;
use crate::step::Next;
use crate::step::Resume;
use crate::step::Step;
use crate::step::WindowEvent;
use crate::wayland::Capabilities;

verus! {

pub struct App<C> {
    /// What is known about each open window.
    pub windows: HashMap<u32, WindowInfo>,
    /// From the windowing system's names back to ours.
    pub native_ids: HashMap<u64, u32>,
    /// The window that was last focused.
    pub focused_laufey_id: Option<u32>,
    /// The one grab that has been accepted.
    pub cursor_grab: Option<AcceptedCursorGrab>,
    /// A window whose native grab failed to release and must be retried.
    pub pending_pointer_ungrab: Option<PendingPointerUngrab>,
    /// A process-wide grab whose native window was already destroyed.
    pub pending_process_ungrab: bool,
    /// Relative motion since the last dispatch, step by step.
    pub pending_mouse_motion: Vec<(C, C)>,
    /// What the display lets grabs do, once it has been asked.
    pub wayland_cursor_capabilities: Option<Capabilities>,
}

impl<C> View for App<C> {
    type V = AppState<C>;

    open spec fn view(&self) -> AppState<C> {
        AppState {
            windows: self.windows@,
            native_ids: self.native_ids@,
            focused: self.focused_laufey_id,
            grab: self.cursor_grab,
            pending: self.pending_pointer_ungrab,
            process_ungrab: self.pending_process_ungrab,
            motion: self.pending_mouse_motion@,
            capabilities: self.wayland_cursor_capabilities,
        }
    }
}

/// The same bits, read as a signed number.
fn to_signed(size: u32) -> (signed: i32)
    ensures
        signed == signed_size(size),
{
    if size <= 0x7fff_ffff {
        size as i32
    } else {
        (size as i64 - 0x1_0000_0000i64) as i32
    }
}

// ---- Looking at the state ----

impl<C: Copy> App<C> {
    /// `capabilities` is what is known of the display from the start: nothing
    /// where it has to be asked, `NotWayland` where it never has to be.
    pub fn new(capabilities: Option<Capabilities>) -> (app: Self)
        ensures
            app@ == AppState::<C>::initial(capabilities),
            app@.wf(),
    {
        let app = App {
            windows: HashMap::new(),
            native_ids: HashMap::new(),
            focused_laufey_id: None,
            cursor_grab: None,
            pending_pointer_ungrab: None,
            pending_process_ungrab: false,
            pending_mouse_motion: Vec::new(),
            wayland_cursor_capabilities: capabilities,
        };
        assert(app@ =~= AppState::<C>::initial(capabilities));
        app
    }

    /// The window that application-wide operations go to: the focused one, or
    /// just any open one where none has the focus.
    pub fn focused_window(&self) -> (window: Option<u32>)
        ensures
            self@.fronted_by(window),
            self@.focused matches Some(id) ==> window == (if self@.is_open(id) {
                Some(id)
            } else {
                None
            }),
            self@.focused is None ==> match window {
                Some(id) => self@.is_open(id),
                None => self@.windows.is_empty(),
            },
    {
        let id = match self.focused_laufey_id {
            Some(id) => id,
            None => match self.any_window() {
                Some(id) => id,
                None => {
                    return None;
                },
            },
        };
        if self.windows.contains_key(&id) {
            Some(id)
        } else {
            None
        }
    }

    /// The first open window that a walk over them comes to.
    fn any_window(&self) -> (window: Option<u32>)
        ensures
            match window {
                Some(id) => self@.is_open(id),
                None => self@.windows.is_empty(),
            },
    {
        for id in open: self.windows.keys()
            invariant
                open.index() == 0,
        {
            assert(open.seq().unref().to_set().contains(*id));
            return Some(*id);
        }
        None
    }

    pub fn laufey_id(&self, native_id: u64) -> (window: Option<u32>)
        ensures
            window == self@.laufey_id(native_id),
    {
        match self.native_ids.get(&native_id) {
            Some(window_id) => Some(*window_id),
            None => None,
        }
    }

    /// Whether the display lets the window have such a grab, or `None` where it
    /// has to be asked first.
    pub fn supports_cursor_grab_mode(
        &self,
        window_id: u32,
        mode: AcceptedCursorGrabMode,
    ) -> (supported: Option<bool>)
        ensures
            supported == self@.support(window_id, mode),
    {
        match self.wayland_cursor_capabilities {
            Some(capabilities) => Some(
                capabilities.supports(mode == AcceptedCursorGrabMode::Locked),
            ),
            None => if self.windows.contains_key(&window_id) {
                None
            } else {
                Some(false)
            },
        }
    }

    fn grabs(&self, window_id: u32) -> (held: bool)
        ensures
            held == self@.grabs(window_id),
    {
        match self.cursor_grab {
            Some(grab) => grab.window_id == window_id,
            None => false,
        }
    }

    fn releasing(&self, window_id: u32) -> (pending: bool)
        ensures
            pending == self@.releasing(window_id),
    {
        match self.pending_pointer_ungrab {
            Some(pending) => pending.window_id == window_id,
            None => false,
        }
    }

    fn may_grab(&self, window_id: u32) -> (allowed: bool)
        ensures
            allowed == self@.may_grab(window_id),
    {
        let focused = match self.focused_laufey_id {
            Some(id) => id == window_id,
            None => false,
        };
        let inside = match self.windows.get(&window_id) {
            Some(info) => info.cursor_inside,
            None => false,
        };
        focused && inside
    }

    fn modifiers(&self, window_id: u32) -> (modifiers: u32)
        ensures
            modifiers == self@.modifiers(window_id),
    {
        match self.windows.get(&window_id) {
            Some(info) => info.modifiers,
            None => 0,
        }
    }
}

// ---- Small changes ----

impl<C: Copy> App<C> {
    fn forget_motion(&mut self)
        ensures
            final(self)@ == old(self)@.without_motion(),
    {
        self.pending_mouse_motion = Vec::new();
        assert(self@ =~= old(self)@.without_motion());
    }

    fn set_cursor_inside(&mut self, window_id: u32, inside: bool)
        requires
            old(self)@.is_open(window_id),
        ensures
            final(self)@ == old(self)@.with_cursor_inside(window_id, inside),
    {
        if let Some(known) = self.windows.get(&window_id) {
            let info = WindowInfo { cursor_inside: inside, ..*known };
            self.windows.insert(window_id, info);
        }
        assert(self@ =~= old(self)@.with_cursor_inside(window_id, inside));
    }

    fn forget_window(&mut self, window_id: u32)
        requires
            old(self)@.is_open(window_id),
        ensures
            final(self)@ == old(self)@.without_window(window_id),
    {
        if let Some(info) = self.windows.remove(&window_id) {
            self.native_ids.remove(&info.native_id);
        }
        assert(self@ =~= old(self)@.without_window(window_id));
    }

    /// The host has created a native window.
    pub fn create_window(&mut self, window_id: u32, native_id: u64)
        ensures
            final(self)@ == old(self)@.created(window_id, native_id),
            old(self)@.wf() ==> final(self)@.wf(),
    {
        self.native_ids.insert(native_id, window_id);
        self.windows.insert(
            window_id,
            WindowInfo { native_id, modifiers: 0, cursor_inside: false },
        );
        assert(self@ =~= old(self)@.created(window_id, native_id));
    }

    fn drop_detached(&self, effects: &mut Vec<Effect<C>>)
        ensures
            final(effects)@ == old(effects)@ + self@.drop_detached(),
    {
        if let Some(pending) = self.pending_pointer_ungrab {
            if pending.detached {
                effects.push(Effect::DropDetached);
            }
        }
    }

    /// The native window that the pending release is to be tried on.  A release
    /// that no native window is left for is given up.
    fn retry_pointer_ungrab(&mut self) -> (target: Option<GrabTarget>)
        ensures
            target == old(self)@.retry_target(),
            final(self)@ == old(self)@.without_orphan(),
    {
        match self.pending_pointer_ungrab {
            Some(pending) => if pending.detached {
                Some(GrabTarget::Detached)
            } else if self.windows.contains_key(&pending.window_id) {
                Some(GrabTarget::Live { window_id: pending.window_id })
            } else {
                self.pending_pointer_ungrab = None;
                None
            },
            None => None,
        }
    }

    fn pointer_ungrab_answered(
        &mut self,
        effects: &mut Vec<Effect<C>>,
        target: GrabTarget,
        released: bool,
    )
        ensures
            final(self)@ == old(self)@.pending_answered(released),
            final(effects)@ == old(effects)@ + old(self)@.pending_effects(target, released),
    {
        effects.push(Effect::SetCursorVisible { target, visible: true });
        if released {
            self.drop_detached(effects);
            self.pending_pointer_ungrab = None;
        }
        assert(effects@ =~= old(effects)@ + old(self)@.pending_effects(target, released));
    }

    fn live_ungrab_answered(
        &mut self,
        effects: &mut Vec<Effect<C>>,
        window_id: u32,
        released: bool,
    )
        ensures
            final(self)@ == old(self)@.live_answered(window_id, released),
            final(effects)@ == old(effects)@ + old(self)@.live_effects(window_id),
    {
        effects.push(
            Effect::SetCursorVisible { target: GrabTarget::Live { window_id }, visible: true },
        );
        self.drop_detached(effects);
        if released {
            self.pending_pointer_ungrab = None;
        } else {
            self.pending_pointer_ungrab = Some(PendingPointerUngrab { window_id, detached: false });
        }
        self.cursor_grab = None;
        assert(effects@ =~= old(effects)@ + old(self)@.live_effects(window_id));
    }

    fn process_ungrab_answered(&mut self, released: bool)
        ensures
            final(self)@ == old(self)@.process_answered(released),
    {
        if self.pending_process_ungrab && released {
            self.pending_process_ungrab = false;
        }
    }
}

// ---- Relative motion ----

/// Decides what the host dispatches when it has added up the steps of a flush.
/// Only the host can add up and compare coordinates: `is_zero` says whether
/// `delta` is zero, `attached` whether there is a backend to dispatch to.
pub fn motion_dispatch<C>(
    window_id: u32,
    modifiers: u32,
    delta: (C, C),
    is_zero: bool,
    attached: bool,
) -> (dispatch: Option<MotionDispatch<C>>)
    ensures
        dispatch == dispatched_motion(window_id, modifiers, delta, is_zero, attached),
{
    if is_zero {
        return None;
    }
    if !attached {
        return None;
    }
    Some(MotionDispatch { window_id, delta_x: delta.0, delta_y: delta.1, modifiers })
}

impl<C: Copy> App<C> {
    pub fn device_event(&mut self, event: DeviceEvent<C>)
        ensures
            final(self)@ == old(self)@.device_event(event),
            old(self)@.wf() ==> final(self)@.wf(),
    {
        if let DeviceEvent::MouseMotion { dx, dy } = event {
            if let Some(window_id) = locked_cursor_grab_window(self.cursor_grab) {
                if self.may_grab(window_id) {
                    self.pending_mouse_motion.push((dx, dy));
                }
            }
        }
        assert(self@ =~= old(self)@.device_event(event));
    }

    /// Hands the motion collected so far to the locked window, if there is one,
    /// and starts over.
    pub fn flush_mouse_motion(&mut self, effects: &mut Vec<Effect<C>>)
        ensures
            final(self)@ == old(self)@.without_motion(),
            final(effects)@ == old(effects)@ + old(self)@.flush_effects(),
            old(self)@.wf() ==> final(self)@.wf(),
    {
        if let Some(window_id) = locked_cursor_grab_window(self.cursor_grab) {
            let steps = self.pending_mouse_motion.len();
            if steps > 0 {
                let mut i: usize = 0;
                while i < steps
                    invariant
                        i <= steps,
                        steps == self.pending_mouse_motion@.len(),
                        effects@ =~= old(effects)@ + motion_deltas(self@.motion).take(i as int),
                    decreases steps - i,
                {
                    let (dx, dy) = self.pending_mouse_motion[i];
                    effects.push(Effect::MotionDelta { dx, dy });
                    i = i + 1;
                }
                let modifiers = self.modifiers(window_id);
                effects.push(Effect::DispatchMouseMotion { window_id, modifiers });
            }
        }
        assert(effects@ =~= old(effects)@ + self@.flush_effects());
        self.forget_motion();
    }
}

// ---- Giving up the grab on request ----

impl<C: Copy> App<C> {
    fn release_cursor_grab(
        &mut self,
        effects: &mut Vec<Effect<C>>,
        window_id: u32,
        then: AfterRelease,
    ) -> (next: Next)
        ensures
            old(self)@.release(window_id, then).reached(
                final(self)@,
                old(effects)@,
                final(effects)@,
                next,
            ),
    {
        self.forget_motion();
        if self.pending_process_ungrab {
            Next::Call {
                call: NativeCall::ReleaseProcessGrab,
                then: Resume::ReleaseProcess { window_id, then },
            }
        } else {
            self.release_pending(effects, window_id, then)
        }
    }

    fn release_pending(
        &mut self,
        effects: &mut Vec<Effect<C>>,
        window_id: u32,
        then: AfterRelease,
    ) -> (next: Next)
        ensures
            old(self)@.release_pending(window_id, then).reached(
                final(self)@,
                old(effects)@,
                final(effects)@,
                next,
            ),
    {
        if self.releasing(window_id) {
            if let Some(target) = self.retry_pointer_ungrab() {
                return Next::Call {
                    call: NativeCall::SetCursorGrab { target, mode: NativeGrabMode::Free },
                    then: Resume::ReleasePending { window_id, target, then },
                };
            }
        }
        self.release_live(effects, window_id, then)
    }

    fn release_live(
        &mut self,
        effects: &mut Vec<Effect<C>>,
        window_id: u32,
        then: AfterRelease,
    ) -> (next: Next)
        ensures
            old(self)@.release_live(window_id, then).reached(
                final(self)@,
                old(effects)@,
                final(effects)@,
                next,
            ),
    {
        let pending_window = match self.pending_pointer_ungrab {
            Some(pending) => Some(pending.window_id),
            None => None,
        };
        let open = self.windows.contains_key(&window_id);
        if cursor_release_complete(self.cursor_grab, pending_window, window_id) {
            return self.release_finished(effects, open, then);
        }
        if !open {
            self.cursor_grab = None;
            return self.release_finished(effects, false, then);
        }
        Next::Call {
            call: NativeCall::SetCursorGrab {
                target: GrabTarget::Live { window_id },
                mode: NativeGrabMode::Free,
            },
            then: Resume::ReleaseLive { window_id, then },
        }
    }

    fn release_finished(
        &mut self,
        effects: &mut Vec<Effect<C>>,
        success: bool,
        then: AfterRelease,
    ) -> (next: Next)
        ensures
            old(self)@.release_finished(success, then).reached(
                final(self)@,
                old(effects)@,
                final(effects)@,
                next,
            ),
    {
        match then {
            AfterRelease::Report => {
                effects.push(Effect::CompleteCursorGrab { success });
                Next::Done
            },
            AfterRelease::Acquire { window_id, mode } => if success {
                self.take_grab(effects, window_id, mode)
            } else {
                effects.push(Effect::CompleteCursorGrab { success: false });
                Next::Done
            },
        }
    }
}

// ---- Acquiring a grab ----

impl<C: Copy> App<C> {
    /// Deals with a request to change the cursor grab: the answer to the
    /// requester is among the effects of the step that finishes it.
    pub fn set_cursor_grab(
        &mut self,
        effects: &mut Vec<Effect<C>>,
        window_id: u32,
        mode: i32,
    ) -> (next: Next)
        ensures
            old(self)@.set_cursor_grab(window_id, mode).reached(
                final(self)@,
                old(effects)@,
                final(effects)@,
                next,
            ),
            old(self)@.wf() ==> final(self)@.wf() && final(self)@.ready(next),
    {
        proof {
            if old(self)@.wf() {
                law_set_cursor_grab_wf(old(self)@, window_id, mode);
            }
        }
        if mode == LAUFEY_CURSOR_GRAB_NONE {
            return self.release_cursor_grab(effects, window_id, AfterRelease::Report);
        }
        match accepted_cursor_grab_mode(mode) {
            Some(requested) => if self.pending_process_ungrab {
                Next::Call {
                    call: NativeCall::ReleaseProcessGrab,
                    then: Resume::AcquireProcess { window_id, mode: requested },
                }
            } else {
                self.acquire_pending(effects, window_id, requested)
            },
            None => {
                effects.push(Effect::CompleteCursorGrab { success: false });
                Next::Done
            },
        }
    }

    fn acquire_pending(
        &mut self,
        effects: &mut Vec<Effect<C>>,
        window_id: u32,
        mode: AcceptedCursorGrabMode,
    ) -> (next: Next)
        ensures
            old(self)@.acquire_pending(window_id, mode).reached(
                final(self)@,
                old(effects)@,
                final(effects)@,
                next,
            ),
    {
        match self.retry_pointer_ungrab() {
            Some(target) => Next::Call {
                call: NativeCall::SetCursorGrab { target, mode: NativeGrabMode::Free },
                then: Resume::AcquirePending { window_id, mode, target },
            },
            None => self.acquire_checked(effects, window_id, mode),
        }
    }

    fn acquire_checked(
        &mut self,
        effects: &mut Vec<Effect<C>>,
        window_id: u32,
        mode: AcceptedCursorGrabMode,
    ) -> (next: Next)
        ensures
            old(self)@.acquire_checked(window_id, mode).reached(
                final(self)@,
                old(effects)@,
                final(effects)@,
                next,
            ),
    {
        if self.pending_process_ungrab || self.pending_pointer_ungrab.is_some() || !self.may_grab(
            window_id,
        ) {
            effects.push(Effect::CompleteCursorGrab { success: false });
            return Next::Done;
        }
        match self.supports_cursor_grab_mode(window_id, mode) {
            Some(supported) => self.acquire_supported(effects, window_id, mode, supported),
            None => Next::QueryCapabilities { window_id, mode },
        }
    }

    fn acquire_supported(
        &mut self,
        effects: &mut Vec<Effect<C>>,
        window_id: u32,
        mode: AcceptedCursorGrabMode,
        supported: bool,
    ) -> (next: Next)
        ensures
            old(self)@.acquire_supported(window_id, mode, supported).reached(
                final(self)@,
                old(effects)@,
                final(effects)@,
                next,
            ),
    {
        if !supported {
            effects.push(Effect::CompleteCursorGrab { success: false });
            return Next::Done;
        }
        match self.cursor_grab {
            Some(held) => if held.window_id == window_id && held.mode == mode {
                effects.push(Effect::CompleteCursorGrab { success: true });
                Next::Done
            } else {
                self.release_cursor_grab(
                    effects,
                    held.window_id,
                    AfterRelease::Acquire { window_id, mode },
                )
            },
            None => self.take_grab(effects, window_id, mode),
        }
    }

    fn take_grab(
        &mut self,
        effects: &mut Vec<Effect<C>>,
        window_id: u32,
        mode: AcceptedCursorGrabMode,
    ) -> (next: Next)
        ensures
            old(self)@.take_grab(window_id, mode).reached(
                final(self)@,
                old(effects)@,
                final(effects)@,
                next,
            ),
    {
        if !self.windows.contains_key(&window_id) {
            effects.push(Effect::CompleteCursorGrab { success: false });
            return Next::Done;
        }
        let native = match mode {
            AcceptedCursorGrabMode::Confined => NativeGrabMode::Confined,
            AcceptedCursorGrabMode::Locked => NativeGrabMode::Locked,
        };
        Next::Call {
            call: NativeCall::SetCursorGrab {
                target: GrabTarget::Live { window_id },
                mode: native,
            },
            then: Resume::AcquireGrab { window_id, mode },
        }
    }

    fn grab_answered(
        &mut self,
        effects: &mut Vec<Effect<C>>,
        window_id: u32,
        mode: AcceptedCursorGrabMode,
        accepted: bool,
    ) -> (next: Next)
        ensures
            old(self)@.grab_answered(window_id, mode, accepted).reached(
                final(self)@,
                old(effects)@,
                final(effects)@,
                next,
            ),
    {
        if accepted {
            return self.grab_accepted(effects, window_id, mode);
        }
        match mode {
            AcceptedCursorGrabMode::Locked => Next::Call {
                call: NativeCall::SetCursorGrab {
                    target: GrabTarget::Live { window_id },
                    mode: NativeGrabMode::Confined,
                },
                then: Resume::AcquireFallback { window_id },
            },
            AcceptedCursorGrabMode::Confined => {
                effects.push(Effect::CompleteCursorGrab { success: false });
                Next::Done
            },
        }
    }

    fn fallback_answered(
        &mut self,
        effects: &mut Vec<Effect<C>>,
        window_id: u32,
        accepted: bool,
    ) -> (next: Next)
        ensures
            old(self)@.fallback_answered(window_id, accepted).reached(
                final(self)@,
                old(effects)@,
                final(effects)@,
                next,
            ),
    {
        if accepted {
            self.grab_accepted(effects, window_id, AcceptedCursorGrabMode::Locked)
        } else {
            effects.push(Effect::CompleteCursorGrab { success: false });
            Next::Done
        }
    }

    fn grab_accepted(
        &mut self,
        effects: &mut Vec<Effect<C>>,
        window_id: u32,
        mode: AcceptedCursorGrabMode,
    ) -> (next: Next)
        ensures
            old(self)@.grab_accepted(window_id, mode).reached(
                final(self)@,
                old(effects)@,
                final(effects)@,
                next,
            ),
    {
        effects.push(
            Effect::SetCursorVisible {
                target: GrabTarget::Live { window_id },
                visible: mode == AcceptedCursorGrabMode::Confined,
            },
        );
        self.drop_detached(effects);
        self.cursor_grab = Some(AcceptedCursorGrab { window_id, mode });
        self.pending_pointer_ungrab = None;
        self.forget_motion();
        effects.push(Effect::CompleteCursorGrab { success: true });
        Next::Done
    }
}

// ---- Losing the grab ----

impl<C: Copy> App<C> {
    /// Takes the grab away from the window, if it has one, and goes on with
    /// `then`.
    pub fn force_release_cursor_grab(
        &mut self,
        effects: &mut Vec<Effect<C>>,
        window_id: u32,
        then: AfterForce,
    ) -> (next: Next)
        ensures
            old(self)@.force_release(window_id, then).reached(
                final(self)@,
                old(effects)@,
                final(effects)@,
                next,
            ),
            old(self)@.wf() && old(self)@.forces(window_id, then) ==> final(self)@.wf(),
            old(self)@.wf() && old(self)@.forces(window_id, then) ==> final(self)@.ready(next),
    {
        proof {
            if old(self)@.wf() && old(self)@.forces(window_id, then) {
                law_force_release_wf(old(self)@, window_id, then);
            }
        }
        if self.grabs(window_id) {
            if self.windows.contains_key(&window_id) {
                return Next::Call {
                    call: NativeCall::SetCursorGrab {
                        target: GrabTarget::Live { window_id },
                        mode: NativeGrabMode::Free,
                    },
                    then: Resume::ForceLive { window_id, then },
                };
            }
            self.cursor_grab = None;
        } else if self.releasing(window_id) {
            if let Some(target) = self.retry_pointer_ungrab() {
                return Next::Call {
                    call: NativeCall::SetCursorGrab { target, mode: NativeGrabMode::Free },
                    then: Resume::ForcePending { target, then },
                };
            }
        }
        self.forget_motion();
        self.forced(effects, then)
    }

    fn forced(&mut self, effects: &mut Vec<Effect<C>>, then: AfterForce) -> (next: Next)
        ensures
            old(self)@.forced(then).reached(
                final(self)@,
                old(effects)@,
                final(effects)@,
                next,
            ),
    {
        match then {
            AfterForce::Suspended => {},
            AfterForce::CursorLeft { window_id, modifiers } => {
                effects.push(
                    Effect::DispatchCursorEnterLeave { window_id, entered: false, modifiers },
                );
            },
            AfterForce::FocusLost { window_id } => {
                if self.focused_laufey_id == Some(window_id) {
                    self.focused_laufey_id = None;
                }
                effects.push(Effect::DispatchFocused { window_id, focused: false });
            },
            AfterForce::Close { window_id } => {
                self.close_released(effects, window_id);
            },
        }
        Next::Done
    }

    /// The application is suspended: no grab survives that.
    pub fn suspended(&mut self) -> (step: Step<C>)
        ensures
            old(self)@.suspended().reached(final(self)@, seq![], step.effects@, step.next),
            old(self)@.wf() ==> final(self)@.wf() && final(self)@.ready(step.next),
    {
        proof {
            if old(self)@.wf() {
                law_suspended_wf(old(self)@);
            }
        }
        let mut effects: Vec<Effect<C>> = Vec::new();
        let next = match self.cursor_grab {
            Some(grab) => self.force_release_cursor_grab(
                &mut effects,
                grab.window_id,
                AfterForce::Suspended,
            ),
            None => Next::Done,
        };
        Step { effects, next }
    }
}

// ---- Closing windows ----

impl<C: Copy> App<C> {
    /// Closes a window, or takes note that the system destroyed it.
    pub fn close_window(
        &mut self,
        effects: &mut Vec<Effect<C>>,
        window_id: u32,
        native_destroyed: bool,
    ) -> (next: Next)
        ensures
            old(self)@.close_window(window_id, native_destroyed).reached(
                final(self)@,
                old(effects)@,
                final(effects)@,
                next,
            ),
            old(self)@.wf() ==> final(self)@.wf() && final(self)@.ready(next),
    {
        proof {
            if old(self)@.wf() {
                law_close_window_wf(old(self)@, window_id, native_destroyed);
            }
        }
        if native_destroyed {
            self.destroyed(effects, window_id)
        } else {
            self.force_release_cursor_grab(effects, window_id, AfterForce::Close { window_id })
        }
    }

    fn close_released(&mut self, effects: &mut Vec<Effect<C>>, window_id: u32)
        ensures
            old(self)@.close_released(window_id).reached(
                final(self)@,
                old(effects)@,
                final(effects)@,
                Next::Done,
            ),
    {
        if self.windows.contains_key(&window_id) {
            self.forget_window(window_id);
            effects.push(Effect::RemoveWindow { window_id });
            if self.releasing(window_id) {
                effects.push(Effect::DetachWindow { window_id });
                self.pending_pointer_ungrab = Some(
                    PendingPointerUngrab { window_id, detached: true },
                );
            } else {
                effects.push(Effect::DropWindow { window_id });
            }
        }
        self.closed(effects);
    }

    fn destroyed(&mut self, effects: &mut Vec<Effect<C>>, window_id: u32) -> (next: Next)
        ensures
            old(self)@.destroyed(window_id).reached(
                final(self)@,
                old(effects)@,
                final(effects)@,
                next,
            ),
    {
        let had_grab = self.grabs(window_id) || self.releasing(window_id);
        if self.grabs(window_id) {
            self.cursor_grab = None;
            self.forget_motion();
        }
        if self.releasing(window_id) {
            self.drop_detached(effects);
            self.pending_pointer_ungrab = None;
        }
        if self.windows.contains_key(&window_id) {
            self.forget_window(window_id);
            effects.push(Effect::RemoveWindow { window_id });
            effects.push(Effect::DropWindow { window_id });
        }
        if had_grab {
            effects.push(Effect::ShowAllCursors);
            Next::Call { call: NativeCall::ReleaseProcessGrab, then: Resume::DestroyedProcess }
        } else {
            self.closed(effects);
            Next::Done
        }
    }

    fn closed(&mut self, effects: &mut Vec<Effect<C>>)
        ensures
            old(self)@.closed().reached(
                final(self)@,
                old(effects)@,
                final(effects)@,
                Next::Done,
            ),
    {
        if self.windows.is_empty() {
            effects.push(Effect::Exit);
        }
    }
}

// ---- Events ----

impl<C: Copy> App<C> {
    /// Something happened to a native window.
    pub fn window_event(&mut self, native_id: u64, event: WindowEvent<C>) -> (step: Step<C>)
        ensures
            old(self)@.window_event(native_id, event).reached(
                final(self)@,
                seq![],
                step.effects@,
                step.next,
            ),
            old(self)@.wf() ==> final(self)@.wf() && final(self)@.ready(step.next),
    {
        proof {
            if old(self)@.wf() {
                law_window_event_wf(old(self)@, native_id, event);
            }
        }
        let mut effects: Vec<Effect<C>> = Vec::new();
        let next = match self.laufey_id(native_id) {
            Some(window_id) => {
                self.flush_mouse_motion(&mut effects);
                if self.windows.contains_key(&window_id) {
                    self.open_window_event(&mut effects, window_id, event)
                } else {
                    Next::Done
                }
            },
            None => Next::Done,
        };
        Step { effects, next }
    }

    fn open_window_event(
        &mut self,
        effects: &mut Vec<Effect<C>>,
        window_id: u32,
        event: WindowEvent<C>,
    ) -> (next: Next)
        requires
            old(self)@.is_open(window_id),
        ensures
            old(self)@.open_window_event(window_id, event).reached(
                final(self)@,
                old(effects)@,
                final(effects)@,
                next,
            ),
    {
        let modifiers = self.modifiers(window_id);
        match event {
            WindowEvent::CloseRequested => {
                return Next::Call {
                    call: NativeCall::CloseRequested { window_id },
                    then: Resume::CloseDecision { window_id },
                };
            },
            WindowEvent::Resized { width, height } => {
                let width = to_signed(width);
                let height = to_signed(height);
                effects.push(Effect::StoreSize { window_id, width, height });
                effects.push(Effect::DispatchResize { window_id, width, height });
            },
            WindowEvent::Moved { x, y } => {
                effects.push(Effect::StorePosition { window_id, x, y });
                effects.push(Effect::DispatchMove { window_id, x, y });
            },
            WindowEvent::ModifiersChanged { modifiers: reported } => {
                if let Some(known) = self.windows.get(&window_id) {
                    let info = WindowInfo { modifiers: reported, ..*known };
                    self.windows.insert(window_id, info);
                }
            },
            WindowEvent::KeyboardInput => {
                effects.push(Effect::DispatchKeyboard { window_id, modifiers });
            },
            WindowEvent::CursorMoved { x, y } => {
                self.set_cursor_inside(window_id, true);
                if locked_cursor_grab_window(self.cursor_grab) != Some(window_id) {
                    effects.push(Effect::StoreCursorPosition { window_id, x, y });
                    effects.push(Effect::DispatchMouseMove { window_id, x, y, modifiers });
                }
            },
            WindowEvent::MouseInput => {
                self.set_cursor_inside(window_id, true);
                effects.push(Effect::DispatchMouseClick { window_id, modifiers });
            },
            WindowEvent::MouseWheel => {
                effects.push(Effect::DispatchWheel { window_id, modifiers });
            },
            WindowEvent::CursorEntered => {
                self.set_cursor_inside(window_id, true);
                effects.push(
                    Effect::DispatchCursorEnterLeave { window_id, entered: true, modifiers },
                );
            },
            WindowEvent::CursorLeft => {
                self.set_cursor_inside(window_id, false);
                return self.force_release_cursor_grab(
                    effects,
                    window_id,
                    AfterForce::CursorLeft { window_id, modifiers },
                );
            },
            WindowEvent::Focused { focused } => {
                if focused {
                    self.focused_laufey_id = Some(window_id);
                    effects.push(Effect::DispatchFocused { window_id, focused: true });
                } else if self.grabs(window_id) {
                    return self.force_release_cursor_grab(
                        effects,
                        window_id,
                        AfterForce::FocusLost { window_id },
                    );
                } else {
                    return self.forced(effects, AfterForce::FocusLost { window_id });
                }
            },
            WindowEvent::Destroyed => {
                effects.push(Effect::DispatchCloseRequested { window_id });
                return self.close_window(effects, window_id, true);
            },
            WindowEvent::Unhandled => {},
        }
        Next::Done
    }

    /// The runtime asked for something.
    pub fn user_event(&mut self, event: CommonEvent) -> (step: Step<C>)
        ensures
            old(self)@.user_event(event).reached(
                final(self)@,
                seq![],
                step.effects@,
                step.next,
            ),
            old(self)@.wf() ==> final(self)@.wf() && final(self)@.ready(step.next),
    {
        proof {
            if old(self)@.wf() {
                law_user_event_wf(old(self)@, event);
            }
        }
        let mut effects: Vec<Effect<C>> = Vec::new();
        self.flush_mouse_motion(&mut effects);
        let next = self.requested(&mut effects, event);
        Step { effects, next }
    }

    fn requested(&mut self, effects: &mut Vec<Effect<C>>, event: CommonEvent) -> (next: Next)
        ensures
            old(self)@.requested(event).reached(
                final(self)@,
                old(effects)@,
                final(effects)@,
                next,
            ),
    {
        let window_id = match event {
            CommonEvent::Quit => {
                effects.push(Effect::Exit);
                return Next::Done;
            },
            CommonEvent::CreateWindow { window_id } => {
                effects.push(Effect::CreateWindow { window_id });
                return Next::Done;
            },
            CommonEvent::CloseWindow { window_id } => {
                return self.close_window(effects, window_id, false);
            },
            CommonEvent::SetCursorGrab { window_id, mode } => {
                return self.set_cursor_grab(effects, window_id, mode);
            },
            CommonEvent::UiTask => {
                effects.push(Effect::RunUiTask);
                return Next::Done;
            },
            CommonEvent::DockTask => {
                effects.push(Effect::DrainDock);
                return Next::Done;
            },
            CommonEvent::TrayTask => {
                effects.push(Effect::DrainTray);
                return Next::Done;
            },
            CommonEvent::SetTitle { window_id } => window_id,
            CommonEvent::SetWindowSize { window_id } => window_id,
            CommonEvent::SetWindowPosition { window_id } => window_id,
            CommonEvent::SetResizable { window_id } => window_id,
            CommonEvent::SetAlwaysOnTop { window_id } => window_id,
            CommonEvent::SetClickPassthrough { window_id } => window_id,
            CommonEvent::Show { window_id } => window_id,
            CommonEvent::Hide { window_id } => window_id,
            CommonEvent::Focus { window_id } => window_id,
            CommonEvent::SetApplicationMenu { window_id } => window_id,
            CommonEvent::ShowContextMenu { window_id } => window_id,
            CommonEvent::Other => {
                return Next::Done;
            },
        };
        if self.windows.contains_key(&window_id) {
            effects.push(Effect::ApplyCommonEvent { window_id });
        }
        Next::Done
    }

    /// The event loop is about to wait: whatever is still to be released is
    /// tried again first.
    pub fn about_to_wait(&mut self) -> (step: Step<C>)
        ensures
            old(self)@.about_to_wait().reached(final(self)@, seq![], step.effects@, step.next),
            old(self)@.wf() ==> final(self)@.wf() && final(self)@.ready(step.next),
    {
        proof {
            if old(self)@.wf() {
                law_about_to_wait_wf(old(self)@);
            }
        }
        let mut effects: Vec<Effect<C>> = Vec::new();
        let next = if self.pending_process_ungrab {
            Next::Call { call: NativeCall::ReleaseProcessGrab, then: Resume::WaitProcess }
        } else {
            self.wait_pending(&mut effects)
        };
        Step { effects, next }
    }

    fn wait_pending(&mut self, effects: &mut Vec<Effect<C>>) -> (next: Next)
        ensures
            old(self)@.wait_pending().reached(
                final(self)@,
                old(effects)@,
                final(effects)@,
                next,
            ),
    {
        match self.retry_pointer_ungrab() {
            Some(target) => Next::Call {
                call: NativeCall::SetCursorGrab { target, mode: NativeGrabMode::Free },
                then: Resume::WaitPending { target },
            },
            None => {
                self.wait_finished(effects);
                Next::Done
            },
        }
    }

    fn wait_finished(&mut self, effects: &mut Vec<Effect<C>>)
        ensures
            old(self)@.wait_finished().reached(
                final(self)@,
                old(effects)@,
                final(effects)@,
                Next::Done,
            ),
    {
        let flow = if self.pending_process_ungrab || self.pending_pointer_ungrab.is_some() {
            ControlFlow::WaitFor { millis: 50 }
        } else {
            ControlFlow::Wait
        };
        effects.push(Effect::SetControlFlow { flow });
        self.flush_mouse_motion(effects);
        effects.push(Effect::PollMenuEvents);
        effects.push(Effect::PollTrayEvents);
    }

    /// Goes on where a step left off for a native call, with the call's answer.
    pub fn resume(&mut self, then: Resume, answer: bool) -> (step: Step<C>)
        ensures
            old(self)@.resume(then, answer).reached(
                final(self)@,
                seq![],
                step.effects@,
                step.next,
            ),
            old(self)@.wf() && old(self)@.expects(then) ==> final(self)@.wf() && final(self)@.ready(
                step.next,
            ),
    {
        proof {
            if old(self)@.wf() && old(self)@.expects(then) {
                law_resume_wf(old(self)@, then, answer);
            }
        }
        let mut effects: Vec<Effect<C>> = Vec::new();
        let next = match then {
            Resume::ReleaseProcess { window_id, then } => {
                self.process_ungrab_answered(answer);
                if self.pending_process_ungrab {
                    self.release_finished(&mut effects, false, then)
                } else {
                    self.release_pending(&mut effects, window_id, then)
                }
            },
            Resume::ReleasePending { window_id, target, then } => {
                self.pointer_ungrab_answered(&mut effects, target, answer);
                if self.releasing(window_id) {
                    self.release_finished(&mut effects, false, then)
                } else {
                    self.release_live(&mut effects, window_id, then)
                }
            },
            Resume::ReleaseLive { window_id, then } => {
                self.live_ungrab_answered(&mut effects, window_id, answer);
                self.release_finished(&mut effects, answer, then)
            },
            Resume::AcquireProcess { window_id, mode } => {
                self.process_ungrab_answered(answer);
                self.acquire_pending(&mut effects, window_id, mode)
            },
            Resume::AcquirePending { window_id, mode, target } => {
                self.pointer_ungrab_answered(&mut effects, target, answer);
                self.acquire_checked(&mut effects, window_id, mode)
            },
            Resume::AcquireGrab { window_id, mode } => self.grab_answered(
                &mut effects,
                window_id,
                mode,
                answer,
            ),
            Resume::AcquireFallback { window_id } => self.fallback_answered(
                &mut effects,
                window_id,
                answer,
            ),
            Resume::ForcePending { target, then } => {
                self.pointer_ungrab_answered(&mut effects, target, answer);
                self.forget_motion();
                self.forced(&mut effects, then)
            },
            Resume::ForceLive { window_id, then } => {
                self.live_ungrab_answered(&mut effects, window_id, answer);
                self.forget_motion();
                self.forced(&mut effects, then)
            },
            Resume::CloseDecision { window_id } => if answer {
                self.close_window(&mut effects, window_id, false)
            } else {
                Next::Done
            },
            Resume::DestroyedProcess => {
                self.pending_process_ungrab = !answer;
                self.closed(&mut effects);
                Next::Done
            },
            Resume::WaitProcess => {
                self.process_ungrab_answered(answer);
                self.wait_pending(&mut effects)
            },
            Resume::WaitPending { target } => {
                self.pointer_ungrab_answered(&mut effects, target, answer);
                self.wait_finished(&mut effects);
                Next::Done
            },
        };
        Step { effects, next }
    }

    /// Goes on with a grab request once the display has been asked what it
    /// allows.
    pub fn capabilities_known(
        &mut self,
        window_id: u32,
        mode: AcceptedCursorGrabMode,
        capabilities: Capabilities,
    ) -> (step: Step<C>)
        ensures
            old(self)@.capabilities_known(window_id, mode, capabilities).reached(
                final(self)@,
                seq![],
                step.effects@,
                step.next,
            ),
            old(self)@.wf() && old(self)@.ready(Next::QueryCapabilities { window_id, mode })
                ==> final(self)@.wf() && final(self)@.ready(step.next),
    {
        proof {
            if old(self)@.wf() && old(self)@.ready(Next::QueryCapabilities { window_id, mode }) {
                law_capabilities_known_wf(old(self)@, window_id, mode, capabilities);
            }
        }
        let mut effects: Vec<Effect<C>> = Vec::new();
        self.wayland_cursor_capabilities = Some(capabilities);
        let supported = capabilities.supports(mode == AcceptedCursorGrabMode::Locked);
        let next = self.acquire_supported(&mut effects, window_id, mode, supported);
        Step { effects, next }
    }
}

} // verus!
