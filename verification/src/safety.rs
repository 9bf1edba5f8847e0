//! What holds of every state the application can be in, and of every call it
//! waits for.
use vstd::prelude::*;
use crate::cursor::locked_window;
use crate::cursor::AcceptedCursorGrabMode;
use crate::model::grab_live;
use crate::model::native_mode;
use crate::model::ungrab;
use crate::model::AppState;
use crate::model::Outcome;
use crate::step::AfterForce;
use crate::step::AfterRelease;
use crate::step::CommonEvent;
use crate::step::DeviceEvent;
use crate::step::NativeCall;
use crate::step::NativeGrabMode;
use crate::step::Next;
use crate::step::Resume;
use crate::step::WindowEvent;
use crate::wayland::Capabilities;

verus! {

impl<C> AppState<C> {
    /// A grab is held by an open window, and only while no other grab is still
    /// to be released.  A release is pending only on a native window that still
    /// exists, and only while no process-wide one is.  Motion is collected only
    /// for a locked window.
    pub open spec fn wf(self) -> bool {
        &&& self.grab matches Some(grab) ==> self.is_open(grab.window_id) && !self.outstanding()
        &&& self.pending matches Some(pending) ==> pending.detached || self.is_open(
            pending.window_id,
        )
        &&& !(self.pending is Some && self.process_ungrab)
        &&& self.motion.len() > 0 ==> locked_window(self.grab) is Some
    }

    /// The window has the focus and the cursor, and the display is known to let
    /// it have such a grab.
    pub open spec fn acquirable(self, window_id: u32, mode: AcceptedCursorGrabMode) -> bool {
        &&& self.may_grab(window_id)
        &&& self.support(window_id, mode) == Some(true)
    }

    /// A release that makes room for another grab does so for one that can be
    /// had.
    pub open spec fn makes_room(self, then: AfterRelease) -> bool {
        then matches AfterRelease::Acquire { window_id, mode } ==> self.acquirable(window_id, mode)
    }

    /// The state in which the machine waits at a resume point.
    pub open spec fn expects(self, then: Resume) -> bool {
        match then {
            Resume::ReleaseProcess { window_id, then } => {
                &&& self.process_ungrab
                &&& self.motion.len() == 0
                &&& then == AfterRelease::Report
            },
            Resume::ReleasePending { window_id, target, then } => {
                &&& !self.process_ungrab
                &&& self.releasing(window_id)
                &&& self.retry_target() == Some(target)
                &&& self.motion.len() == 0
                &&& then == AfterRelease::Report
            },
            Resume::ReleaseLive { window_id, then } => {
                &&& self.grabs(window_id)
                &&& self.motion.len() == 0
                &&& self.makes_room(then)
            },
            Resume::AcquireProcess { window_id, mode } => self.process_ungrab,
            Resume::AcquirePending { window_id, mode, target } => self.retry_target() == Some(
                target,
            ),
            Resume::AcquireGrab { window_id, mode } => {
                &&& self.acquirable(window_id, mode)
                &&& self.grab is None
                &&& !self.outstanding()
            },
            Resume::AcquireFallback { window_id } => {
                &&& self.acquirable(window_id, AcceptedCursorGrabMode::Locked)
                &&& self.grab is None
                &&& !self.outstanding()
            },
            Resume::ForcePending { target, then } => {
                &&& self.retry_target() == Some(target)
                &&& forced_window(then) is Some
                &&& forced_window(then) == self.pending_window()
            },
            Resume::ForceLive { window_id, then } => {
                &&& self.grabs(window_id)
                &&& forced_window(then) matches Some(id) ==> id == window_id
            },
            Resume::CloseDecision { window_id } => self.is_open(window_id),
            Resume::DestroyedProcess => self.grab is None && self.pending is None,
            Resume::WaitProcess => self.process_ungrab,
            Resume::WaitPending { target } => self.retry_target() == Some(target),
        }
    }

    /// The reason for a forced release fits the window: it is about this window,
    /// or it is about whichever window holds the grab, and that is this one.
    pub open spec fn forces(self, window_id: u32, then: AfterForce) -> bool {
        match forced_window(then) {
            Some(id) => id == window_id,
            None => self.grabs(window_id),
        }
    }

    /// What the host is asked for next fits the state.
    pub open spec fn ready(self, next: Next) -> bool {
        match next {
            Next::Done => true,
            Next::Call { call, then } => {
                &&& call == call_at(then)
                &&& self.expects(then)
            },
            Next::QueryCapabilities { window_id, mode } => {
                &&& self.may_grab(window_id)
                &&& !self.outstanding()
                &&& self.capabilities is None
            },
        }
    }
}

impl<C> Outcome<C> {
    pub open spec fn wf(self) -> bool {
        self.state.wf() && self.state.ready(self.next)
    }
}

/// The window that a forced release is about.
pub open spec fn forced_window(then: AfterForce) -> Option<u32> {
    match then {
        AfterForce::Suspended => None,
        AfterForce::CursorLeft { window_id, modifiers } => Some(window_id),
        AfterForce::FocusLost { window_id } => Some(window_id),
        AfterForce::Close { window_id } => Some(window_id),
    }
}

/// The call that is answered at a resume point.
pub open spec fn call_at(then: Resume) -> NativeCall {
    match then {
        Resume::ReleaseProcess { .. } => NativeCall::ReleaseProcessGrab,
        Resume::ReleasePending { target, .. } => ungrab(target),
        Resume::ReleaseLive { window_id, .. } => grab_live(window_id, NativeGrabMode::Free),
        Resume::AcquireProcess { .. } => NativeCall::ReleaseProcessGrab,
        Resume::AcquirePending { target, .. } => ungrab(target),
        Resume::AcquireGrab { window_id, mode } => grab_live(window_id, native_mode(mode)),
        Resume::AcquireFallback { window_id } => grab_live(window_id, NativeGrabMode::Confined),
        Resume::ForcePending { target, .. } => ungrab(target),
        Resume::ForceLive { window_id, .. } => grab_live(window_id, NativeGrabMode::Free),
        Resume::CloseDecision { window_id } => NativeCall::CloseRequested { window_id },
        Resume::DestroyedProcess => NativeCall::ReleaseProcessGrab,
        Resume::WaitProcess => NativeCall::ReleaseProcessGrab,
        Resume::WaitPending { target } => ungrab(target),
    }
}

/// An application starts out well-formed.
pub proof fn law_initial_wf<C>(capabilities: Option<Capabilities>)
    ensures
        AppState::<C>::initial(capabilities).wf(),
{
}

/// Creating a window keeps the state well-formed, also where the name was in
/// use.
pub proof fn law_created_wf<C>(state: AppState<C>, window_id: u32, native_id: u64)
    requires
        state.wf(),
    ensures
        state.created(window_id, native_id).wf(),
{
}

/// Device events keep the state well-formed.
pub proof fn law_device_event_wf<C>(state: AppState<C>, event: DeviceEvent<C>)
    requires
        state.wf(),
    ensures
        state.device_event(event).wf(),
{
}

/// Requests to change the grab keep the state well-formed and wait for nothing
/// that does not fit it.
pub proof fn law_set_cursor_grab_wf<C>(state: AppState<C>, window_id: u32, mode: i32)
    requires
        state.wf(),
    ensures
        state.set_cursor_grab(window_id, mode).wf(),
{
}

/// Taking the grab away from a window, for a reason that is about that window
/// or because it is the one that holds the grab, keeps the state well-formed.
pub proof fn law_force_release_wf<C>(state: AppState<C>, window_id: u32, then: AfterForce)
    requires
        state.wf(),
        state.forces(window_id, then),
    ensures
        state.force_release(window_id, then).wf(),
{
}

/// Closing a window keeps the state well-formed.
pub proof fn law_close_window_wf<C>(state: AppState<C>, window_id: u32, native_destroyed: bool)
    requires
        state.wf(),
    ensures
        state.close_window(window_id, native_destroyed).wf(),
{
}

/// Window events keep the state well-formed.
pub proof fn law_window_event_wf<C>(state: AppState<C>, native_id: u64, event: WindowEvent<C>)
    requires
        state.wf(),
    ensures
        state.window_event(native_id, event).wf(),
{
}

/// Requests of the runtime keep the state well-formed.
pub proof fn law_user_event_wf<C>(state: AppState<C>, event: CommonEvent)
    requires
        state.wf(),
    ensures
        state.user_event(event).wf(),
{
}

/// Going to wait keeps the state well-formed.
pub proof fn law_about_to_wait_wf<C>(state: AppState<C>)
    requires
        state.wf(),
    ensures
        state.about_to_wait().wf(),
{
}

/// Being suspended keeps the state well-formed.
pub proof fn law_suspended_wf<C>(state: AppState<C>)
    requires
        state.wf(),
    ensures
        state.suspended().wf(),
{
}

/// Whatever the host answers, the state stays well-formed.
pub proof fn law_resume_wf<C>(state: AppState<C>, then: Resume, answer: bool)
    requires
        state.wf(),
        state.expects(then),
    ensures
        state.resume(then, answer).wf(),
{
}

/// Whatever the display turns out to allow, the state stays well-formed.
pub proof fn law_capabilities_known_wf<C>(
    state: AppState<C>,
    window_id: u32,
    mode: AcceptedCursorGrabMode,
    capabilities: Capabilities,
)
    requires
        state.wf(),
        state.ready(Next::QueryCapabilities { window_id, mode }),
    ensures
        state.capabilities_known(window_id, mode, capabilities).wf(),
{
}

// ---- The grab and the cursor ----

impl<C> AppState<C> {
    /// The cursor is inside the window that holds the grab.
    pub open spec fn grab_has_cursor(self) -> bool {
        self.grab matches Some(grab) ==> self.windows[grab.window_id].cursor_inside
    }
}

/// The cursor is inside the window that holds the grab, and stays so: whatever
/// happens, when the cursor leaves the grab goes with it.  `waits` says that the
/// window whose grab is being taken away because of the cursor may hold it until
/// the host has answered.
pub proof fn law_window_event_keeps_cursor<C>(
    state: AppState<C>,
    native_id: u64,
    event: WindowEvent<C>,
)
    requires
        state.wf(),
        state.grab_has_cursor(),
    ensures
        ({
            let outcome = state.window_event(native_id, event);
            let waits = outcome.next matches Next::Call {
                then: Resume::ForceLive { then: AfterForce::CursorLeft { .. }, .. },
                ..
            };
            outcome.state.grab_has_cursor() || waits
        }),
{
}

/// A request of the runtime, a wait or a suspension leaves the cursor inside the
/// window that holds the grab.
pub proof fn law_idle_keeps_cursor<C>(state: AppState<C>, event: CommonEvent)
    requires
        state.wf(),
        state.grab_has_cursor(),
    ensures
        state.user_event(event).state.grab_has_cursor(),
        state.about_to_wait().state.grab_has_cursor(),
        state.suspended().state.grab_has_cursor(),
{
}

/// Once the host has answered, the cursor is inside the window that holds the
/// grab, also where the answer was waited for because the cursor left.
pub proof fn law_answer_keeps_cursor<C>(state: AppState<C>, then: Resume, answer: bool)
    requires
        state.wf(),
        state.expects(then),
        state.grab_has_cursor() || then matches Resume::ForceLive {
            then: AfterForce::CursorLeft { .. },
            ..
        },
    ensures
        state.resume(then, answer).state.grab_has_cursor(),
{
}

/// What the display allows has no bearing on where the cursor is.
pub proof fn law_capabilities_keep_cursor<C>(
    state: AppState<C>,
    window_id: u32,
    mode: AcceptedCursorGrabMode,
    capabilities: Capabilities,
)
    requires
        state.wf(),
        state.grab_has_cursor(),
    ensures
        state.capabilities_known(window_id, mode, capabilities).state.grab_has_cursor(),
{
}

/// A new window leaves the cursor inside the window that holds the grab, unless
/// it takes the name of that very window.
pub proof fn law_created_keeps_cursor<C>(state: AppState<C>, window_id: u32, native_id: u64)
    requires
        state.grab_has_cursor(),
        !state.grabs(window_id),
    ensures
        state.created(window_id, native_id).grab_has_cursor(),
{
}

} // verus!
