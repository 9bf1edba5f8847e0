//! The native side of the application: which native windows the host has, and
//! what they are called.
use vstd::prelude::*;
use crate::cursor::locked_window;
use crate::cursor::AcceptedCursorGrabMode;
use crate::model::AppState;
use crate::model::Outcome;
use crate::model::WindowInfo;
use crate::safety::forced_window;
use crate::step::AfterForce;
use crate::step::AfterRelease;
use crate::step::CommonEvent;
use crate::step::Effect;
use crate::step::GrabTarget;
use crate::step::NativeCall;
use crate::step::Next;
use crate::step::Resume;
use crate::step::WindowEvent;
use crate::wayland::Capabilities;

verus! {

/// The native windows that the host has: the open ones, those of them that the
/// cursor is hidden over, and whether a closed one is kept.
#[verifier::ext_equal]
pub struct NativeWindows {
    pub open: Set<u32>,
    pub hidden: Set<u32>,
    pub detached: bool,
}

impl NativeWindows {
    pub open spec fn has(self, target: GrabTarget) -> bool {
        match target {
            GrabTarget::Live { window_id } => self.open.contains(window_id),
            GrabTarget::Detached => self.detached,
        }
    }

    /// The native windows that an effect is carried out on exist.
    pub open spec fn can<C>(self, effect: Effect<C>) -> bool {
        match effect {
            Effect::SetCursorVisible { target, visible } => self.has(target),
            Effect::RemoveWindow { window_id } => self.open.contains(window_id),
            Effect::DropWindow { window_id } => self.open.contains(window_id),
            Effect::DetachWindow { window_id } => self.open.contains(window_id),
            Effect::ApplyCommonEvent { window_id } => self.open.contains(window_id),
            Effect::DropDetached => self.detached,
            _ => true,
        }
    }

    pub open spec fn perform<C>(self, effect: Effect<C>) -> NativeWindows {
        match effect {
            Effect::DropWindow { window_id } => NativeWindows {
                open: self.open.remove(window_id),
                hidden: self.hidden.remove(window_id),
                ..self
            },
            Effect::DetachWindow { window_id } => NativeWindows {
                open: self.open.remove(window_id),
                hidden: self.hidden.remove(window_id),
                detached: true,
            },
            Effect::SetCursorVisible { target: GrabTarget::Live { window_id }, visible } => {
                NativeWindows {
                    hidden: if visible {
                        self.hidden.remove(window_id)
                    } else {
                        self.hidden.insert(window_id)
                    },
                    ..self
                }
            },
            Effect::ShowAllCursors => NativeWindows { hidden: Set::empty(), ..self },
            Effect::DropDetached => NativeWindows { detached: false, ..self },
            _ => self,
        }
    }

    /// The native windows after some effects.
    pub open spec fn after<C>(self, effects: Seq<Effect<C>>) -> NativeWindows
        decreases effects.len(),
    {
        if effects.len() == 0 {
            self
        } else {
            self.after(effects.drop_last()).perform(effects.last())
        }
    }

    /// Each effect finds the native windows it needs.
    pub open spec fn carries_out<C>(self, effects: Seq<Effect<C>>) -> bool
        decreases effects.len(),
    {
        effects.len() > 0 ==> {
            &&& self.carries_out(effects.drop_last())
            &&& self.after(effects.drop_last()).can(effects.last())
        }
    }
}

impl<C> AppState<C> {
    /// The native windows that the state counts on: the cursor is hidden over a
    /// locked window, and nowhere else.
    pub open spec fn native_windows(self) -> NativeWindows {
        NativeWindows {
            open: self.windows.dom(),
            hidden: match locked_window(self.grab) {
                Some(window_id) => set![window_id],
                None => set![],
            },
            detached: self.detached(),
        }
    }
}

impl<C> Outcome<C> {
    /// A host with these native windows can carry out all effects, has the
    /// native windows that the new state counts on then, and has the one that
    /// the next call is made on.
    pub open spec fn serves(self, before: NativeWindows) -> bool {
        &&& before.carries_out(self.effects)
        &&& before.after(self.effects) == self.state.native_windows()
        &&& self.next matches Next::Call { call: NativeCall::SetCursorGrab { target, .. }, .. }
            ==> self.state.native_windows().has(target)
    }
}

proof fn lemma_concat<C>(before: NativeWindows, first: Seq<Effect<C>>, second: Seq<Effect<C>>)
    ensures
        before.after(first + second) == before.after(first).after(second),
        before.carries_out(first + second) == (before.carries_out(first) && before.after(
            first,
        ).carries_out(second)),
    decreases second.len(),
{
    if second.len() == 0 {
        assert(first + second =~= first);
    } else {
        assert((first + second).drop_last() =~= first + second.drop_last());
        lemma_concat(before, first, second.drop_last());
    }
}

proof fn lemma_serves_after<C>(before: NativeWindows, effects: Seq<Effect<C>>, outcome: Outcome<C>)
    requires
        before.carries_out(effects),
        outcome.serves(before.after(effects)),
    ensures
        outcome.after(effects).serves(before),
{
    lemma_concat(before, effects, outcome.effects);
}

/// Effects that neither need nor change native windows.
spec fn neutral<C>(effects: Seq<Effect<C>>) -> bool {
    forall|i: int|
        #![trigger effects[i]]
        0 <= i < effects.len() ==> {
            &&& effects[i] !is SetCursorVisible
            &&& effects[i] !is ShowAllCursors
            &&& effects[i] !is RemoveWindow
            &&& effects[i] !is DropWindow
            &&& effects[i] !is DetachWindow
            &&& effects[i] !is DropDetached
            &&& effects[i] !is ApplyCommonEvent
        }
}

proof fn lemma_neutral<C>(before: NativeWindows, effects: Seq<Effect<C>>)
    requires
        neutral(effects),
    ensures
        before.after(effects) == before,
        before.carries_out(effects),
    decreases effects.len(),
{
    if effects.len() > 0 {
        assert(neutral(effects.drop_last()));
        lemma_neutral(before, effects.drop_last());
        assert(effects.last() == effects[effects.len() - 1]);
    }
}

proof fn lemma_done_neutral<C>(state: AppState<C>, effects: Seq<Effect<C>>, now: AppState<C>)
    requires
        neutral(effects),
        now.native_windows() == state.native_windows(),
    ensures
        Outcome::done(now, effects).serves(state.native_windows()),
{
    lemma_neutral(state.native_windows(), effects);
}

proof fn lemma_pending_effects<C>(state: AppState<C>, target: GrabTarget, released: bool)
    requires
        state.wf(),
        state.retry_target() == Some(target),
    ensures
        state.native_windows().carries_out(state.pending_effects(target, released)),
        state.native_windows().after(state.pending_effects(target, released))
            == state.pending_answered(released).native_windows(),
{
    reveal_with_fuel(NativeWindows::after, 3);
    reveal_with_fuel(NativeWindows::carries_out, 3);
    assert(state.native_windows().after(state.pending_effects(target, released))
        =~= state.pending_answered(released).native_windows());
}

proof fn lemma_live_effects<C>(state: AppState<C>, window_id: u32, released: bool)
    requires
        state.wf(),
        state.grabs(window_id),
    ensures
        state.native_windows().carries_out(state.live_effects(window_id)),
        state.native_windows().after(state.live_effects(window_id)) == state.live_answered(
            window_id,
            released,
        ).native_windows(),
{
    reveal_with_fuel(NativeWindows::after, 3);
    reveal_with_fuel(NativeWindows::carries_out, 3);
    assert(state.native_windows().after(state.live_effects(window_id)) =~= state.live_answered(
        window_id,
        released,
    ).native_windows());
}

proof fn lemma_closed_serves<C>(state: AppState<C>)
    ensures
        state.closed().serves(state.native_windows()),
{
    lemma_done_neutral(state, state.closed().effects, state);
}

proof fn lemma_close_released_serves<C>(state: AppState<C>, window_id: u32)
    requires
        !state.grabs(window_id),
    ensures
        state.close_released(window_id).serves(state.native_windows()),
{
    reveal_with_fuel(NativeWindows::after, 3);
    reveal_with_fuel(NativeWindows::carries_out, 3);
    let before = state.native_windows();
    if state.is_open(window_id) {
        let outcome = state.close_released(window_id);
        lemma_closed_serves(outcome.state);
        if state.releasing(window_id) {
            let effects: Seq<Effect<C>> = seq![
                Effect::RemoveWindow { window_id },
                Effect::DetachWindow { window_id },
            ];
            assert(before.after(effects) =~= outcome.state.native_windows());
            lemma_serves_after(before, effects, outcome.state.closed());
        } else {
            let effects: Seq<Effect<C>> = seq![
                Effect::RemoveWindow { window_id },
                Effect::DropWindow { window_id },
            ];
            assert(before.after(effects) =~= outcome.state.native_windows());
            lemma_serves_after(before, effects, outcome.state.closed());
        }
    } else {
        lemma_closed_serves(state);
    }
}

proof fn lemma_forced_serves<C>(state: AppState<C>, then: AfterForce)
    requires
        then matches AfterForce::Close { window_id } ==> !state.grabs(window_id),
    ensures
        state.forced(then).serves(state.native_windows()),
{
    match then {
        AfterForce::Close { window_id } => {
            lemma_close_released_serves(state, window_id);
        },
        _ => {
            let outcome = state.forced(then);
            assert(outcome.state.native_windows() =~= state.native_windows());
            lemma_done_neutral(state, outcome.effects, outcome.state);
        },
    }
}

proof fn lemma_force_release_serves<C>(state: AppState<C>, window_id: u32, then: AfterForce)
    requires
        state.wf(),
        forced_window(then) matches Some(id) ==> id == window_id,
    ensures
        state.force_release(window_id, then).serves(state.native_windows()),
{
    let quiet = state.without_motion();
    assert(quiet.native_windows() =~= state.native_windows());
    if !state.grabs(window_id) {
        lemma_forced_serves(quiet, then);
    }
}

proof fn lemma_release_finished_serves<C>(state: AppState<C>, success: bool, then: AfterRelease)
    ensures
        state.release_finished(success, then).serves(state.native_windows()),
{
    let outcome = state.release_finished(success, then);
    if outcome.next is Done {
        lemma_done_neutral(state, outcome.effects, state);
    }
}

proof fn lemma_release_live_serves<C>(state: AppState<C>, window_id: u32, then: AfterRelease)
    requires
        state.wf(),
    ensures
        state.release_live(window_id, then).serves(state.native_windows()),
{
    lemma_release_finished_serves(state, state.is_open(window_id), then);
    if !state.is_open(window_id) && state.releasing(window_id) {
        let ungrabbed = AppState { grab: None, ..state };
        assert(ungrabbed.native_windows() =~= state.native_windows());
        lemma_release_finished_serves(ungrabbed, false, then);
    }
}

proof fn lemma_release_pending_serves<C>(state: AppState<C>, window_id: u32, then: AfterRelease)
    requires
        state.wf(),
    ensures
        state.release_pending(window_id, then).serves(state.native_windows()),
{
    lemma_release_live_serves(state, window_id, then);
    if state.retry_target() is None {
        assert(state.without_orphan().native_windows() =~= state.native_windows());
        lemma_release_live_serves(state.without_orphan(), window_id, then);
    }
}

proof fn lemma_release_serves<C>(state: AppState<C>, window_id: u32, then: AfterRelease)
    requires
        state.wf(),
    ensures
        state.release(window_id, then).serves(state.native_windows()),
{
    assert(state.without_motion().native_windows() =~= state.native_windows());
    lemma_release_pending_serves(state.without_motion(), window_id, then);
}

proof fn lemma_answered_serves<C>(state: AppState<C>, success: bool)
    ensures
        state.grab_request_answered(success).serves(state.native_windows()),
{
    lemma_done_neutral(state, state.grab_request_answered(success).effects, state);
}

proof fn lemma_acquire_supported_serves<C>(
    state: AppState<C>,
    window_id: u32,
    mode: AcceptedCursorGrabMode,
    supported: bool,
)
    requires
        state.wf(),
    ensures
        state.acquire_supported(window_id, mode, supported).serves(state.native_windows()),
{
    lemma_answered_serves(state, true);
    lemma_answered_serves(state, false);
    if let Some(held) = state.grab {
        lemma_release_serves(state, held.window_id, AfterRelease::Acquire { window_id, mode });
    }
}

proof fn lemma_acquire_checked_serves<C>(
    state: AppState<C>,
    window_id: u32,
    mode: AcceptedCursorGrabMode,
)
    requires
        state.wf(),
    ensures
        state.acquire_checked(window_id, mode).serves(state.native_windows()),
{
    lemma_answered_serves(state, false);
    if let Some(supported) = state.support(window_id, mode) {
        lemma_acquire_supported_serves(state, window_id, mode, supported);
    }
}

proof fn lemma_acquire_pending_serves<C>(
    state: AppState<C>,
    window_id: u32,
    mode: AcceptedCursorGrabMode,
)
    requires
        state.wf(),
    ensures
        state.acquire_pending(window_id, mode).serves(state.native_windows()),
{
    if state.retry_target() is None {
        assert(state.without_orphan().native_windows() =~= state.native_windows());
        lemma_acquire_checked_serves(state.without_orphan(), window_id, mode);
    }
}

proof fn lemma_grab_accepted_serves<C>(
    state: AppState<C>,
    window_id: u32,
    mode: AcceptedCursorGrabMode,
)
    requires
        state.is_open(window_id),
        state.grab is None,
    ensures
        state.grab_accepted(window_id, mode).serves(state.native_windows()),
{
    reveal_with_fuel(NativeWindows::after, 3);
    reveal_with_fuel(NativeWindows::carries_out, 3);
    let before = state.native_windows();
    let outcome = state.grab_accepted(window_id, mode);
    let effects = seq![
        Effect::SetCursorVisible {
            target: GrabTarget::Live { window_id },
            visible: mode == AcceptedCursorGrabMode::Confined,
        },
    ] + state.drop_detached();
    assert(before.after(effects) =~= outcome.state.native_windows());
    lemma_answered_serves(outcome.state, true);
    lemma_serves_after(before, effects, outcome.state.grab_request_answered(true));
}

proof fn lemma_set_cursor_grab_serves<C>(state: AppState<C>, window_id: u32, code: i32)
    requires
        state.wf(),
    ensures
        state.set_cursor_grab(window_id, code).serves(state.native_windows()),
{
    lemma_answered_serves(state, false);
    lemma_release_serves(state, window_id, AfterRelease::Report);
    if let Some(mode) = crate::cursor::requested_mode(code) {
        lemma_acquire_pending_serves(state, window_id, mode);
    }
}

proof fn lemma_destroyed_serves<C>(state: AppState<C>, window_id: u32)
    requires
        state.wf(),
    ensures
        state.destroyed(window_id).serves(state.native_windows()),
{
    reveal_with_fuel(NativeWindows::after, 4);
    reveal_with_fuel(NativeWindows::carries_out, 4);
    let before = state.native_windows();
    let outcome = state.destroyed(window_id);
    let now = outcome.state;
    let dropped: Seq<Effect<C>> = if state.releasing(window_id) {
        state.drop_detached()
    } else {
        seq![]
    };
    let removed: Seq<Effect<C>> = if state.is_open(window_id) {
        seq![Effect::RemoveWindow { window_id }, Effect::DropWindow { window_id }]
    } else {
        seq![]
    };
    lemma_concat(before, dropped, removed);
    assert(before.after(dropped + removed) =~= now.native_windows());
    if state.grabs(window_id) || state.releasing(window_id) {
        let call = Outcome::calls(now, NativeCall::ReleaseProcessGrab, Resume::DestroyedProcess);
        let shown: Seq<Effect<C>> = seq![Effect::ShowAllCursors];
        assert(now.native_windows().after(shown) =~= now.native_windows());
        lemma_serves_after(now.native_windows(), shown, call);
        lemma_serves_after(before, dropped + removed, call.after(shown));
    } else {
        lemma_closed_serves(now);
        lemma_serves_after(before, dropped + removed, now.closed());
    }
}

proof fn lemma_close_window_serves<C>(state: AppState<C>, window_id: u32, native_destroyed: bool)
    requires
        state.wf(),
    ensures
        state.close_window(window_id, native_destroyed).serves(state.native_windows()),
{
    if native_destroyed {
        lemma_destroyed_serves(state, window_id);
    } else {
        lemma_force_release_serves(state, window_id, AfterForce::Close { window_id });
    }
}

proof fn lemma_flush<C>(state: AppState<C>)
    ensures
        neutral(state.flush_effects()),
        state.without_motion().native_windows() == state.native_windows(),
{
}

proof fn lemma_wait_finished_serves<C>(state: AppState<C>)
    ensures
        state.wait_finished().serves(state.native_windows()),
{
    lemma_flush(state);
    lemma_done_neutral(state, state.wait_finished().effects, state.without_motion());
}

proof fn lemma_wait_pending_serves<C>(state: AppState<C>)
    ensures
        state.wait_pending().serves(state.native_windows()),
{
    if state.retry_target() is None {
        assert(state.without_orphan().native_windows() =~= state.native_windows());
        lemma_wait_finished_serves(state.without_orphan());
    }
}

/// A host that has the native windows of the state can do all that a window
/// event asks of it, and has those of the new state afterwards, with the cursor
/// hidden exactly over a locked one.
pub proof fn law_window_event_serves<C>(
    state: AppState<C>,
    native_id: u64,
    event: WindowEvent<C>,
)
    requires
        state.wf(),
    ensures
        state.window_event(native_id, event).serves(state.native_windows()),
{
    let before = state.native_windows();
    let quiet = state.without_motion();
    lemma_flush(state);
    lemma_neutral(before, state.flush_effects());
    match state.laufey_id(native_id) {
        None => {
            lemma_done_neutral(state, seq![], state);
        },
        Some(window_id) => {
            if quiet.is_open(window_id) {
                let outcome = quiet.open_window_event(window_id, event);
                let left = quiet.with_cursor_inside(window_id, false);
                match event {
                    WindowEvent::CursorLeft => {
                        assert(left.native_windows() =~= before);
                        lemma_force_release_serves(
                            left,
                            window_id,
                            AfterForce::CursorLeft {
                                window_id,
                                modifiers: quiet.modifiers(window_id),
                            },
                        );
                    },
                    WindowEvent::Focused { focused } => {
                        lemma_force_release_serves(
                            quiet,
                            window_id,
                            AfterForce::FocusLost { window_id },
                        );
                        lemma_forced_serves(quiet, AfterForce::FocusLost { window_id });
                        if focused {
                            lemma_done_neutral(quiet, outcome.effects, outcome.state);
                        }
                    },
                    WindowEvent::Destroyed => {
                        let told: Seq<Effect<C>> = seq![
                            Effect::DispatchCloseRequested { window_id },
                        ];
                        lemma_neutral(before, told);
                        lemma_close_window_serves(quiet, window_id, true);
                        lemma_serves_after(before, told, quiet.close_window(window_id, true));
                    },
                    WindowEvent::CloseRequested => {},
                    _ => {
                        assert(outcome.state.native_windows() =~= before);
                        lemma_done_neutral(quiet, outcome.effects, outcome.state);
                    },
                }
                lemma_serves_after(before, state.flush_effects(), outcome);
            } else {
                lemma_done_neutral(quiet, seq![], quiet);
                lemma_serves_after(before, state.flush_effects(), Outcome::done(quiet, seq![]));
            }
        },
    }
}

/// A host that has the native windows of the state can do all that a request of
/// the runtime asks of it, and has those of the new state afterwards.
pub proof fn law_user_event_serves<C>(state: AppState<C>, event: CommonEvent)
    requires
        state.wf(),
    ensures
        state.user_event(event).serves(state.native_windows()),
{
    let before = state.native_windows();
    let quiet = state.without_motion();
    lemma_flush(state);
    lemma_neutral(before, state.flush_effects());
    let outcome = quiet.requested(event);
    match event {
        CommonEvent::CloseWindow { window_id } => {
            lemma_close_window_serves(quiet, window_id, false);
        },
        CommonEvent::SetCursorGrab { window_id, mode } => {
            lemma_set_cursor_grab_serves(quiet, window_id, mode);
        },
        _ => {
            reveal_with_fuel(NativeWindows::after, 2);
            reveal_with_fuel(NativeWindows::carries_out, 2);
        },
    }
    lemma_serves_after(before, state.flush_effects(), outcome);
}

/// A host that has the native windows of the state can do all that going to wait
/// asks of it, and has those of the new state afterwards.
pub proof fn law_about_to_wait_serves<C>(state: AppState<C>)
    requires
        state.wf(),
    ensures
        state.about_to_wait().serves(state.native_windows()),
{
    lemma_wait_pending_serves(state);
}

/// A host that has the native windows of the state can do all that a suspension
/// asks of it, and has those of the new state afterwards.
pub proof fn law_suspended_serves<C>(state: AppState<C>)
    requires
        state.wf(),
    ensures
        state.suspended().serves(state.native_windows()),
{
    match state.grab {
        Some(grab) => {
            lemma_force_release_serves(state, grab.window_id, AfterForce::Suspended);
        },
        None => {
            lemma_done_neutral(state, seq![], state);
        },
    }
}

/// Whatever a native call came to, a host that has the native windows of the
/// state can do all that is asked of it next, and has those of the new state
/// afterwards.
pub proof fn law_resume_serves<C>(state: AppState<C>, then: Resume, answer: bool)
    requires
        state.wf(),
        state.expects(then),
    ensures
        state.resume(then, answer).serves(state.native_windows()),
{
    let before = state.native_windows();
    match then {
        Resume::ReleaseProcess { window_id, then } => {
            let now = state.process_answered(answer);
            assert(now.native_windows() =~= before);
            lemma_release_finished_serves(now, false, then);
            lemma_release_pending_serves(now, window_id, then);
        },
        Resume::ReleasePending { window_id, target, then } => {
            let now = state.pending_answered(answer);
            let effects = state.pending_effects(target, answer);
            lemma_pending_effects(state, target, answer);
            lemma_release_finished_serves(now, false, then);
            lemma_release_live_serves(now, window_id, then);
            lemma_serves_after(
                before,
                effects,
                if now.releasing(window_id) {
                    now.release_finished(false, then)
                } else {
                    now.release_live(window_id, then)
                },
            );
        },
        Resume::ReleaseLive { window_id, then } => {
            let now = state.live_answered(window_id, answer);
            lemma_live_effects(state, window_id, answer);
            lemma_release_finished_serves(now, answer, then);
            lemma_serves_after(
                before,
                state.live_effects(window_id),
                now.release_finished(answer, then),
            );
        },
        Resume::AcquireProcess { window_id, mode } => {
            let now = state.process_answered(answer);
            assert(now.native_windows() =~= before);
            lemma_acquire_pending_serves(now, window_id, mode);
        },
        Resume::AcquirePending { window_id, mode, target } => {
            let now = state.pending_answered(answer);
            lemma_pending_effects(state, target, answer);
            lemma_acquire_checked_serves(now, window_id, mode);
            lemma_serves_after(
                before,
                state.pending_effects(target, answer),
                now.acquire_checked(window_id, mode),
            );
        },
        Resume::AcquireGrab { window_id, mode } => {
            lemma_grab_accepted_serves(state, window_id, mode);
            lemma_answered_serves(state, false);
        },
        Resume::AcquireFallback { window_id } => {
            lemma_grab_accepted_serves(state, window_id, AcceptedCursorGrabMode::Locked);
            lemma_answered_serves(state, false);
        },
        Resume::ForcePending { target, then } => {
            let now = state.pending_answered(answer).without_motion();
            lemma_pending_effects(state, target, answer);
            assert(now.native_windows() =~= state.pending_answered(answer).native_windows());
            lemma_forced_serves(now, then);
            lemma_serves_after(before, state.pending_effects(target, answer), now.forced(then));
        },
        Resume::ForceLive { window_id, then } => {
            let now = state.live_answered(window_id, answer).without_motion();
            lemma_live_effects(state, window_id, answer);
            assert(now.native_windows() =~= state.live_answered(
                window_id,
                answer,
            ).native_windows());
            lemma_forced_serves(now, then);
            lemma_serves_after(before, state.live_effects(window_id), now.forced(then));
        },
        Resume::CloseDecision { window_id } => {
            lemma_close_window_serves(state, window_id, false);
            lemma_done_neutral(state, seq![], state);
        },
        Resume::DestroyedProcess => {
            let now = AppState { process_ungrab: !answer, ..state };
            assert(now.native_windows() =~= before);
            lemma_closed_serves(now);
        },
        Resume::WaitProcess => {
            let now = state.process_answered(answer);
            assert(now.native_windows() =~= before);
            lemma_wait_pending_serves(now);
        },
        Resume::WaitPending { target } => {
            let now = state.pending_answered(answer);
            lemma_pending_effects(state, target, answer);
            lemma_wait_finished_serves(now);
            lemma_serves_after(
                before,
                state.pending_effects(target, answer),
                now.wait_finished(),
            );
        },
    }
}

/// Whatever the display allows, a host that has the native windows of the state
/// can do all that is asked of it next, and has those of the new state
/// afterwards.
pub proof fn law_capabilities_known_serves<C>(
    state: AppState<C>,
    window_id: u32,
    mode: AcceptedCursorGrabMode,
    capabilities: Capabilities,
)
    requires
        state.wf(),
    ensures
        state.capabilities_known(window_id, mode, capabilities).serves(state.native_windows()),
{
    let now = AppState { capabilities: Some(capabilities), ..state };
    assert(now.native_windows() =~= state.native_windows());
    lemma_acquire_supported_serves(
        now,
        window_id,
        mode,
        capabilities.allows(mode == AcceptedCursorGrabMode::Locked),
    );
}

/// A host that creates a native window, and before that had the native windows
/// of the state, has those of the new state: one more window, with the cursor
/// shown over it.
pub proof fn law_created_serves<C>(state: AppState<C>, window_id: u32, native_id: u64)
    requires
        !state.grabs(window_id),
    ensures
        ({
            let before = state.native_windows();
            let now = state.created(window_id, native_id).native_windows();
            &&& now == NativeWindows { open: before.open.insert(window_id), ..before }
            &&& !now.hidden.contains(window_id)
        }),
{
    let before = state.native_windows();
    let now = state.created(window_id, native_id).native_windows();
    assert(now =~= NativeWindows { open: before.open.insert(window_id), ..before });
}

// ---- Names ----

/// Every open window is found under its native name, and native names lead to
/// nothing else.
pub open spec fn names_match(windows: Map<u32, WindowInfo>, native_ids: Map<u64, u32>) -> bool {
    &&& forall|id: u32| #[trigger]
        windows.contains_key(id) ==> {
            &&& native_ids.contains_key(windows[id].native_id)
            &&& native_ids[windows[id].native_id] == id
        }
    &&& forall|native_id: u64| #[trigger]
        native_ids.contains_key(native_id) ==> {
            &&& windows.contains_key(native_ids[native_id])
            &&& windows[native_ids[native_id]].native_id == native_id
        }
}

impl<C> AppState<C> {
    pub open spec fn names_match(self) -> bool {
        names_match(self.windows, self.native_ids)
    }
}

proof fn lemma_names_removed<C>(state: AppState<C>, window_id: u32)
    requires
        state.names_match(),
    ensures
        state.is_open(window_id) ==> state.without_window(window_id).names_match(),
{
}

proof fn lemma_names_updated<C>(state: AppState<C>, window_id: u32, info: WindowInfo)
    requires
        state.names_match(),
        state.is_open(window_id),
        info.native_id == state.windows[window_id].native_id,
    ensures
        state.with_info(window_id, info).names_match(),
{
}

/// Names match from the start.
pub proof fn law_initial_names<C>(capabilities: Option<Capabilities>)
    ensures
        AppState::<C>::initial(capabilities).names_match(),
{
}

/// Creating a window under new names keeps the names matching.
pub proof fn law_created_names<C>(state: AppState<C>, window_id: u32, native_id: u64)
    requires
        state.names_match(),
        !state.is_open(window_id),
        state.laufey_id(native_id) is None,
    ensures
        state.created(window_id, native_id).names_match(),
        state.created(window_id, native_id).laufey_id(native_id) == Some(window_id),
{
}

/// Window events keep the names matching.
pub proof fn law_window_event_names<C>(state: AppState<C>, native_id: u64, event: WindowEvent<C>)
    requires
        state.names_match(),
    ensures
        state.window_event(native_id, event).state.names_match(),
{
    if let Some(window_id) = state.laufey_id(native_id) {
        let quiet = state.without_motion();
        let info = state.windows[window_id];
        lemma_names_removed(quiet, window_id);
        lemma_names_updated(quiet, window_id, WindowInfo { cursor_inside: true, ..info });
        lemma_names_updated(quiet, window_id, WindowInfo { cursor_inside: false, ..info });
        if let WindowEvent::ModifiersChanged { modifiers } = event {
            lemma_names_updated(quiet, window_id, WindowInfo { modifiers, ..info });
        }
    }
}

/// Requests of the runtime keep the names matching.
pub proof fn law_user_event_names<C>(state: AppState<C>, event: CommonEvent)
    requires
        state.names_match(),
    ensures
        state.user_event(event).state.names_match(),
{
    if let CommonEvent::CloseWindow { window_id } = event {
        lemma_names_removed(state, window_id);
    }
}

/// Waiting and suspension keep the names matching.
pub proof fn law_idle_names<C>(state: AppState<C>)
    requires
        state.names_match(),
    ensures
        state.about_to_wait().state.names_match(),
        state.suspended().state.names_match(),
{
}

/// Every answer of the host keeps the names matching.
pub proof fn law_answer_names<C>(
    state: AppState<C>,
    then: Resume,
    answer: bool,
    window_id: u32,
    mode: AcceptedCursorGrabMode,
    capabilities: Capabilities,
)
    requires
        state.names_match(),
    ensures
        state.resume(then, answer).state.names_match(),
        state.capabilities_known(window_id, mode, capabilities).state.names_match(),
{
    match then {
        Resume::ForcePending { target, then: AfterForce::Close { window_id: id } } => {
            lemma_names_removed(state, id);
        },
        Resume::ForceLive { window_id: grabbing, then: AfterForce::Close { window_id: id } } => {
            lemma_names_removed(state, id);
        },
        Resume::CloseDecision { window_id: id } => {
            lemma_names_removed(state, id);
        },
        _ => {},
    }
}

} // verus!
