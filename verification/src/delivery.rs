//! What reaches the handlers, and what may reach the native windows.
use vstd::prelude::*;
use crate::cursor::locked_window;
use crate::cursor::AcceptedCursorGrabMode;
use crate::events::MouseButton;
use crate::events::MouseButtonState;
use crate::events::MouseClickEvent;
use crate::events::LAUFEY_MOUSE_PRESSED;
use crate::handlers::is_history;
use crate::handlers::CloseDispatch;
use crate::handlers::EventKind;
use crate::handlers::Registry;
use crate::handlers::RegistryChange;
use crate::model::dispatched_motion;
use crate::model::motion_deltas;
use crate::model::AppState;
use crate::model::Outcome;
use crate::step::AfterForce;
use crate::step::AfterRelease;
use crate::step::CommonEvent;
use crate::step::DeviceEvent;
use crate::step::Effect;
use crate::step::GrabTarget;
use crate::step::MotionDispatch;
use crate::step::NativeCall;
use crate::step::NativeGrabMode;
use crate::step::Next;
use crate::step::Resume;
use crate::step::WindowEvent;
use crate::wayland::Capabilities;

verus! {

// ---- Decoding ----

/// No two raw codes are taken for the same button.
pub proof fn law_buttons_are_told_apart(first: i32, second: i32)
    requires
        MouseButton::of_raw(first) == MouseButton::of_raw(second),
    ensures
        first == second,
{
}

/// Only the pressed code is ever taken for a press.
pub proof fn law_only_pressed_is_pressed(raw: i32)
    ensures
        MouseButtonState::of_raw(raw) == MouseButtonState::Pressed <==> raw
            == LAUFEY_MOUSE_PRESSED,
{
}

/// Every double click is a click.
pub proof fn law_double_click_is_click<C>(event: MouseClickEvent<C>)
    requires
        event.completes_left_clicks(2),
    ensures
        event.completes_left_clicks(1),
{
}

/// A display that lets the cursor be locked lets it be confined too.
pub proof fn law_locked_needs_no_less(capabilities: Capabilities)
    requires
        capabilities.allows(true),
    ensures
        capabilities.allows(false),
{
}

// ---- Handlers ----

/// A registered handler is the one that events of its kind go to, whatever was
/// registered before.  Other windows and other kinds keep their handlers.
pub proof fn law_registration_is_routed<H>(
    before: Registry<H>,
    now: Registry<H>,
    change: RegistryChange<H>,
    kind: EventKind,
    window_id: u32,
    handler: H,
    other_kind: EventKind,
    other_id: u32,
)
    requires
        change.leads(&before, &now),
        change.registration() == Some((kind, window_id, handler)),
        other_kind != kind || other_id != window_id,
    ensures
        now.has(kind, window_id),
        now.handler(kind, window_id) == handler,
        now.has(other_kind, other_id) == before.has(other_kind, other_id),
        before.has(other_kind, other_id) ==> now.handler(other_kind, other_id) == before.handler(
            other_kind,
            other_id,
        ),
{
    assert(now.table(kind) == before.table(kind).registered(window_id, handler));
    assert(other_kind != kind ==> now.table(other_kind).handlers == before.table(
        other_kind,
    ).handlers);
}

/// Having events delivered stores no handler: where the host fails to install the
/// callback and goes no further, every window has the handlers it had.
pub proof fn law_delivery_stores_nothing<H>(
    before: Registry<H>,
    now: Registry<H>,
    kind: EventKind,
    any_kind: EventKind,
)
    requires
        (RegistryChange::Ensured { kind }).leads(&before, &now),
    ensures
        now.table(any_kind).handlers == before.table(any_kind).handlers,
        any_kind != kind ==> now.install(any_kind) == before.install(any_kind),
{
}

/// What is delivered once stays delivered, through any further changes.
proof fn lemma_delivery_lasts<H>(
    registries: Seq<Registry<H>>,
    changes: Seq<RegistryChange<H>>,
    kind: EventKind,
    first: int,
    later: int,
)
    requires
        is_history(registries, changes),
        0 <= first <= later < registries.len(),
        registries[first].table(kind).installed,
    ensures
        registries[later].table(kind).installed,
    decreases later - first,
{
    if first < later {
        lemma_delivery_lasts(registries, changes, kind, first, later - 1);
        let before = registries[later - 1];
        let now = registries[later];
        let change = changes[later - 1];
        assert(change.leads(&before, &now));
        assert(now.table(kind).installed == (before.table(kind).installed || change.needs(kind)));
    }
}

/// Through all the changes that a registry goes through, the backend callback of
/// a kind is asked for by the first change that needs it, also where that is the
/// close callback for a relative-motion handler, and never again.
pub proof fn law_callback_is_installed_once<H>(
    registries: Seq<Registry<H>>,
    changes: Seq<RegistryChange<H>>,
    kind: EventKind,
    needing: int,
    later: int,
)
    requires
        is_history(registries, changes),
        0 <= needing < later < registries.len(),
        changes[needing].needs(kind),
    ensures
        registries[later].install(kind) is None,
        later < changes.len() ==> !changes[later].asks_for(&registries[later], kind),
{
    let before = registries[needing];
    let now = registries[needing + 1];
    assert(changes[needing].leads(&before, &now));
    assert(now.table(kind).installed);
    lemma_delivery_lasts(registries, changes, kind, needing + 1, later);
}

/// Where a registry starts out without the backend callback of a kind, the first
/// change that needs it does ask for it.
pub proof fn law_callback_is_asked_for<H>(
    registries: Seq<Registry<H>>,
    changes: Seq<RegistryChange<H>>,
    kind: EventKind,
    needing: int,
)
    requires
        is_history(registries, changes),
        0 <= needing < changes.len(),
        registries[0].install(kind) is Some,
        changes[needing].needs(kind),
        forall|i: int| 0 <= i < needing ==> !(#[trigger] changes[i]).needs(kind),
    ensures
        changes[needing].asks_for(&registries[needing], kind),
{
    lemma_delivery_waits(registries, changes, kind, needing);
}

proof fn lemma_delivery_waits<H>(
    registries: Seq<Registry<H>>,
    changes: Seq<RegistryChange<H>>,
    kind: EventKind,
    reached: int,
)
    requires
        is_history(registries, changes),
        0 <= reached < registries.len(),
        !registries[0].table(kind).installed,
        forall|i: int| 0 <= i < reached ==> !(#[trigger] changes[i]).needs(kind),
    ensures
        !registries[reached].table(kind).installed,
    decreases reached,
{
    if reached > 0 {
        lemma_delivery_waits(registries, changes, kind, reached - 1);
        let before = registries[reached - 1];
        let now = registries[reached];
        let change = changes[reached - 1];
        assert(change.leads(&before, &now));
        assert(now.table(kind).installed == (before.table(kind).installed || change.needs(kind)));
    }
}

/// A well-formed registry stays so through any changes.
pub proof fn law_registry_stays_wf<H>(
    registries: Seq<Registry<H>>,
    changes: Seq<RegistryChange<H>>,
    reached: int,
)
    requires
        is_history(registries, changes),
        0 <= reached < registries.len(),
        registries[0].wf(),
    ensures
        registries[reached].wf(),
    decreases reached,
{
    if reached > 0 {
        law_registry_stays_wf(registries, changes, reached - 1);
        let before = registries[reached - 1];
        let now = registries[reached];
        let change = changes[reached - 1];
        assert(change.leads(&before, &now));
        assert forall|k: EventKind| #[trigger] now.table(k).wf() by {
            assert(before.table(k).wf());
        }
        let motion = EventKind::MouseMotion;
        assert(now.table(EventKind::CloseRequested).installed
            || before.table(motion).handlers.is_empty());
    }
}

/// Events that a window has a handler for are delivered, and where that is a
/// relative-motion handler so are close requests, which take it away again.
pub proof fn law_registered_is_delivered<H>(
    registry: Registry<H>,
    kind: EventKind,
    window_id: u32,
)
    requires
        registry.wf(),
        registry.has(kind, window_id),
    ensures
        registry.install(kind) is None,
        kind == EventKind::MouseMotion ==> registry.install(EventKind::CloseRequested) is None,
{
    assert(registry.table(kind).wf());
}

/// A close request goes to the window's handler, or is completed by the host
/// where there is none.  When it has been dealt with, the window has no
/// relative-motion handler, and every other handler is still there.
pub proof fn law_close_takes_motion_handler<H>(
    before: Registry<H>,
    dispatch: CloseDispatch<'_, H>,
    meanwhile: Registry<H>,
    now: Registry<H>,
    window_id: u32,
    other_kind: EventKind,
    other_id: u32,
)
    requires
        before.deals_with_close(window_id, dispatch, &meanwhile, &now),
        other_kind != EventKind::MouseMotion || other_id != window_id,
    ensures
        dispatch is Handle <==> before.has(EventKind::CloseRequested, window_id),
        dispatch matches CloseDispatch::Handle { handler, event } ==> {
            &&& *handler == before.handler(EventKind::CloseRequested, window_id)
            &&& event.window_id == window_id
        },
        dispatch matches CloseDispatch::CompleteClose { window_id: id } ==> id == window_id,
        !now.has(EventKind::MouseMotion, window_id),
        now.has(other_kind, other_id) == meanwhile.has(other_kind, other_id),
        meanwhile.has(other_kind, other_id) ==> now.handler(other_kind, other_id)
            == meanwhile.handler(other_kind, other_id),
        forall|k: EventKind| #[trigger] now.install(k) == meanwhile.install(k),
{
    let motion = EventKind::MouseMotion;
    assert(now.table(motion) == meanwhile.table(motion).unregistered(window_id));
    assert(other_kind != motion ==> now.table(other_kind) == meanwhile.table(other_kind));
    assert forall|k: EventKind| #[trigger] now.install(k) == meanwhile.install(k) by {
        assert(now.table(k).installed == meanwhile.table(k).installed);
    }
}

// ---- Movement ----

/// The state after a number of relative steps.
pub open spec fn after_steps<C>(state: AppState<C>, steps: Seq<(C, C)>) -> AppState<C>
    decreases steps.len(),
{
    if steps.len() == 0 {
        state
    } else {
        let (dx, dy) = steps.last();
        after_steps(state, steps.drop_last()).device_event(DeviceEvent::MouseMotion { dx, dy })
    }
}

/// Relative steps are dispatched completely and in order, to a locked window
/// that has the focus and the cursor; in any other situation they are lost.
pub proof fn law_steps_reach_locked_window<C>(state: AppState<C>, steps: Seq<(C, C)>)
    ensures
        ({
            let now = after_steps(state, steps);
            &&& match locked_window(state.grab) {
                Some(window_id) => if state.may_grab(window_id) {
                    now == (AppState { motion: state.motion + steps, ..state })
                } else {
                    now == state
                },
                None => now == state,
            }
        }),
    decreases steps.len(),
{
    if steps.len() == 0 {
        assert(state.motion + steps =~= state.motion);
    } else {
        law_steps_reach_locked_window(state, steps.drop_last());
        assert(steps =~= steps.drop_last().push(steps.last()));
        assert(state.motion + steps =~= (state.motion + steps.drop_last()).push(steps.last()));
    }
}

/// A well-formed application without a locked window dispatches no relative
/// motion, now or after any number of steps.
pub proof fn law_no_lock_no_motion<C>(state: AppState<C>, steps: Seq<(C, C)>)
    requires
        locked_window(state.grab) is None,
    ensures
        after_steps(state, steps).flush_effects() == Seq::<Effect<C>>::empty(),
        state.wf() ==> after_steps(state, steps).motion.len() == 0,
{
    law_steps_reach_locked_window(state, steps);
}

/// Whatever motion is there when a window event comes is dispatched before
/// anything else, and none is left.
pub proof fn law_motion_comes_first<C>(
    state: AppState<C>,
    native_id: u64,
    window_id: u32,
    event: WindowEvent<C>,
)
    requires
        state.laufey_id(native_id) is Some,
        locked_window(state.grab) == Some(window_id),
        state.motion.len() > 0,
    ensures
        ({
            let outcome = state.window_event(native_id, event);
            let steps = state.motion.len() as int;
            &&& outcome.state.motion.len() == 0
            &&& outcome.effects.len() > steps
            &&& outcome.effects.take(steps) == motion_deltas(state.motion)
            &&& outcome.effects[steps] == Effect::<C>::DispatchMouseMotion {
                window_id,
                modifiers: state.modifiers(window_id),
            }
        }),
{
    let outcome = state.window_event(native_id, event);
    assert(outcome.effects.take(state.motion.len() as int) =~= motion_deltas(state.motion));
}

/// How a host deals with coordinates.
#[verifier::reject_recursive_types(C)]
pub struct Arithmetic<C> {
    /// What steps add up to.
    pub sum: spec_fn(Seq<(C, C)>) -> (C, C),
    /// Whether a sum counts as zero.
    pub is_zero: spec_fn((C, C)) -> bool,
}

impl<C> Arithmetic<C> {
    /// No steps add up to zero.  Nothing else is known: sums may be rounded, and
    /// steps may cancel each other out.
    pub open spec fn wf(self) -> bool {
        (self.is_zero)((self.sum)(seq![]))
    }
}

/// The steps that a host has collected after these effects.
pub open spec fn collected<C>(effects: Seq<Effect<C>>) -> Seq<(C, C)>
    decreases effects.len(),
{
    if effects.len() == 0 {
        seq![]
    } else {
        let earlier = collected(effects.drop_last());
        match effects.last() {
            Effect::MotionDelta { dx, dy } => earlier.push((dx, dy)),
            Effect::DispatchMouseMotion { .. } => seq![],
            _ => earlier,
        }
    }
}

/// All that a host dispatches of relative motion on account of these effects.
pub open spec fn dispatches<C>(
    effects: Seq<Effect<C>>,
    arithmetic: Arithmetic<C>,
    attached: bool,
) -> Seq<MotionDispatch<C>>
    decreases effects.len(),
{
    if effects.len() == 0 {
        seq![]
    } else {
        let earlier = dispatches(effects.drop_last(), arithmetic, attached);
        match effects.last() {
            Effect::DispatchMouseMotion { window_id, modifiers } => {
                let delta = (arithmetic.sum)(collected(effects.drop_last()));
                let is_zero = (arithmetic.is_zero)(delta);
                match dispatched_motion(window_id, modifiers, delta, is_zero, attached) {
                    Some(dispatch) => earlier.push(dispatch),
                    None => earlier,
                }
            },
            _ => earlier,
        }
    }
}

/// What a flush is to dispatch: to the locked window, if there is one, the sum of
/// all that was collected, if that is not zero.
pub open spec fn flushed<C>(
    state: AppState<C>,
    arithmetic: Arithmetic<C>,
    attached: bool,
) -> Seq<MotionDispatch<C>> {
    let delta = (arithmetic.sum)(state.motion);
    match locked_window(state.grab) {
        Some(window_id) => if (arithmetic.is_zero)(delta) || !attached {
            seq![]
        } else {
            seq![
                MotionDispatch {
                    window_id,
                    delta_x: delta.0,
                    delta_y: delta.1,
                    modifiers: state.modifiers(window_id),
                },
            ]
        },
        None => seq![],
    }
}

proof fn lemma_collects_deltas<C>(
    motion: Seq<(C, C)>,
    arithmetic: Arithmetic<C>,
    attached: bool,
)
    ensures
        collected(motion_deltas(motion)) == motion,
        dispatches(motion_deltas(motion), arithmetic, attached) == Seq::<
            MotionDispatch<C>,
        >::empty(),
    decreases motion.len(),
{
    if motion.len() > 0 {
        lemma_collects_deltas(motion.drop_last(), arithmetic, attached);
        assert(motion_deltas(motion).drop_last() =~= motion_deltas(motion.drop_last()));
        assert(motion =~= motion.drop_last().push(motion.last()));
    }
}

/// Whatever way the host adds steps up, a flush dispatches at most one motion:
/// the sum of all steps since the last flush, with the modifiers of the window,
/// to the locked window, exactly if there is one, the sum is not zero and there
/// is a backend.  The host has nothing left over then, and a second flush
/// dispatches nothing.
pub proof fn law_flush_dispatches_once<C>(
    state: AppState<C>,
    arithmetic: Arithmetic<C>,
    attached: bool,
)
    requires
        arithmetic.wf(),
    ensures
        dispatches(state.flush_effects(), arithmetic, attached) == flushed(
            state,
            arithmetic,
            attached,
        ),
        collected(state.flush_effects()) == Seq::<(C, C)>::empty(),
        dispatches(state.without_motion().flush_effects(), arithmetic, attached) == Seq::<
            MotionDispatch<C>,
        >::empty(),
{
    lemma_collects_deltas(state.motion, arithmetic, attached);
    let effects = state.flush_effects();
    if state.motion.len() == 0 {
        assert(state.motion =~= seq![]);
    } else if locked_window(state.grab) is Some {
        assert(effects.drop_last() =~= motion_deltas(state.motion));
    }
}

/// None of the effects has to do with relative motion.
spec fn motionless<C>(effects: Seq<Effect<C>>) -> bool {
    forall|i: int|
        #![trigger effects[i]]
        0 <= i < effects.len() ==> {
            &&& effects[i] !is MotionDelta
            &&& effects[i] !is DispatchMouseMotion
        }
}

proof fn lemma_motionless<C>(
    before: Seq<Effect<C>>,
    effects: Seq<Effect<C>>,
    after: Seq<Effect<C>>,
    arithmetic: Arithmetic<C>,
    attached: bool,
)
    requires
        motionless(before),
        motionless(after),
    ensures
        collected(before + effects + after) == collected(effects),
        dispatches(before + effects + after, arithmetic, attached) == dispatches(
            effects,
            arithmetic,
            attached,
        ),
    decreases before.len() + effects.len() + after.len(),
{
    let all = before + effects + after;
    if after.len() > 0 {
        assert(all.drop_last() =~= before + effects + after.drop_last());
        assert(all.last() == after[after.len() - 1]);
        lemma_motionless(before, effects, after.drop_last(), arithmetic, attached);
    } else if effects.len() > 0 {
        assert(all.drop_last() =~= before + effects.drop_last() + after);
        assert(all.last() == effects.last());
        lemma_motionless(before, effects.drop_last(), after, arithmetic, attached);
    } else if before.len() > 0 {
        assert(all.drop_last() =~= before.drop_last() + effects + after);
        assert(all.last() == before[before.len() - 1]);
        lemma_motionless(before.drop_last(), effects, after, arithmetic, attached);
    }
}

proof fn lemma_event_motionless<C>(state: AppState<C>, window_id: u32, event: WindowEvent<C>)
    ensures
        motionless(state.open_window_event(window_id, event).effects),
{
}

proof fn lemma_request_motionless<C>(state: AppState<C>, request: CommonEvent)
    ensures
        motionless(state.requested(request).effects),
{
}

/// An event of a known window dispatches what a flush dispatches, and no more.
pub proof fn law_window_event_flushes_once<C>(
    state: AppState<C>,
    native_id: u64,
    event: WindowEvent<C>,
    arithmetic: Arithmetic<C>,
    attached: bool,
)
    requires
        arithmetic.wf(),
        state.laufey_id(native_id) is Some,
    ensures
        dispatches(state.window_event(native_id, event).effects, arithmetic, attached) == flushed(
            state,
            arithmetic,
            attached,
        ),
{
    let window_id = state.native_ids[native_id];
    let quiet = state.without_motion();
    let none: Seq<Effect<C>> = seq![];
    let rest = if quiet.is_open(window_id) {
        quiet.open_window_event(window_id, event).effects
    } else {
        none
    };
    law_flush_dispatches_once(state, arithmetic, attached);
    lemma_event_motionless(quiet, window_id, event);
    lemma_motionless(none, state.flush_effects(), rest, arithmetic, attached);
    assert(none + state.flush_effects() + rest =~= state.window_event(native_id, event).effects);
}

/// A request of the runtime dispatches what a flush dispatches, and no more.
pub proof fn law_user_event_flushes_once<C>(
    state: AppState<C>,
    request: CommonEvent,
    arithmetic: Arithmetic<C>,
    attached: bool,
)
    requires
        arithmetic.wf(),
    ensures
        dispatches(state.user_event(request).effects, arithmetic, attached) == flushed(
            state,
            arithmetic,
            attached,
        ),
{
    let none: Seq<Effect<C>> = seq![];
    let rest = state.without_motion().requested(request).effects;
    law_flush_dispatches_once(state, arithmetic, attached);
    lemma_request_motionless(state.without_motion(), request);
    lemma_motionless(none, state.flush_effects(), rest, arithmetic, attached);
    assert(none + state.flush_effects() + rest =~= state.user_event(request).effects);
}

/// The end of the retries before a wait dispatches what a flush dispatches, and
/// no more.
pub proof fn law_wait_flushes_once<C>(
    state: AppState<C>,
    arithmetic: Arithmetic<C>,
    attached: bool,
)
    requires
        arithmetic.wf(),
    ensures
        dispatches(state.wait_finished().effects, arithmetic, attached) == flushed(
            state,
            arithmetic,
            attached,
        ),
{
    let waited = state.wait_finished().effects;
    let last = seq![Effect::<C>::PollMenuEvents, Effect::<C>::PollTrayEvents];
    law_flush_dispatches_once(state, arithmetic, attached);
    lemma_motionless(seq![waited[0]], state.flush_effects(), last, arithmetic, attached);
    assert(seq![waited[0]] + state.flush_effects() + last =~= waited);
}

proof fn lemma_motionless_concat<C>(first: Seq<Effect<C>>, second: Seq<Effect<C>>)
    requires
        motionless(first),
        motionless(second),
    ensures
        motionless(first + second),
{
}

proof fn lemma_release_motionless<C>(state: AppState<C>, window_id: u32, then: AfterRelease)
    ensures
        motionless(state.release_live(window_id, then).effects),
        motionless(state.release_pending(window_id, then).effects),
        motionless(state.release(window_id, then).effects),
{
}

proof fn lemma_acquire_motionless<C>(
    state: AppState<C>,
    window_id: u32,
    mode: AcceptedCursorGrabMode,
    supported: bool,
)
    ensures
        motionless(state.acquire_supported(window_id, mode, supported).effects),
        motionless(state.acquire_checked(window_id, mode).effects),
        motionless(state.acquire_pending(window_id, mode).effects),
{
    if let Some(held) = state.grab {
        lemma_release_motionless(state, held.window_id, AfterRelease::Acquire { window_id, mode });
    }
    let quiet = state.without_orphan();
    if let Some(held) = quiet.grab {
        lemma_release_motionless(quiet, held.window_id, AfterRelease::Acquire { window_id, mode });
    }
}

proof fn lemma_forced_motionless<C>(state: AppState<C>, window_id: u32, then: AfterForce)
    ensures
        motionless(state.forced(then).effects),
        motionless(state.force_release(window_id, then).effects),
{
}

proof fn lemma_answer_motionless<C>(state: AppState<C>, then: Resume, answer: bool)
    requires
        !(then is WaitProcess || then is WaitPending),
    ensures
        motionless(state.resume(then, answer).effects),
{
    match then {
        Resume::ReleaseProcess { window_id, then } => {
            lemma_release_motionless(state.process_answered(answer), window_id, then);
        },
        Resume::ReleasePending { window_id, target, then } => {
            let now = state.pending_answered(answer);
            lemma_release_motionless(now, window_id, then);
            lemma_motionless_concat(
                state.pending_effects(target, answer),
                (if now.releasing(window_id) {
                    now.release_finished(false, then)
                } else {
                    now.release_live(window_id, then)
                }).effects,
            );
        },
        Resume::AcquireProcess { window_id, mode } => {
            lemma_acquire_motionless(state.process_answered(answer), window_id, mode, true);
        },
        Resume::AcquirePending { window_id, mode, target } => {
            let now = state.pending_answered(answer);
            lemma_acquire_motionless(now, window_id, mode, true);
            lemma_motionless_concat(
                state.pending_effects(target, answer),
                now.acquire_checked(window_id, mode).effects,
            );
        },
        Resume::ForcePending { target, then } => {
            let now = state.pending_answered(answer).without_motion();
            lemma_forced_motionless(now, 0, then);
            lemma_motionless_concat(
                state.pending_effects(target, answer),
                now.forced(then).effects,
            );
        },
        Resume::ForceLive { window_id, then } => {
            let now = state.live_answered(window_id, answer).without_motion();
            lemma_forced_motionless(now, window_id, then);
            lemma_motionless_concat(state.live_effects(window_id), now.forced(then).effects);
        },
        Resume::CloseDecision { window_id } => {
            lemma_forced_motionless(state, window_id, AfterForce::Close { window_id });
        },
        _ => {},
    }
}

/// The answer to a native call dispatches no motion, unless it ends the retries
/// before a wait, which ends with a flush.
pub proof fn law_answer_does_not_flush<C>(
    state: AppState<C>,
    then: Resume,
    answer: bool,
    arithmetic: Arithmetic<C>,
    attached: bool,
)
    requires
        !(then is WaitProcess || then is WaitPending),
    ensures
        dispatches(state.resume(then, answer).effects, arithmetic, attached) == Seq::<
            MotionDispatch<C>,
        >::empty(),
{
    let none: Seq<Effect<C>> = seq![];
    let effects = state.resume(then, answer).effects;
    lemma_answer_motionless(state, then, answer);
    lemma_motionless(none, none, effects, arithmetic, attached);
    assert(none + none + effects =~= effects);
}

/// Absolute movement is reported for every window but a locked one, and in any
/// case shows that the cursor is inside.
pub proof fn law_absolute_movement_unless_locked<C>(
    state: AppState<C>,
    native_id: u64,
    window_id: u32,
    x: C,
    y: C,
)
    requires
        state.laufey_id(native_id) == Some(window_id),
        state.is_open(window_id),
    ensures
        ({
            let outcome = state.window_event(native_id, WindowEvent::CursorMoved { x, y });
            let modifiers = state.modifiers(window_id);
            &&& outcome.next == Next::Done
            &&& outcome.state.is_open(window_id)
            &&& outcome.state.windows[window_id].cursor_inside
            &&& outcome.effects.contains(
                Effect::DispatchMouseMove { window_id, x, y, modifiers },
            ) == (locked_window(state.grab) != Some(window_id))
        }),
{
    let outcome = state.window_event(native_id, WindowEvent::CursorMoved { x, y });
    let modifiers = state.modifiers(window_id);
    let moved = Effect::DispatchMouseMove { window_id, x, y, modifiers };
    if locked_window(state.grab) != Some(window_id) {
        assert(outcome.effects.last() == moved);
    }
}

/// Events of a native window that is not one of ours change nothing and lead to
/// nothing.
pub proof fn law_unknown_window_is_ignored<C>(
    state: AppState<C>,
    native_id: u64,
    event: WindowEvent<C>,
)
    requires
        state.laufey_id(native_id) is None,
    ensures
        state.window_event(native_id, event) == Outcome::done(state, seq![]),
{
}

// ---- Grabbing ----

/// A native window is only ever asked to take a grab while it is open, has the
/// focus and the cursor, lives on a display that allows the grab, no other
/// grab is held, and none is still to be released.
pub proof fn law_grab_calls_are_allowed<C>(outcome: Outcome<C>)
    requires
        outcome.wf(),
    ensures
        outcome.next matches Next::Call {
            call: NativeCall::SetCursorGrab { target, mode },
            then,
        } ==> mode != NativeGrabMode::Free ==> {
            &&& target matches GrabTarget::Live { window_id } && outcome.state.may_grab(window_id)
            &&& outcome.state.capabilities matches Some(known) && known.allows(
                mode == NativeGrabMode::Locked,
            )
            &&& outcome.state.grab is None
            &&& !outcome.state.outstanding()
        },
{
}

} // verus!
