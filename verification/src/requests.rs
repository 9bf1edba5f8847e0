//! What a request to change the grab comes to, call by call.
//!
//! A request is settled by a host whose answer to the call number `n` is
//! `answers(n)`.  The laws start counting at an arbitrary `asked`, so that what is
//! left of one request can be compared with another request.
use vstd::prelude::*;
use crate::cursor::AcceptedCursorGrab;
use crate::cursor::AcceptedCursorGrabMode;
use crate::cursor::PendingPointerUngrab;
use crate::cursor::LAUFEY_CURSOR_GRAB_CONFINED;
use crate::cursor::LAUFEY_CURSOR_GRAB_LOCKED;
use crate::cursor::LAUFEY_CURSOR_GRAB_NONE;
use crate::model::AppState;
use crate::model::Outcome;
use crate::runs::calls_made;
use crate::runs::settle;
use crate::step::Effect;
use crate::step::GrabTarget;
use crate::step::NativeCall;
use crate::step::NativeGrabMode;
use crate::step::Next;
use crate::wayland::Capabilities;

verus! {

// ---- Taking the grab ----

/// A window with the focus and the cursor, on a display that lets the cursor be
/// locked, asks for a lock while nothing is held or still to be released.  It is
/// asked to lock, and if it refuses that, to confine.  Either way of accepting
/// gives it a locked grab, hides the cursor and is reported as a success.  Only
/// refusing both is a failure, and leaves no grab.
pub proof fn law_lock_request<C>(
    state: AppState<C>,
    window_id: u32,
    answers: spec_fn(nat) -> bool,
    display: Capabilities,
    known: Capabilities,
    asked: nat,
)
    requires
        state.wf(),
        state.grab is None,
        state.pending is None,
        !state.process_ungrab,
        state.focused == Some(window_id),
        state.windows.contains_key(window_id),
        state.windows[window_id].cursor_inside,
        state.capabilities == Some(known) || (state.capabilities is None && known == display),
        known == Capabilities::NotWayland || known == (Capabilities::Wayland {
            pointer_constraints: true,
            relative_pointer: true,
        }),
    ensures
        ({
            let request = state.set_cursor_grab(window_id, LAUFEY_CURSOR_GRAB_LOCKED);
            let end = settle(request, answers, display, asked);
            let target = GrabTarget::Live { window_id };
            let lock = NativeCall::SetCursorGrab { target, mode: NativeGrabMode::Locked };
            let confine = NativeCall::SetCursorGrab { target, mode: NativeGrabMode::Confined };
            let hide = Effect::<C>::SetCursorVisible { target, visible: false };
            let locked = AcceptedCursorGrab { window_id, mode: AcceptedCursorGrabMode::Locked };
            &&& end.next == Next::Done
            &&& answers(asked) ==> calls_made(request, answers, display, asked) == seq![lock]
            &&& !answers(asked) ==> calls_made(request, answers, display, asked) == seq![
                lock,
                confine,
            ]
            &&& answers(asked) || answers(asked + 1) ==> {
                &&& end.effects == seq![hide, Effect::<C>::CompleteCursorGrab { success: true }]
                &&& end.state == (AppState {
                    grab: Some(locked),
                    capabilities: Some(known),
                    ..state
                })
            }
            &&& !answers(asked) && !answers(asked + 1) ==> {
                &&& end.effects == seq![Effect::<C>::CompleteCursorGrab { success: false }]
                &&& end.state == (AppState { capabilities: Some(known), ..state })
            }
        }),
{
    reveal_with_fuel(settle, 4);
    reveal_with_fuel(calls_made, 4);
    assert(state.motion =~= seq![]);
    assert(state.without_orphan() =~= state);
}

/// The same for confining: there is one call, its answer is what is reported,
/// and the cursor stays visible.
pub proof fn law_confinement_request<C>(
    state: AppState<C>,
    window_id: u32,
    answers: spec_fn(nat) -> bool,
    display: Capabilities,
    known: Capabilities,
    asked: nat,
)
    requires
        state.wf(),
        state.grab is None,
        state.pending is None,
        !state.process_ungrab,
        state.focused == Some(window_id),
        state.windows.contains_key(window_id),
        state.windows[window_id].cursor_inside,
        state.capabilities == Some(known) || (state.capabilities is None && known == display),
        known == Capabilities::NotWayland || (known is Wayland && known->pointer_constraints),
    ensures
        ({
            let request = state.set_cursor_grab(window_id, LAUFEY_CURSOR_GRAB_CONFINED);
            let end = settle(request, answers, display, asked);
            let target = GrabTarget::Live { window_id };
            let show = Effect::<C>::SetCursorVisible { target, visible: true };
            let confined = AcceptedCursorGrab { window_id, mode: AcceptedCursorGrabMode::Confined };
            &&& end.next == Next::Done
            &&& calls_made(request, answers, display, asked) == seq![
                NativeCall::SetCursorGrab { target, mode: NativeGrabMode::Confined },
            ]
            &&& answers(asked) ==> {
                &&& end.effects == seq![show, Effect::<C>::CompleteCursorGrab { success: true }]
                &&& end.state == (AppState {
                    grab: Some(confined),
                    capabilities: Some(known),
                    ..state
                })
            }
            &&& !answers(asked) ==> {
                &&& end.effects == seq![Effect::<C>::CompleteCursorGrab { success: false }]
                &&& end.state == (AppState { capabilities: Some(known), ..state })
            }
        }),
{
    reveal_with_fuel(settle, 4);
    reveal_with_fuel(calls_made, 4);
    assert(state.motion =~= seq![]);
    assert(state.without_orphan() =~= state);
}

/// A window that is not open, not the focused one, or does not have the cursor
/// inside is refused a grab without a call, and without asking the display.
/// Whatever grab is held stays.
pub proof fn law_unentitled_request<C>(
    state: AppState<C>,
    window_id: u32,
    code: i32,
    answers: spec_fn(nat) -> bool,
    display: Capabilities,
    asked: nat,
)
    requires
        state.pending is None,
        !state.process_ungrab,
        code == LAUFEY_CURSOR_GRAB_LOCKED || code == LAUFEY_CURSOR_GRAB_CONFINED,
        state.focused != Some(window_id) || !state.windows.contains_key(window_id)
            || !state.windows[window_id].cursor_inside,
    ensures
        ({
            let request = state.set_cursor_grab(window_id, code);
            let end = settle(request, answers, display, asked);
            &&& end.next == Next::Done
            &&& end.state == state
            &&& end.effects == seq![Effect::<C>::CompleteCursorGrab { success: false }]
            &&& calls_made(request, answers, display, asked).len() == 0
        }),
{
    reveal_with_fuel(settle, 2);
    reveal_with_fuel(calls_made, 2);
    assert(state.without_orphan() =~= state);
}

/// A display that does not allow the grab has it refused without a call.  What
/// the display allows is remembered.
pub proof fn law_disallowed_request<C>(
    state: AppState<C>,
    window_id: u32,
    code: i32,
    answers: spec_fn(nat) -> bool,
    display: Capabilities,
    known: Capabilities,
    asked: nat,
)
    requires
        state.pending is None,
        !state.process_ungrab,
        state.focused == Some(window_id),
        state.windows.contains_key(window_id),
        state.windows[window_id].cursor_inside,
        code == LAUFEY_CURSOR_GRAB_LOCKED || code == LAUFEY_CURSOR_GRAB_CONFINED,
        state.capabilities == Some(known) || (state.capabilities is None && known == display),
        known == Capabilities::Unavailable || (known is Wayland && (!known->pointer_constraints || (
        code == LAUFEY_CURSOR_GRAB_LOCKED && !known->relative_pointer))),
    ensures
        ({
            let request = state.set_cursor_grab(window_id, code);
            let end = settle(request, answers, display, asked);
            &&& end.next == Next::Done
            &&& end.state == (AppState { capabilities: Some(known), ..state })
            &&& end.effects == seq![Effect::<C>::CompleteCursorGrab { success: false }]
            &&& calls_made(request, answers, display, asked).len() == 0
        }),
{
    reveal_with_fuel(settle, 3);
    reveal_with_fuel(calls_made, 3);
    assert(state.without_orphan() =~= state);
}

/// Asking again for the grab that is held is a success without a call.
pub proof fn law_repeated_request<C>(
    state: AppState<C>,
    window_id: u32,
    mode: AcceptedCursorGrabMode,
    answers: spec_fn(nat) -> bool,
    display: Capabilities,
    known: Capabilities,
    asked: nat,
)
    requires
        state.wf(),
        state.grab == Some(AcceptedCursorGrab { window_id, mode }),
        state.focused == Some(window_id),
        state.windows[window_id].cursor_inside,
        state.capabilities == Some(known) || (state.capabilities is None && known == display),
        known == Capabilities::NotWayland || (known is Wayland && known->pointer_constraints && (
        mode == AcceptedCursorGrabMode::Confined || known->relative_pointer)),
    ensures
        ({
            let code = match mode {
                AcceptedCursorGrabMode::Confined => LAUFEY_CURSOR_GRAB_CONFINED,
                AcceptedCursorGrabMode::Locked => LAUFEY_CURSOR_GRAB_LOCKED,
            };
            let request = state.set_cursor_grab(window_id, code);
            let end = settle(request, answers, display, asked);
            &&& end.next == Next::Done
            &&& end.state == (AppState { capabilities: Some(known), ..state })
            &&& end.effects == seq![Effect::<C>::CompleteCursorGrab { success: true }]
            &&& calls_made(request, answers, display, asked).len() == 0
        }),
{
    reveal_with_fuel(settle, 3);
    reveal_with_fuel(calls_made, 3);
    assert(state.without_orphan() =~= state);
}

/// A request for another grab than the one that is held has that one given up
/// first.  Where that fails the request fails, and the old grab is to be released
/// later.  Where it works, all goes on as if nothing had been held.
pub proof fn law_replacing_request<C>(
    state: AppState<C>,
    held: AcceptedCursorGrab,
    window_id: u32,
    mode: AcceptedCursorGrabMode,
    answers: spec_fn(nat) -> bool,
    display: Capabilities,
    known: Capabilities,
    asked: nat,
)
    requires
        state.wf(),
        state.grab == Some(held),
        held.window_id != window_id || held.mode != mode,
        state.focused == Some(window_id),
        state.windows.contains_key(window_id),
        state.windows[window_id].cursor_inside,
        state.capabilities == Some(known) || (state.capabilities is None && known == display),
        known == Capabilities::NotWayland || (known is Wayland && known->pointer_constraints && (
        mode == AcceptedCursorGrabMode::Confined || known->relative_pointer)),
    ensures
        ({
            let code = match mode {
                AcceptedCursorGrabMode::Confined => LAUFEY_CURSOR_GRAB_CONFINED,
                AcceptedCursorGrabMode::Locked => LAUFEY_CURSOR_GRAB_LOCKED,
            };
            let request = state.set_cursor_grab(window_id, code);
            let end = settle(request, answers, display, asked);
            let calls = calls_made(request, answers, display, asked);
            let target = GrabTarget::Live { window_id: held.window_id };
            let free = NativeCall::SetCursorGrab { target, mode: NativeGrabMode::Free };
            let show = Effect::<C>::SetCursorVisible { target, visible: true };
            let vacated = AppState {
                grab: None,
                motion: seq![],
                capabilities: Some(known),
                ..state
            };
            let rest = vacated.set_cursor_grab(window_id, code);
            &&& answers(asked) ==> {
                &&& calls == seq![free] + calls_made(rest, answers, display, asked + 1)
                &&& end == settle(rest, answers, display, asked + 1).after(seq![show])
            }
            &&& !answers(asked) ==> {
                &&& end.next == Next::Done
                &&& calls == seq![free]
                &&& end.effects == seq![show, Effect::<C>::CompleteCursorGrab { success: false }]
                &&& end.state == (AppState {
                    pending: Some(
                        PendingPointerUngrab { window_id: held.window_id, detached: false },
                    ),
                    ..vacated
                })
            }
        }),
{
    let code = match mode {
        AcceptedCursorGrabMode::Confined => LAUFEY_CURSOR_GRAB_CONFINED,
        AcceptedCursorGrabMode::Locked => LAUFEY_CURSOR_GRAB_LOCKED,
    };
    let show = Effect::<C>::SetCursorVisible {
        target: GrabTarget::Live { window_id: held.window_id },
        visible: true,
    };
    let vacated = AppState { grab: None, motion: seq![], capabilities: Some(known), ..state };
    let rest = vacated.set_cursor_grab(window_id, code);
    reveal_with_fuel(settle, 3);
    reveal_with_fuel(calls_made, 3);
    assert(state.without_orphan() =~= state);
    assert(vacated.without_orphan() =~= vacated);
    let kept = AppState { motion: seq![], capabilities: Some(known), ..state };
    assert(kept.live_answered(held.window_id, true) =~= vacated);
    if answers(asked) {
        crate::runs::lemma_settles_after(rest, seq![show], answers, display, asked + 1);
        assert(kept.live_effects(held.window_id) =~= seq![show]);
        assert(rest.after(seq![show]) =~= vacated.take_grab(window_id, mode).after(seq![show]));
        let step = kept.release_live_answered(
            held.window_id,
            crate::step::AfterRelease::Acquire { window_id, mode },
            true,
        );
        assert(step =~= rest.after(seq![show]));
        assert(step.after(seq![]) =~= step);
    }
}

// ---- What is still to be released goes first ----

/// While a process-wide grab is still to be released, that is tried first.  Where
/// it fails the request fails, and changes nothing.  Where it works, all goes on
/// as if nothing had been left.
pub proof fn law_request_retries_process<C>(
    state: AppState<C>,
    window_id: u32,
    code: i32,
    answers: spec_fn(nat) -> bool,
    display: Capabilities,
    asked: nat,
)
    requires
        state.wf(),
        state.process_ungrab,
        code == LAUFEY_CURSOR_GRAB_LOCKED || code == LAUFEY_CURSOR_GRAB_CONFINED || code
            == LAUFEY_CURSOR_GRAB_NONE,
    ensures
        ({
            let request = state.set_cursor_grab(window_id, code);
            let end = settle(request, answers, display, asked);
            let calls = calls_made(request, answers, display, asked);
            let rest = (AppState { process_ungrab: false, ..state }).set_cursor_grab(
                window_id,
                code,
            );
            &&& answers(asked) ==> {
                &&& calls == seq![NativeCall::ReleaseProcessGrab] + calls_made(
                    rest,
                    answers,
                    display,
                    asked + 1,
                )
                &&& end == settle(rest, answers, display, asked + 1)
            }
            &&& !answers(asked) ==> {
                &&& end.next == Next::Done
                &&& calls == seq![NativeCall::ReleaseProcessGrab]
                &&& end.state == state
                &&& end.effects == seq![Effect::<C>::CompleteCursorGrab { success: false }]
            }
        }),
{
    let freed = AppState { process_ungrab: false, ..state };
    let rest = freed.set_cursor_grab(window_id, code);
    let request = state.set_cursor_grab(window_id, code);
    reveal_with_fuel(settle, 2);
    reveal_with_fuel(calls_made, 2);
    assert(state.motion =~= seq![]);
    assert(state.without_motion() =~= state);
    assert(freed.without_motion() =~= freed);
    assert(state.process_answered(true) =~= freed);
    assert(state.process_answered(false) =~= state);
    assert(state.without_orphan() =~= state);
    assert(freed.without_orphan() =~= freed);
    if let Next::Call { call, then } = request.next {
        let step = request.state.resume(then, answers(asked));
        assert(step.after(request.effects) =~= step);
        if answers(asked) {
            assert(step =~= rest);
        }
    }
}

/// While a window's grab is still to be released, a request for a grab, or to
/// give up that window's grab, has it tried first, and the cursor shown.  Where
/// it fails the request fails, and changes nothing.  Where it works, a closed
/// window that was kept for it goes away, and all goes on as if nothing had been
/// left.
pub proof fn law_request_retries_window<C>(
    state: AppState<C>,
    left: PendingPointerUngrab,
    window_id: u32,
    code: i32,
    answers: spec_fn(nat) -> bool,
    display: Capabilities,
    asked: nat,
)
    requires
        state.wf(),
        state.pending == Some(left),
        code == LAUFEY_CURSOR_GRAB_LOCKED || code == LAUFEY_CURSOR_GRAB_CONFINED || (code
            == LAUFEY_CURSOR_GRAB_NONE && left.window_id == window_id),
    ensures
        ({
            let request = state.set_cursor_grab(window_id, code);
            let end = settle(request, answers, display, asked);
            let calls = calls_made(request, answers, display, asked);
            let target = if left.detached {
                GrabTarget::Detached
            } else {
                GrabTarget::Live { window_id: left.window_id }
            };
            let free = NativeCall::SetCursorGrab { target, mode: NativeGrabMode::Free };
            let show = Effect::<C>::SetCursorVisible { target, visible: true };
            let gone = if left.detached {
                seq![show, Effect::<C>::DropDetached]
            } else {
                seq![show]
            };
            let rest = (AppState { pending: None, ..state }).set_cursor_grab(window_id, code);
            &&& answers(asked) ==> {
                &&& calls == seq![free] + calls_made(rest, answers, display, asked + 1)
                &&& end == settle(rest, answers, display, asked + 1).after(gone)
            }
            &&& !answers(asked) ==> {
                &&& end.next == Next::Done
                &&& calls == seq![free]
                &&& end.state == state
                &&& end.effects == seq![show, Effect::<C>::CompleteCursorGrab { success: false }]
            }
        }),
{
    let target = if left.detached {
        GrabTarget::Detached
    } else {
        GrabTarget::Live { window_id: left.window_id }
    };
    let show = Effect::<C>::SetCursorVisible { target, visible: true };
    let gone = if left.detached {
        seq![show, Effect::<C>::DropDetached]
    } else {
        seq![show]
    };
    let freed = AppState { pending: None, ..state };
    let rest = freed.set_cursor_grab(window_id, code);
    let request = state.set_cursor_grab(window_id, code);
    reveal_with_fuel(settle, 2);
    reveal_with_fuel(calls_made, 2);
    assert(state.motion =~= seq![]);
    assert(state.without_motion() =~= state);
    assert(freed.without_motion() =~= freed);
    assert(freed.without_orphan() =~= freed);
    assert(state.pending_answered(true) =~= freed);
    assert(state.pending_answered(false) =~= state);
    assert(state.pending_effects(target, true) =~= gone);
    assert(state.pending_effects(target, false) =~= seq![show]);
    crate::runs::lemma_settles_after(rest, gone, answers, display, asked + 1);
    if let Next::Call { call, then } = request.next {
        let step = request.state.resume(then, answers(asked));
        assert(step.after(request.effects) =~= step);
        if answers(asked) {
            assert(step =~= rest.after(gone));
            lemma_calls_after(rest, gone, answers, display, asked + 1);
        }
    }
}

/// Effects that come before do not change the calls.
pub proof fn lemma_calls_after<C>(
    outcome: Outcome<C>,
    earlier: Seq<Effect<C>>,
    answers: spec_fn(nat) -> bool,
    display: Capabilities,
    asked: nat,
)
    ensures
        calls_made(outcome.after(earlier), answers, display, asked) == calls_made(
            outcome,
            answers,
            display,
            asked,
        ),
{
    reveal_with_fuel(calls_made, 2);
}

// ---- Giving the grab up ----

/// A window that is asked to give up the grab it holds is freed by one call.  The
/// cursor is shown whatever the answer is, the grab is gone, and motion that was
/// not dispatched is forgotten.  The answer is what is reported; if it is no, the
/// release is to be tried again.
pub proof fn law_release_of_held_grab<C>(
    state: AppState<C>,
    held: AcceptedCursorGrab,
    answers: spec_fn(nat) -> bool,
    display: Capabilities,
    asked: nat,
)
    requires
        state.wf(),
        state.grab == Some(held),
    ensures
        ({
            let request = state.set_cursor_grab(held.window_id, LAUFEY_CURSOR_GRAB_NONE);
            let end = settle(request, answers, display, asked);
            let target = GrabTarget::Live { window_id: held.window_id };
            &&& end.next == Next::Done
            &&& calls_made(request, answers, display, asked) == seq![
                NativeCall::SetCursorGrab { target, mode: NativeGrabMode::Free },
            ]
            &&& end.effects == seq![
                Effect::<C>::SetCursorVisible { target, visible: true },
                Effect::<C>::CompleteCursorGrab { success: answers(asked) },
            ]
            &&& end.state == (AppState {
                grab: None,
                motion: seq![],
                pending: if answers(asked) {
                    None
                } else {
                    Some(PendingPointerUngrab { window_id: held.window_id, detached: false })
                },
                ..state
            })
        }),
{
    reveal_with_fuel(settle, 3);
    reveal_with_fuel(calls_made, 3);
}

/// A window that neither holds the grab nor waits for a release has nothing to
/// give up: that is a success for an open window, without a call.  What other
/// windows hold, or have still to release, stays.
pub proof fn law_release_of_nothing<C>(
    state: AppState<C>,
    window_id: u32,
    answers: spec_fn(nat) -> bool,
    display: Capabilities,
    asked: nat,
)
    requires
        !state.process_ungrab,
        state.grab matches Some(held) ==> held.window_id != window_id,
        state.pending matches Some(left) ==> left.window_id != window_id,
    ensures
        ({
            let request = state.set_cursor_grab(window_id, LAUFEY_CURSOR_GRAB_NONE);
            let end = settle(request, answers, display, asked);
            &&& end.next == Next::Done
            &&& calls_made(request, answers, display, asked).len() == 0
            &&& end.effects == seq![
                Effect::<C>::CompleteCursorGrab { success: state.windows.contains_key(window_id) },
            ]
            &&& end.state == (AppState { motion: seq![], ..state })
        }),
{
    reveal_with_fuel(settle, 2);
    reveal_with_fuel(calls_made, 2);
}

/// Any code but the three known ones is refused at once, without a call and
/// without a change.
pub proof fn law_meaningless_request<C>(
    state: AppState<C>,
    window_id: u32,
    code: i32,
    answers: spec_fn(nat) -> bool,
    display: Capabilities,
    asked: nat,
)
    requires
        code != LAUFEY_CURSOR_GRAB_LOCKED,
        code != LAUFEY_CURSOR_GRAB_CONFINED,
        code != LAUFEY_CURSOR_GRAB_NONE,
    ensures
        ({
            let request = state.set_cursor_grab(window_id, code);
            let end = settle(request, answers, display, asked);
            &&& end.next == Next::Done
            &&& calls_made(request, answers, display, asked).len() == 0
            &&& end.effects == seq![Effect::<C>::CompleteCursorGrab { success: false }]
            &&& end.state == state
        }),
{
    reveal_with_fuel(settle, 2);
    reveal_with_fuel(calls_made, 2);
}

} // verus!
