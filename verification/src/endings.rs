//! How a grab is taken away, and how a window ends, call by call.
use vstd::prelude::*;
use crate::cursor::AcceptedCursorGrab;
use crate::cursor::PendingPointerUngrab;
use crate::model::AppState;
use crate::runs::calls_made;
use crate::runs::settle;
use crate::step::AfterForce;
use crate::step::Effect;
use crate::step::GrabTarget;
use crate::step::NativeCall;
use crate::step::NativeGrabMode;
use crate::step::Next;
use crate::wayland::Capabilities;

verus! {

// ---- Taking the grab away ----

/// Taking the grab away from the window that holds it takes one call.  Whatever
/// the answer is, the cursor is shown, the grab is gone, and motion that was not
/// dispatched is forgotten.  If the answer is no, the release is to be tried
/// again.
pub proof fn law_forced_release_of_held_grab<C>(
    state: AppState<C>,
    held: AcceptedCursorGrab,
    answers: spec_fn(nat) -> bool,
    display: Capabilities,
    asked: nat,
)
    requires
        state.wf(),
        state.grab == Some(held),
    ensures
        ({
            let forced = state.force_release(held.window_id, AfterForce::Suspended);
            let end = settle(forced, answers, display, asked);
            let target = GrabTarget::Live { window_id: held.window_id };
            &&& end.next == Next::Done
            &&& calls_made(forced, answers, display, asked) == seq![
                NativeCall::SetCursorGrab { target, mode: NativeGrabMode::Free },
            ]
            &&& end.effects == seq![Effect::<C>::SetCursorVisible { target, visible: true }]
            &&& end.state == (AppState {
                grab: None,
                motion: seq![],
                pending: if answers(asked) {
                    None
                } else {
                    Some(PendingPointerUngrab { window_id: held.window_id, detached: false })
                },
                ..state
            })
        }),
{
    reveal_with_fuel(settle, 3);
    reveal_with_fuel(calls_made, 3);
}

/// Taking the grab away from a window that only waits for its release has that
/// tried again, and the cursor shown.  If it works, a closed window that was kept
/// for it goes away.
pub proof fn law_forced_release_retries<C>(
    state: AppState<C>,
    left: PendingPointerUngrab,
    answers: spec_fn(nat) -> bool,
    display: Capabilities,
    asked: nat,
)
    requires
        state.wf(),
        state.pending == Some(left),
    ensures
        ({
            let forced = state.force_release(left.window_id, AfterForce::Suspended);
            let end = settle(forced, answers, display, asked);
            let target = if left.detached {
                GrabTarget::Detached
            } else {
                GrabTarget::Live { window_id: left.window_id }
            };
            let show = Effect::<C>::SetCursorVisible { target, visible: true };
            &&& end.next == Next::Done
            &&& calls_made(forced, answers, display, asked) == seq![
                NativeCall::SetCursorGrab { target, mode: NativeGrabMode::Free },
            ]
            &&& end.effects == (if answers(asked) && left.detached {
                seq![show, Effect::<C>::DropDetached]
            } else {
                seq![show]
            })
            &&& end.state == (AppState {
                motion: seq![],
                pending: if answers(asked) {
                    None
                } else {
                    Some(left)
                },
                ..state
            })
        }),
{
    reveal_with_fuel(settle, 3);
    reveal_with_fuel(calls_made, 3);
}

/// A window that neither holds the grab nor waits for a release has nothing taken
/// away: there is no call and no effect, only undispatched motion is forgotten.
pub proof fn law_forced_release_of_nothing<C>(
    state: AppState<C>,
    window_id: u32,
)
    requires
        state.grab matches Some(held) ==> held.window_id != window_id,
        state.pending matches Some(left) ==> left.window_id != window_id,
    ensures
        ({
            let forced = state.force_release(window_id, AfterForce::Suspended);
            &&& forced.next == Next::Done
            &&& forced.effects.len() == 0
            &&& forced.state == (AppState { motion: seq![], ..state })
        }),
{
}

/// Why the grab is taken away makes no difference to the calls, nor to what
/// happens until they are answered.  After that, a cursor that left is reported
/// with the modifiers that were held, and a focus that was lost is forgotten, if
/// it was this window's, and reported.
pub proof fn law_reason_shows_afterwards<C>(
    state: AppState<C>,
    window_id: u32,
    reported_id: u32,
    modifiers: u32,
    answers: spec_fn(nat) -> bool,
    display: Capabilities,
    asked: nat,
)
    ensures
        ({
            let plain = state.force_release(window_id, AfterForce::Suspended);
            let left = state.force_release(
                window_id,
                AfterForce::CursorLeft { window_id: reported_id, modifiers },
            );
            let lost = state.force_release(
                window_id,
                AfterForce::FocusLost { window_id: reported_id },
            );
            let calls = calls_made(plain, answers, display, asked);
            let end = settle(plain, answers, display, asked);
            let left_end = settle(left, answers, display, asked);
            let lost_end = settle(lost, answers, display, asked);
            &&& calls_made(left, answers, display, asked) == calls
            &&& calls_made(lost, answers, display, asked) == calls
            &&& left_end.next == Next::Done
            &&& lost_end.next == Next::Done
            &&& left_end.state == end.state
            &&& left_end.effects == end.effects.push(
                Effect::<C>::DispatchCursorEnterLeave {
                    window_id: reported_id,
                    entered: false,
                    modifiers,
                },
            )
            &&& lost_end.state == (AppState {
                focused: if end.state.focused == Some(reported_id) {
                    None
                } else {
                    end.state.focused
                },
                ..end.state
            })
            &&& lost_end.effects == end.effects.push(
                Effect::<C>::DispatchFocused { window_id: reported_id, focused: false },
            )
        }),
{
    reveal_with_fuel(settle, 3);
    reveal_with_fuel(calls_made, 3);
}

/// A suspension takes the grab away from whichever window holds it, and does
/// nothing where none does.
pub proof fn law_suspension<C>(state: AppState<C>)
    ensures
        state.grab matches Some(held) ==> state.suspended() == state.force_release(
            held.window_id,
            AfterForce::Suspended,
        ),
        state.grab is None ==> {
            &&& state.suspended().state == state
            &&& state.suspended().effects.len() == 0
            &&& state.suspended().next == Next::Done
        },
{
}

// ---- Closing ----

/// Closing a window takes its grab away with the same calls.  After that an open
/// window is removed, and dropped, or kept hidden if its grab is still to be
/// released.  If no window is open then, the event loop ends.
pub proof fn law_closing<C>(
    state: AppState<C>,
    window_id: u32,
    answers: spec_fn(nat) -> bool,
    display: Capabilities,
    asked: nat,
)
    ensures
        ({
            let plain = state.force_release(window_id, AfterForce::Suspended);
            let closing = state.close_window(window_id, false);
            let before = settle(plain, answers, display, asked);
            let end = settle(closing, answers, display, asked);
            let open = state.windows.contains_key(window_id);
            let keep = open && before.state.pending is Some && before.state.pending->0.window_id
                == window_id;
            let removed: Seq<Effect<C>> = if keep {
                seq![Effect::RemoveWindow { window_id }, Effect::DetachWindow { window_id }]
            } else if open {
                seq![Effect::RemoveWindow { window_id }, Effect::DropWindow { window_id }]
            } else {
                seq![]
            };
            let left: Seq<Effect<C>> = if forall|id: u32| #[trigger]
                state.windows.contains_key(id) ==> id == window_id {
                seq![Effect::Exit]
            } else {
                seq![]
            };
            &&& calls_made(closing, answers, display, asked) == calls_made(
                plain,
                answers,
                display,
                asked,
            )
            &&& end.next == Next::Done
            &&& end.effects == before.effects + removed + left
            &&& end.state == (AppState {
                windows: state.windows.remove(window_id),
                native_ids: if open {
                    state.native_ids.remove(state.windows[window_id].native_id)
                } else {
                    state.native_ids
                },
                pending: if keep {
                    Some(PendingPointerUngrab { window_id, detached: true })
                } else {
                    before.state.pending
                },
                ..before.state
            })
        }),
{
    reveal_with_fuel(settle, 3);
    reveal_with_fuel(calls_made, 3);
    let plain = state.force_release(window_id, AfterForce::Suspended);
    let before = settle(plain, answers, display, asked);
    assert(before.state.windows == state.windows);
    assert(before.state.native_ids == state.native_ids);
    lemma_none_left(state.windows.remove(window_id), state.windows, window_id);
    if !state.windows.contains_key(window_id) {
        assert(state.windows.remove(window_id) =~= state.windows);
    }
    let closing = state.close_window(window_id, false);
    let end = settle(closing, answers, display, asked);
    let closed = before.state.close_released(window_id);
    assert(end.effects =~= before.effects + closed.effects);
    assert(end.state =~= closed.state);
}

proof fn lemma_none_left<V>(left: Map<u32, V>, all: Map<u32, V>, window_id: u32)
    requires
        left == all.remove(window_id),
    ensures
        left.is_empty() == (forall|id: u32| #[trigger] all.contains_key(id) ==> id == window_id),
{
    if left.is_empty() {
        assert forall|id: u32| #[trigger] all.contains_key(id) implies id == window_id by {
            if id != window_id {
                assert(left.dom().contains(id));
            }
        }
    } else {
        let id = choose|id: u32| left.dom().contains(id);
        assert(all.contains_key(id) && id != window_id);
    }
}

/// A window that the system destroyed is removed and dropped, with its grab and
/// its pending release, and without a call on it.  If it had either, the cursor is
/// shown over every window and the process-wide grab is released; if that fails it
/// is to be tried again.  If no window is open then, the event loop ends.
pub proof fn law_destruction<C>(
    state: AppState<C>,
    window_id: u32,
    answers: spec_fn(nat) -> bool,
    display: Capabilities,
    asked: nat,
)
    requires
        state.windows.contains_key(window_id),
    ensures
        ({
            let gone = state.close_window(window_id, true);
            let end = settle(gone, answers, display, asked);
            let held = state.grab is Some && state.grab->0.window_id == window_id;
            let left = state.pending is Some && state.pending->0.window_id == window_id;
            let kept: Seq<Effect<C>> = if left && state.pending->0.detached {
                seq![Effect::DropDetached]
            } else {
                seq![]
            };
            let shown: Seq<Effect<C>> = if held || left {
                seq![Effect::ShowAllCursors]
            } else {
                seq![]
            };
            let last: Seq<Effect<C>> = if forall|id: u32| #[trigger]
                state.windows.contains_key(id) ==> id == window_id {
                seq![Effect::Exit]
            } else {
                seq![]
            };
            &&& end.next == Next::Done
            &&& calls_made(gone, answers, display, asked) == (if held || left {
                seq![NativeCall::ReleaseProcessGrab]
            } else {
                seq![]
            })
            &&& end.effects == kept + seq![
                Effect::<C>::RemoveWindow { window_id },
                Effect::<C>::DropWindow { window_id },
            ] + shown + last
            &&& end.state == (AppState {
                windows: state.windows.remove(window_id),
                native_ids: state.native_ids.remove(state.windows[window_id].native_id),
                grab: if held {
                    None
                } else {
                    state.grab
                },
                motion: if held {
                    seq![]
                } else {
                    state.motion
                },
                pending: if left {
                    None
                } else {
                    state.pending
                },
                process_ungrab: if held || left {
                    !answers(asked)
                } else {
                    state.process_ungrab
                },
                ..state
            })
        }),
{
    reveal_with_fuel(settle, 3);
    reveal_with_fuel(calls_made, 3);
    lemma_none_left(state.windows.remove(window_id), state.windows, window_id);
}

} // verus!
