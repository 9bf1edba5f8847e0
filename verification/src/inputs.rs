//! What each input does, effect by effect.
//!
//! An event of a window is one whose native name leads to the window.  Where an
//! input leads to a forced release or to a close, it is said which one, and
//! [`endings`](crate::endings) says what that comes to.
use vstd::prelude::*;
use crate::cursor::AcceptedCursorGrab;
use crate::cursor::AcceptedCursorGrabMode;
use crate::cursor::PendingPointerUngrab;
use crate::delivery::dispatches;
use crate::delivery::flushed;
use crate::delivery::law_wait_flushes_once;
use crate::delivery::Arithmetic;
use crate::model::AppState;
use crate::model::Outcome;
use crate::model::WindowInfo;
use crate::requests::lemma_calls_after;
use crate::runs::calls_made;
use crate::runs::lemma_settles_after;
use crate::runs::settle;
use crate::step::AfterForce;
use crate::step::CommonEvent;
use crate::step::ControlFlow;
use crate::step::Effect;
use crate::step::GrabTarget;
use crate::step::NativeCall;
use crate::step::NativeGrabMode;
use crate::step::Next;
use crate::step::WindowEvent;
use crate::wayland::Capabilities;

verus! {

// ---- Reports about a window ----

/// A new size is recorded and dispatched, read as a signed number of as many
/// bits.  Nothing changes but that collected motion has been dispatched.
pub proof fn law_resized<C>(
    state: AppState<C>,
    native_id: u64,
    window_id: u32,
    width: u32,
    height: u32,
    signed_width: i32,
    signed_height: i32,
)
    requires
        state.native_ids.contains_key(native_id),
        state.native_ids[native_id] == window_id,
        state.windows.contains_key(window_id),
        signed_width == width || signed_width == width - 0x1_0000_0000,
        signed_height == height || signed_height == height - 0x1_0000_0000,
    ensures
        ({
            let outcome = state.window_event(native_id, WindowEvent::Resized { width, height });
            &&& outcome.next == Next::Done
            &&& outcome.state == (AppState { motion: seq![], ..state })
            &&& outcome.effects == state.flush_effects() + seq![
                Effect::<C>::StoreSize { window_id, width: signed_width, height: signed_height },
                Effect::<C>::DispatchResize {
                    window_id,
                    width: signed_width,
                    height: signed_height,
                },
            ]
        }),
{
}

/// A new position is recorded and dispatched.  Nothing changes but that collected
/// motion has been dispatched.
pub proof fn law_moved<C>(state: AppState<C>, native_id: u64, window_id: u32, x: i32, y: i32)
    requires
        state.native_ids.contains_key(native_id),
        state.native_ids[native_id] == window_id,
        state.windows.contains_key(window_id),
    ensures
        ({
            let outcome = state.window_event(native_id, WindowEvent::Moved { x, y });
            &&& outcome.next == Next::Done
            &&& outcome.state == (AppState { motion: seq![], ..state })
            &&& outcome.effects == state.flush_effects() + seq![
                Effect::<C>::StorePosition { window_id, x, y },
                Effect::<C>::DispatchMove { window_id, x, y },
            ]
        }),
{
}

/// The modifiers that are reported for a window are the ones it has from then on,
/// whatever it had before.  Nothing else about it changes, and nothing about any
/// other window.  Motion that came before still goes with the old ones.
pub proof fn law_modifiers_changed<C>(
    state: AppState<C>,
    native_id: u64,
    window_id: u32,
    reported: u32,
)
    requires
        state.native_ids.contains_key(native_id),
        state.native_ids[native_id] == window_id,
        state.windows.contains_key(window_id),
    ensures
        ({
            let outcome = state.window_event(
                native_id,
                WindowEvent::ModifiersChanged { modifiers: reported },
            );
            &&& outcome.next == Next::Done
            &&& outcome.effects == state.flush_effects()
            &&& outcome.state.windows[window_id].modifiers == reported
            &&& outcome.state == (AppState {
                motion: seq![],
                windows: state.windows.insert(
                    window_id,
                    WindowInfo { modifiers: reported, ..state.windows[window_id] },
                ),
                ..state
            })
        }),
{
}

/// Keyboard input, clicks, turns of the wheel and the cursor entering all go with
/// the modifiers that were last reported for the window.
pub proof fn law_reported_modifiers_are_held<C>(
    state: AppState<C>,
    native_id: u64,
    window_id: u32,
    reported: u32,
)
    requires
        state.native_ids.contains_key(native_id),
        state.native_ids[native_id] == window_id,
        state.windows.contains_key(window_id),
    ensures
        ({
            let now = state.window_event(
                native_id,
                WindowEvent::ModifiersChanged { modifiers: reported },
            ).state;
            &&& now.window_event(native_id, WindowEvent::KeyboardInput).effects == seq![
                Effect::<C>::DispatchKeyboard { window_id, modifiers: reported },
            ]
            &&& now.window_event(native_id, WindowEvent::MouseInput).effects == seq![
                Effect::<C>::DispatchMouseClick { window_id, modifiers: reported },
            ]
            &&& now.window_event(native_id, WindowEvent::MouseWheel).effects == seq![
                Effect::<C>::DispatchWheel { window_id, modifiers: reported },
            ]
            &&& now.window_event(native_id, WindowEvent::CursorEntered).effects == seq![
                Effect::<C>::DispatchCursorEnterLeave {
                    window_id,
                    entered: true,
                    modifiers: reported,
                },
            ]
        }),
{
    let now = state.window_event(
        native_id,
        WindowEvent::ModifiersChanged { modifiers: reported },
    ).state;
    assert(now.flush_effects() =~= seq![]);
    law_keyboard_input(now, native_id, window_id);
    law_mouse_input(now, native_id, window_id);
    law_mouse_wheel(now, native_id, window_id);
    law_cursor_entered(now, native_id, window_id);
}

/// Keyboard input is dispatched with the window's modifiers, whatever grab is
/// held.
pub proof fn law_keyboard_input<C>(state: AppState<C>, native_id: u64, window_id: u32)
    requires
        state.native_ids.contains_key(native_id),
        state.native_ids[native_id] == window_id,
        state.windows.contains_key(window_id),
    ensures
        ({
            let outcome = state.window_event(native_id, WindowEvent::KeyboardInput);
            &&& outcome.next == Next::Done
            &&& outcome.state == (AppState { motion: seq![], ..state })
            &&& outcome.effects == state.flush_effects() + seq![
                Effect::<C>::DispatchKeyboard {
                    window_id,
                    modifiers: state.windows[window_id].modifiers,
                },
            ]
        }),
{
}

/// The cursor moving in a window shows that it is inside.  Its position is
/// recorded and dispatched, unless the cursor is locked to this very window.
pub proof fn law_cursor_moved<C>(
    state: AppState<C>,
    native_id: u64,
    window_id: u32,
    x: C,
    y: C,
)
    requires
        state.native_ids.contains_key(native_id),
        state.native_ids[native_id] == window_id,
        state.windows.contains_key(window_id),
    ensures
        ({
            let outcome = state.window_event(native_id, WindowEvent::CursorMoved { x, y });
            let locked_here = state.grab == Some(
                AcceptedCursorGrab { window_id, mode: AcceptedCursorGrabMode::Locked },
            );
            &&& outcome.next == Next::Done
            &&& outcome.state == (AppState {
                motion: seq![],
                windows: state.windows.insert(
                    window_id,
                    WindowInfo { cursor_inside: true, ..state.windows[window_id] },
                ),
                ..state
            })
            &&& locked_here ==> outcome.effects == state.flush_effects()
            &&& !locked_here ==> outcome.effects == state.flush_effects() + seq![
                Effect::<C>::StoreCursorPosition { window_id, x, y },
                Effect::<C>::DispatchMouseMove {
                    window_id,
                    x,
                    y,
                    modifiers: state.windows[window_id].modifiers,
                },
            ]
        }),
{
}

/// A button that goes down or comes up shows that the cursor is inside, and is
/// dispatched with the window's modifiers, whatever grab is held.
pub proof fn law_mouse_input<C>(state: AppState<C>, native_id: u64, window_id: u32)
    requires
        state.native_ids.contains_key(native_id),
        state.native_ids[native_id] == window_id,
        state.windows.contains_key(window_id),
    ensures
        ({
            let outcome = state.window_event(native_id, WindowEvent::MouseInput);
            &&& outcome.next == Next::Done
            &&& outcome.state == (AppState {
                motion: seq![],
                windows: state.windows.insert(
                    window_id,
                    WindowInfo { cursor_inside: true, ..state.windows[window_id] },
                ),
                ..state
            })
            &&& outcome.effects == state.flush_effects() + seq![
                Effect::<C>::DispatchMouseClick {
                    window_id,
                    modifiers: state.windows[window_id].modifiers,
                },
            ]
        }),
{
}

/// A turn of the wheel is dispatched with the window's modifiers, whatever grab
/// is held.  It says nothing about where the cursor is.
pub proof fn law_mouse_wheel<C>(state: AppState<C>, native_id: u64, window_id: u32)
    requires
        state.native_ids.contains_key(native_id),
        state.native_ids[native_id] == window_id,
        state.windows.contains_key(window_id),
    ensures
        ({
            let outcome = state.window_event(native_id, WindowEvent::MouseWheel);
            &&& outcome.next == Next::Done
            &&& outcome.state == (AppState { motion: seq![], ..state })
            &&& outcome.effects == state.flush_effects() + seq![
                Effect::<C>::DispatchWheel {
                    window_id,
                    modifiers: state.windows[window_id].modifiers,
                },
            ]
        }),
{
}

/// The cursor entering a window is inside it then, and is reported as entering.
pub proof fn law_cursor_entered<C>(state: AppState<C>, native_id: u64, window_id: u32)
    requires
        state.native_ids.contains_key(native_id),
        state.native_ids[native_id] == window_id,
        state.windows.contains_key(window_id),
    ensures
        ({
            let outcome = state.window_event(native_id, WindowEvent::CursorEntered);
            &&& outcome.next == Next::Done
            &&& outcome.state == (AppState {
                motion: seq![],
                windows: state.windows.insert(
                    window_id,
                    WindowInfo { cursor_inside: true, ..state.windows[window_id] },
                ),
                ..state
            })
            &&& outcome.effects == state.flush_effects() + seq![
                Effect::<C>::DispatchCursorEnterLeave {
                    window_id,
                    entered: true,
                    modifiers: state.windows[window_id].modifiers,
                },
            ]
        }),
{
}

/// A window that the cursor leaves does not have it inside any more, and has the
/// grab taken away for that reason.
pub proof fn law_cursor_left<C>(state: AppState<C>, native_id: u64, window_id: u32)
    requires
        state.native_ids.contains_key(native_id),
        state.native_ids[native_id] == window_id,
        state.windows.contains_key(window_id),
    ensures
        ({
            let now = AppState {
                motion: seq![],
                windows: state.windows.insert(
                    window_id,
                    WindowInfo { cursor_inside: false, ..state.windows[window_id] },
                ),
                ..state
            };
            let outcome = state.window_event(native_id, WindowEvent::CursorLeft);
            let forced = now.force_release(
                window_id,
                AfterForce::CursorLeft {
                    window_id,
                    modifiers: state.windows[window_id].modifiers,
                },
            );
            &&& outcome.next == forced.next
            &&& outcome.state == forced.state
            &&& outcome.effects == state.flush_effects() + forced.effects
        }),
{
}

/// A window that gains the focus is the focused one from then on, and that is
/// reported.  No window changes, and no grab.
pub proof fn law_focus_gained<C>(state: AppState<C>, native_id: u64, window_id: u32)
    requires
        state.native_ids.contains_key(native_id),
        state.native_ids[native_id] == window_id,
        state.windows.contains_key(window_id),
    ensures
        ({
            let outcome = state.window_event(native_id, WindowEvent::Focused { focused: true });
            &&& outcome.next == Next::Done
            &&& outcome.state == (AppState {
                motion: seq![],
                focused: Some(window_id),
                ..state
            })
            &&& outcome.effects == state.flush_effects() + seq![
                Effect::<C>::DispatchFocused { window_id, focused: true },
            ]
        }),
{
}

/// A window that loses the focus has the grab taken away for that reason, if it
/// holds it.  If it does not, no call is made; the focus is forgotten if it was
/// this window's, and the loss is reported.
pub proof fn law_focus_lost<C>(state: AppState<C>, native_id: u64, window_id: u32)
    requires
        state.native_ids.contains_key(native_id),
        state.native_ids[native_id] == window_id,
        state.windows.contains_key(window_id),
    ensures
        ({
            let outcome = state.window_event(native_id, WindowEvent::Focused { focused: false });
            let now = AppState { motion: seq![], ..state };
            let holds = state.grab is Some && state.grab->0.window_id == window_id;
            let forced = now.force_release(window_id, AfterForce::FocusLost { window_id });
            &&& holds ==> {
                &&& outcome.next == forced.next
                &&& outcome.state == forced.state
                &&& outcome.effects == state.flush_effects() + forced.effects
            }
            &&& !holds ==> {
                &&& outcome.next == Next::Done
                &&& outcome.state == (AppState {
                    focused: if state.focused == Some(window_id) {
                        None
                    } else {
                        state.focused
                    },
                    ..now
                })
                &&& outcome.effects == state.flush_effects() + seq![
                    Effect::<C>::DispatchFocused { window_id, focused: false },
                ]
            }
        }),
{
}

/// A window that the system destroyed is reported as going away, and then goes
/// the way of destroyed windows.
pub proof fn law_destroyed<C>(state: AppState<C>, native_id: u64, window_id: u32)
    requires
        state.native_ids.contains_key(native_id),
        state.native_ids[native_id] == window_id,
        state.windows.contains_key(window_id),
    ensures
        ({
            let outcome = state.window_event(native_id, WindowEvent::Destroyed);
            let gone = (AppState { motion: seq![], ..state }).close_window(window_id, true);
            &&& outcome.next == gone.next
            &&& outcome.state == gone.state
            &&& outcome.effects == state.flush_effects() + seq![
                Effect::<C>::DispatchCloseRequested { window_id },
            ] + gone.effects
        }),
{
}

/// When somebody wants a window closed, the runtime is asked first.  If it agrees
/// the window is closed, with the calls and effects of a close; if it does not,
/// nothing happens.
pub proof fn law_close_requested<C>(
    state: AppState<C>,
    native_id: u64,
    window_id: u32,
    answers: spec_fn(nat) -> bool,
    display: Capabilities,
    asked: nat,
)
    requires
        state.native_ids.contains_key(native_id),
        state.native_ids[native_id] == window_id,
        state.windows.contains_key(window_id),
    ensures
        ({
            let outcome = state.window_event(native_id, WindowEvent::CloseRequested);
            let end = settle(outcome, answers, display, asked);
            let calls = calls_made(outcome, answers, display, asked);
            let now = AppState { motion: seq![], ..state };
            let closing = now.close_window(window_id, false);
            &&& answers(asked) ==> {
                &&& calls == seq![NativeCall::CloseRequested { window_id }] + calls_made(
                    closing,
                    answers,
                    display,
                    asked + 1,
                )
                &&& end == settle(closing, answers, display, asked + 1).after(
                    state.flush_effects(),
                )
            }
            &&& !answers(asked) ==> {
                &&& calls == seq![NativeCall::CloseRequested { window_id }]
                &&& end.next == Next::Done
                &&& end.state == now
                &&& end.effects == state.flush_effects()
            }
        }),
{
    let now = state.without_motion();
    let flush = state.flush_effects();
    let outcome = state.window_event(native_id, WindowEvent::CloseRequested);
    let step = now.close_decided(window_id, answers(asked));
    assert(outcome.effects =~= flush);
    assert(settle(outcome, answers, display, asked) == settle(
        step.after(flush),
        answers,
        display,
        asked + 1,
    ));
    lemma_settles_after(step, flush, answers, display, asked + 1);
    reveal_with_fuel(calls_made, 2);
    if !answers(asked) {
        assert(step.after(flush) =~= Outcome::done(now, flush));
    }
}

/// Events that no rule is about only have collected motion dispatched.
pub proof fn law_unhandled<C>(state: AppState<C>, native_id: u64, window_id: u32)
    requires
        state.native_ids.contains_key(native_id),
        state.native_ids[native_id] == window_id,
    ensures
        ({
            let outcome = state.window_event(native_id, WindowEvent::Unhandled);
            &&& outcome.next == Next::Done
            &&& outcome.state == (AppState { motion: seq![], ..state })
            &&& outcome.effects == state.flush_effects()
        }),
{
}

/// A native name that leads nowhere leads to nothing.  One that leads to a window
/// that is not open only has collected motion dispatched.
pub proof fn law_no_such_window<C>(
    state: AppState<C>,
    native_id: u64,
    event: WindowEvent<C>,
)
    ensures
        ({
            let outcome = state.window_event(native_id, event);
            &&& !state.native_ids.contains_key(native_id) ==> {
                &&& outcome.next == Next::Done
                &&& outcome.state == state
                &&& outcome.effects.len() == 0
            }
            &&& state.native_ids.contains_key(native_id) && !state.windows.contains_key(
                state.native_ids[native_id],
            ) ==> {
                &&& outcome.next == Next::Done
                &&& outcome.state == (AppState { motion: seq![], ..state })
                &&& outcome.effects == state.flush_effects()
            }
        }),
{
}

// ---- Requests of the runtime ----

/// Requests to change the grab and to close a window are dealt with as such, once
/// collected motion has been dispatched.
pub proof fn law_runtime_requests_flush_first<C>(state: AppState<C>, window_id: u32, mode: i32)
    ensures
        ({
            let now = AppState { motion: seq![], ..state };
            let flush = state.flush_effects();
            let grab = state.user_event(CommonEvent::SetCursorGrab { window_id, mode });
            let close = state.user_event(CommonEvent::CloseWindow { window_id });
            &&& grab == now.set_cursor_grab(window_id, mode).after(flush)
            &&& close == now.close_window(window_id, false).after(flush)
        }),
{
}

/// The effects that come before a request change neither its calls nor what it
/// comes to, and come before all its effects.
pub proof fn law_flush_comes_before_a_run<C>(
    outcome: Outcome<C>,
    flush: Seq<Effect<C>>,
    answers: spec_fn(nat) -> bool,
    display: Capabilities,
    asked: nat,
)
    ensures
        ({
            let end = settle(outcome, answers, display, asked);
            let later = settle(outcome.after(flush), answers, display, asked);
            &&& calls_made(outcome.after(flush), answers, display, asked) == calls_made(
                outcome,
                answers,
                display,
                asked,
            )
            &&& later.next == end.next
            &&& later.state == end.state
            &&& later.effects == flush + end.effects
        }),
{
    lemma_settles_after(outcome, flush, answers, display, asked);
    lemma_calls_after(outcome, flush, answers, display, asked);
}

/// The other requests lead to one effect each, and to no change but that collected
/// motion has been dispatched.  A property is only applied to an open window.
pub proof fn law_runtime_request_effects<C>(
    state: AppState<C>,
    window_id: u32,
    property: CommonEvent,
)
    requires
        property == (CommonEvent::SetTitle { window_id }) || property == (
        CommonEvent::SetWindowSize { window_id }) || property == (CommonEvent::SetWindowPosition {
            window_id,
        }) || property == (CommonEvent::SetResizable { window_id }) || property == (
        CommonEvent::SetAlwaysOnTop { window_id }) || property == (
        CommonEvent::SetClickPassthrough { window_id }) || property == (CommonEvent::Show {
            window_id,
        }) || property == (CommonEvent::Hide { window_id }) || property == (CommonEvent::Focus {
            window_id,
        }) || property == (CommonEvent::SetApplicationMenu { window_id }) || property == (
        CommonEvent::ShowContextMenu { window_id }),
    ensures
        ({
            let now = AppState { motion: seq![], ..state };
            let flush = state.flush_effects();
            let create = CommonEvent::CreateWindow { window_id };
            &&& state.user_event(CommonEvent::Quit) == (Outcome {
                state: now,
                effects: flush + seq![Effect::<C>::Exit],
                next: Next::Done,
            })
            &&& state.user_event(create) == (Outcome {
                state: now,
                effects: flush + seq![Effect::<C>::CreateWindow { window_id }],
                next: Next::Done,
            })
            &&& state.user_event(CommonEvent::UiTask) == (Outcome {
                state: now,
                effects: flush + seq![Effect::<C>::RunUiTask],
                next: Next::Done,
            })
            &&& state.user_event(CommonEvent::DockTask) == (Outcome {
                state: now,
                effects: flush + seq![Effect::<C>::DrainDock],
                next: Next::Done,
            })
            &&& state.user_event(CommonEvent::TrayTask) == (Outcome {
                state: now,
                effects: flush + seq![Effect::<C>::DrainTray],
                next: Next::Done,
            })
            &&& state.user_event(CommonEvent::Other) == (Outcome {
                state: now,
                effects: flush,
                next: Next::Done,
            })
            &&& state.user_event(property) == (Outcome {
                state: now,
                effects: flush + (if state.windows.contains_key(window_id) {
                    seq![Effect::<C>::ApplyCommonEvent { window_id }]
                } else {
                    seq![]
                }),
                next: Next::Done,
            })
        }),
{
}

// ---- Waiting ----

/// With nothing left to release, the loop waits for the next event; collected
/// motion is dispatched, and menus and tray are polled.  No call is made.
pub proof fn law_idle_wait<C>(state: AppState<C>)
    requires
        !state.process_ungrab,
        state.pending is None,
    ensures
        ({
            let outcome = state.about_to_wait();
            &&& outcome.next == Next::Done
            &&& outcome.state == (AppState { motion: seq![], ..state })
            &&& outcome.effects == seq![
                Effect::<C>::SetControlFlow { flow: ControlFlow::Wait },
            ] + state.flush_effects() + seq![
                Effect::<C>::PollMenuEvents,
                Effect::<C>::PollTrayEvents,
            ]
        }),
{
    assert(state.without_orphan() =~= state);
}

/// A process-wide grab that is still to be released is tried once before the
/// wait.  The wait lasts for fifty milliseconds if that failed, and until the next
/// event if it worked.
pub proof fn law_wait_retries_process<C>(
    state: AppState<C>,
    answers: spec_fn(nat) -> bool,
    display: Capabilities,
    asked: nat,
)
    requires
        state.wf(),
        state.process_ungrab,
    ensures
        ({
            let end = settle(state.about_to_wait(), answers, display, asked);
            &&& end.next == Next::Done
            &&& calls_made(state.about_to_wait(), answers, display, asked) == seq![
                NativeCall::ReleaseProcessGrab,
            ]
            &&& end.state == (AppState { process_ungrab: !answers(asked), ..state })
            &&& end.effects == seq![
                Effect::<C>::SetControlFlow {
                    flow: if answers(asked) {
                        ControlFlow::Wait
                    } else {
                        ControlFlow::WaitFor { millis: 50 }
                    },
                },
                Effect::<C>::PollMenuEvents,
                Effect::<C>::PollTrayEvents,
            ]
        }),
{
    reveal_with_fuel(settle, 3);
    reveal_with_fuel(calls_made, 3);
    assert(state.motion =~= seq![]);
}

/// A window's grab that is still to be released is tried once before the wait, and
/// the cursor shown.  If it worked, a closed window that was kept for it goes away
/// and the wait lasts until the next event; if not, for fifty milliseconds.
pub proof fn law_wait_retries_window<C>(
    state: AppState<C>,
    left: PendingPointerUngrab,
    answers: spec_fn(nat) -> bool,
    display: Capabilities,
    asked: nat,
)
    requires
        state.wf(),
        state.pending == Some(left),
    ensures
        ({
            let end = settle(state.about_to_wait(), answers, display, asked);
            let target = if left.detached {
                GrabTarget::Detached
            } else {
                GrabTarget::Live { window_id: left.window_id }
            };
            let show = Effect::<C>::SetCursorVisible { target, visible: true };
            let shown = if answers(asked) && left.detached {
                seq![show, Effect::<C>::DropDetached]
            } else {
                seq![show]
            };
            &&& end.next == Next::Done
            &&& calls_made(state.about_to_wait(), answers, display, asked) == seq![
                NativeCall::SetCursorGrab { target, mode: NativeGrabMode::Free },
            ]
            &&& end.state == (AppState {
                pending: if answers(asked) {
                    None
                } else {
                    Some(left)
                },
                ..state
            })
            &&& end.effects == shown + seq![
                Effect::<C>::SetControlFlow {
                    flow: if answers(asked) {
                        ControlFlow::Wait
                    } else {
                        ControlFlow::WaitFor { millis: 50 }
                    },
                },
                Effect::<C>::PollMenuEvents,
                Effect::<C>::PollTrayEvents,
            ]
        }),
{
    reveal_with_fuel(settle, 3);
    reveal_with_fuel(calls_made, 3);
    assert(state.motion =~= seq![]);
}

/// Whatever the host answers, and whatever way it adds steps up, going to wait
/// dispatches all motion that was collected when the loop went to wait, once.
pub proof fn law_wait_dispatches_motion<C>(
    state: AppState<C>,
    answers: spec_fn(nat) -> bool,
    display: Capabilities,
    asked: nat,
    arithmetic: Arithmetic<C>,
    attached: bool,
)
    requires
        state.wf(),
        arithmetic.wf(),
    ensures
        dispatches(
            settle(state.about_to_wait(), answers, display, asked).effects,
            arithmetic,
            attached,
        ) == flushed(state, arithmetic, attached),
{
    if state.process_ungrab {
        law_wait_retries_process(state, answers, display, asked);
        reveal_with_fuel(dispatches, 6);
    } else if let Some(left) = state.pending {
        law_wait_retries_window(state, left, answers, display, asked);
        reveal_with_fuel(dispatches, 6);
    } else {
        assert(state.without_orphan() =~= state);
        law_wait_flushes_once(state, arithmetic, attached);
    }
}

} // verus!
