//! What an input comes to once the host has answered every call it led to.
use vstd::prelude::*;
use crate::cursor::requested_mode;
use crate::cursor::AcceptedCursorGrab;
use crate::cursor::AcceptedCursorGrabMode;
use crate::cursor::PendingPointerUngrab;
use crate::cursor::LAUFEY_CURSOR_GRAB_NONE;
use crate::model::AppState;
use crate::model::Outcome;
use crate::safety::call_at;
use crate::safety::law_about_to_wait_wf;
use crate::safety::law_capabilities_known_wf;
use crate::safety::law_close_window_wf;
use crate::safety::law_resume_wf;
use crate::safety::law_set_cursor_grab_wf;
use crate::safety::law_suspended_wf;
use crate::safety::law_window_event_wf;
use crate::step::AfterRelease;
use crate::step::CommonEvent;
use crate::step::ControlFlow;
use crate::step::Effect;
use crate::step::NativeCall;
use crate::step::Next;
use crate::step::Resume;
use crate::step::WindowEvent;
use crate::wayland::Capabilities;

verus! {

/// How many more times the host can be asked.
pub open spec fn rank(next: Next) -> nat {
    match next {
        Next::Done => 0,
        Next::QueryCapabilities { .. } => 6,
        Next::Call { call, then } => match then {
            Resume::ReleaseProcess { .. } => 5,
            Resume::ReleasePending { .. } => 4,
            Resume::ReleaseLive { .. } => 3,
            Resume::AcquireProcess { .. } => 8,
            Resume::AcquirePending { .. } => 7,
            Resume::AcquireGrab { .. } => 2,
            Resume::AcquireFallback { .. } => 1,
            Resume::ForcePending { .. } => 1,
            Resume::ForceLive { .. } => 1,
            Resume::CloseDecision { .. } => 2,
            Resume::DestroyedProcess => 1,
            Resume::WaitProcess => 2,
            Resume::WaitPending { .. } => 1,
        },
    }
}

/// Every answer brings the end nearer: no input makes the host go round for
/// ever.
pub proof fn law_answers_make_progress<C>(
    state: AppState<C>,
    next: Next,
    answer: bool,
    capabilities: Capabilities,
)
    ensures
        next matches Next::Call { then, .. } ==> rank(state.resume(then, answer).next) < rank(next),
        next matches Next::QueryCapabilities { window_id, mode } ==> rank(
            state.capabilities_known(window_id, mode, capabilities).next,
        ) < rank(next),
{
    match next {
        Next::Done => {},
        Next::QueryCapabilities { window_id, mode } => {
            let known = AppState { capabilities: Some(capabilities), ..state };
            lemma_acquire_supported_rank(
                known,
                window_id,
                mode,
                capabilities.allows(mode == AcceptedCursorGrabMode::Locked),
            );
        },
        Next::Call { call, then } => match then {
            Resume::ReleaseProcess { window_id, then } => {
                let answered = state.process_answered(answer);
                lemma_release_pending_rank(answered, window_id, then);
            },
            Resume::ReleasePending { window_id, target, then } => {},
            Resume::ReleaseLive { window_id, then } => {},
            Resume::AcquireProcess { window_id, mode } => {
                let answered = state.process_answered(answer);
                lemma_acquire_checked_rank(answered.without_orphan(), window_id, mode);
            },
            Resume::AcquirePending { window_id, mode, target } => {
                lemma_acquire_checked_rank(state.pending_answered(answer), window_id, mode);
            },
            _ => {},
        },
    }
}

proof fn lemma_release_pending_rank<C>(state: AppState<C>, window_id: u32, then: AfterRelease)
    ensures
        rank(state.release_pending(window_id, then).next) <= 4,
        rank(state.release_live(window_id, then).next) <= 3,
{
}

proof fn lemma_acquire_supported_rank<C>(
    state: AppState<C>,
    window_id: u32,
    mode: AcceptedCursorGrabMode,
    supported: bool,
)
    ensures
        rank(state.acquire_supported(window_id, mode, supported).next) <= 5,
{
    if let Some(held) = state.grab {
        lemma_release_pending_rank(
            state.without_motion(),
            held.window_id,
            AfterRelease::Acquire { window_id, mode },
        );
    }
}

proof fn lemma_acquire_checked_rank<C>(
    state: AppState<C>,
    window_id: u32,
    mode: AcceptedCursorGrabMode,
)
    ensures
        rank(state.acquire_checked(window_id, mode).next) <= 6,
{
    if let Some(supported) = state.support(window_id, mode) {
        lemma_acquire_supported_rank(state, window_id, mode, supported);
    }
}

/// What `outcome` comes to with a host whose answer to the call number `n` is
/// `answers(n)`, and whose display has these capabilities.  The effects are
/// those of all steps together.
pub open spec fn settle<C>(
    outcome: Outcome<C>,
    answers: spec_fn(nat) -> bool,
    capabilities: Capabilities,
    asked: nat,
) -> Outcome<C>
    decreases rank(outcome.next),
{
    proof {
        law_answers_make_progress(outcome.state, outcome.next, answers(asked), capabilities);
    }
    match outcome.next {
        Next::Done => outcome,
        Next::Call { call, then } => settle(
            outcome.state.resume(then, answers(asked)).after(outcome.effects),
            answers,
            capabilities,
            asked + 1,
        ),
        Next::QueryCapabilities { window_id, mode } => settle(
            outcome.state.capabilities_known(window_id, mode, capabilities).after(outcome.effects),
            answers,
            capabilities,
            asked,
        ),
    }
}

/// The native calls that the host makes on the way there, in order.
pub open spec fn calls_made<C>(
    outcome: Outcome<C>,
    answers: spec_fn(nat) -> bool,
    capabilities: Capabilities,
    asked: nat,
) -> Seq<NativeCall>
    decreases rank(outcome.next),
{
    proof {
        law_answers_make_progress(outcome.state, outcome.next, answers(asked), capabilities);
    }
    match outcome.next {
        Next::Done => seq![],
        Next::Call { call, then } => seq![call] + calls_made(
            outcome.state.resume(then, answers(asked)),
            answers,
            capabilities,
            asked + 1,
        ),
        Next::QueryCapabilities { window_id, mode } => calls_made(
            outcome.state.capabilities_known(window_id, mode, capabilities),
            answers,
            capabilities,
            asked,
        ),
    }
}

/// Every input comes to an end, in a well-formed state.
pub proof fn law_settles_wf<C>(
    outcome: Outcome<C>,
    answers: spec_fn(nat) -> bool,
    capabilities: Capabilities,
    asked: nat,
)
    requires
        outcome.wf(),
    ensures
        settle(outcome, answers, capabilities, asked).wf(),
        settle(outcome, answers, capabilities, asked).next == Next::Done,
    decreases rank(outcome.next),
{
    law_answers_make_progress(outcome.state, outcome.next, answers(asked), capabilities);
    match outcome.next {
        Next::Done => {},
        Next::Call { call, then } => {
            law_resume_wf(outcome.state, then, answers(asked));
            law_settles_wf(
                outcome.state.resume(then, answers(asked)).after(outcome.effects),
                answers,
                capabilities,
                asked + 1,
            );
        },
        Next::QueryCapabilities { window_id, mode } => {
            law_capabilities_known_wf(outcome.state, window_id, mode, capabilities);
            law_settles_wf(
                outcome.state.capabilities_known(window_id, mode, capabilities).after(
                    outcome.effects,
                ),
                answers,
                capabilities,
                asked,
            );
        },
    }
}

// ---- Requests ----

/// The host manages whatever it is asked to do.
pub open spec fn willing(answers: spec_fn(nat) -> bool) -> bool {
    forall|n: nat| #[trigger] answers(n)
}

/// No request is answered by these effects.
pub open spec fn unanswered<C>(effects: Seq<Effect<C>>) -> bool {
    forall|i: int| 0 <= i < effects.len() ==> !(#[trigger] effects[i] is CompleteCursorGrab)
}

/// The request is answered once, at the very end.
pub open spec fn answered<C>(effects: Seq<Effect<C>>, success: bool) -> bool {
    &&& effects.len() > 0
    &&& effects.last() == Effect::<C>::CompleteCursorGrab { success }
    &&& unanswered(effects.drop_last())
}

impl<C> AppState<C> {
    /// The same windows, with the same focus.
    pub open spec fn same_windows(self, before: AppState<C>) -> bool {
        &&& self.windows == before.windows
        &&& self.native_ids == before.native_ids
        &&& self.focused == before.focused
    }

    /// Nothing of a grab is left on the window.
    pub open spec fn freed(self, window_id: u32) -> bool {
        &&& !self.process_ungrab
        &&& !self.releasing(window_id)
        &&& !self.grabs(window_id)
    }
}

/// A release that was asked for, on its way.
spec fn release_underway<C>(
    start: AppState<C>,
    window_id: u32,
    agreed: bool,
    outcome: Outcome<C>,
) -> bool {
    let state = outcome.state;
    &&& outcome.wf()
    &&& state.same_windows(start)
    &&& state.capabilities == start.capabilities
    &&& state.motion.len() == 0
    &&& !start.grabs(window_id) ==> state.grab == start.grab
    &&& !start.grabs(window_id) && !start.releasing(window_id) ==> state.pending == start.pending
    &&& state.process_ungrab ==> start.process_ungrab
    &&& match outcome.next {
        Next::Done => {
            &&& !state.grabs(window_id)
            &&& answered(outcome.effects, state.freed(window_id) && state.is_open(window_id))
            &&& agreed ==> state.freed(window_id)
        },
        Next::Call { call, then } => {
            &&& unanswered(outcome.effects)
            &&& match then {
                Resume::ReleaseProcess { window_id: id, then: AfterRelease::Report } => id
                    == window_id,
                Resume::ReleasePending { window_id: id, target, then: AfterRelease::Report } => id
                    == window_id,
                Resume::ReleaseLive { window_id: id, then: AfterRelease::Report } => id
                    == window_id,
                _ => false,
            }
        },
        _ => false,
    }
}

proof fn lemma_unanswered_concat<C>(before: Seq<Effect<C>>, since: Seq<Effect<C>>, success: bool)
    requires
        unanswered(before),
    ensures
        unanswered(since) ==> unanswered(before + since),
        answered(since, success) ==> answered(before + since, success),
{
    if answered(since, success) {
        assert((before + since).drop_last() =~= before + since.drop_last());
    }
}

proof fn lemma_release_runs<C>(
    start: AppState<C>,
    window_id: u32,
    outcome: Outcome<C>,
    answers: spec_fn(nat) -> bool,
    capabilities: Capabilities,
    asked: nat,
)
    requires
        release_underway(start, window_id, willing(answers), outcome),
    ensures
        ({
            let end = settle(outcome, answers, capabilities, asked);
            &&& end.next == Next::Done
            &&& release_underway(start, window_id, willing(answers), end)
        }),
    decreases rank(outcome.next),
{
    if let Next::Call { call, then } = outcome.next {
        let state = outcome.state;
        let answer = answers(asked);
        let step = state.resume(then, answer);
        law_answers_make_progress(state, outcome.next, answer, capabilities);
        law_resume_wf(state, then, answer);
        lemma_unanswered_concat(outcome.effects, step.effects, true);
        lemma_unanswered_concat(outcome.effects, step.effects, false);
        lemma_release_runs(
            start,
            window_id,
            step.after(outcome.effects),
            answers,
            capabilities,
            asked + 1,
        );
    }
}

/// A request to give up the grab takes it from the window whatever the host
/// answers, and forgets undispatched motion.  What other windows hold, or have
/// still to release, stays as it is.  It is answered once, and with
/// success exactly if the window is open and nothing is left to be released for
/// it; a host that can release everything leaves nothing.
pub proof fn law_release_request<C>(
    state: AppState<C>,
    window_id: u32,
    answers: spec_fn(nat) -> bool,
    capabilities: Capabilities,
)
    requires
        state.wf(),
    ensures
        ({
            let end = settle(
                state.set_cursor_grab(window_id, LAUFEY_CURSOR_GRAB_NONE),
                answers,
                capabilities,
                0,
            );
            &&& end.next == Next::Done
            &&& end.state.wf()
            &&& end.state.same_windows(state)
            &&& end.state.motion.len() == 0
            &&& !end.state.grabs(window_id)
            &&& !state.grabs(window_id) ==> end.state.grab == state.grab
            &&& !state.grabs(window_id) && !state.releasing(window_id) ==> end.state.pending
                == state.pending
            &&& end.state.process_ungrab ==> state.process_ungrab
            &&& answered(end.effects, end.state.freed(window_id) && end.state.is_open(window_id))
            &&& willing(answers) ==> end.state.freed(window_id)
        }),
{
    let outcome = state.set_cursor_grab(window_id, LAUFEY_CURSOR_GRAB_NONE);
    law_set_cursor_grab_wf(state, window_id, LAUFEY_CURSOR_GRAB_NONE);
    lemma_release_runs(state, window_id, outcome, answers, capabilities, 0);
}

impl<C> AppState<C> {
    /// Where the display has to be asked it answers with `display`.  The window
    /// may have such a grab then.
    pub open spec fn entitled(
        self,
        window_id: u32,
        mode: AcceptedCursorGrabMode,
        display: Capabilities,
    ) -> bool {
        let known = match self.capabilities {
            Some(known) => known,
            None => display,
        };
        &&& self.may_grab(window_id)
        &&& known.allows(mode == AcceptedCursorGrabMode::Locked)
    }
}

/// A request for a grab, on its way.
spec fn acquire_underway<C>(
    start: AppState<C>,
    window_id: u32,
    mode: AcceptedCursorGrabMode,
    agreed: bool,
    display: Capabilities,
    outcome: Outcome<C>,
) -> bool {
    let state = outcome.state;
    let entitled = start.entitled(window_id, mode, display);
    let held = Some(AcceptedCursorGrab { window_id, mode });
    &&& outcome.wf()
    &&& state.same_windows(start)
    &&& state.capabilities == start.capabilities || (start.capabilities is None
        && state.capabilities == Some(display))
    &&& match outcome.next {
        Next::Done => {
            let success = entitled && state.grab == held;
            &&& answered(outcome.effects, success)
            &&& !success ==> state.grab == start.grab || state.grab is None
            &&& !entitled ==> state.grab == start.grab
            &&& entitled && agreed ==> success
        },
        Next::QueryCapabilities { window_id: id, mode: asked_mode } => {
            &&& unanswered(outcome.effects)
            &&& id == window_id
            &&& asked_mode == mode
            &&& state.grab == start.grab
        },
        Next::Call { call, then } => {
            &&& unanswered(outcome.effects)
            &&& match then {
                Resume::AcquireProcess { window_id: id, mode: m } => {
                    &&& id == window_id
                    &&& m == mode
                    &&& state.grab == start.grab
                },
                Resume::AcquirePending { window_id: id, mode: m, target } => {
                    &&& id == window_id
                    &&& m == mode
                    &&& state.grab == start.grab
                    &&& agreed ==> !state.process_ungrab
                },
                Resume::ReleaseLive {
                    window_id: other,
                    then: AfterRelease::Acquire { window_id: id, mode: m },
                } => {
                    &&& id == window_id
                    &&& m == mode
                    &&& state.grab == start.grab
                    &&& state.grab != held
                    &&& entitled
                },
                Resume::AcquireGrab { window_id: id, mode: m } => {
                    &&& id == window_id
                    &&& m == mode
                    &&& entitled
                },
                Resume::AcquireFallback { window_id: id } => {
                    &&& id == window_id
                    &&& mode == AcceptedCursorGrabMode::Locked
                    &&& entitled
                    &&& !agreed
                },
                _ => false,
            }
        },
    }
}

proof fn lemma_acquire_answered<C>(
    start: AppState<C>,
    window_id: u32,
    mode: AcceptedCursorGrabMode,
    outcome: Outcome<C>,
    agreed: bool,
    display: Capabilities,
    then: Resume,
    answer: bool,
)
    requires
        acquire_underway(start, window_id, mode, agreed, display, outcome),
        outcome.next == (Next::Call { call: call_at(then), then }),
        agreed ==> answer,
    ensures
        acquire_underway(
            start,
            window_id,
            mode,
            agreed,
            display,
            outcome.state.resume(then, answer).after(outcome.effects),
        ),
{
    let state = outcome.state;
    let step = state.resume(then, answer);
    let now = step.after(outcome.effects);
    law_resume_wf(state, then, answer);
    lemma_unanswered_concat(outcome.effects, step.effects, true);
    lemma_unanswered_concat(outcome.effects, step.effects, false);
    match then {
        Resume::AcquireProcess { .. } => {
            assert(acquire_underway(start, window_id, mode, agreed, display, now));
        },
        Resume::AcquirePending { .. } => {
            assert(acquire_underway(start, window_id, mode, agreed, display, now));
        },
        Resume::ReleaseLive { .. } => {
            assert(acquire_underway(start, window_id, mode, agreed, display, now));
        },
        Resume::AcquireGrab { .. } => {
            assert(acquire_underway(start, window_id, mode, agreed, display, now));
        },
        _ => {},
    }
}

proof fn lemma_acquire_runs<C>(
    start: AppState<C>,
    window_id: u32,
    mode: AcceptedCursorGrabMode,
    outcome: Outcome<C>,
    answers: spec_fn(nat) -> bool,
    capabilities: Capabilities,
    asked: nat,
)
    requires
        acquire_underway(start, window_id, mode, willing(answers), capabilities, outcome),
    ensures
        ({
            let end = settle(outcome, answers, capabilities, asked);
            &&& end.next == Next::Done
            &&& acquire_underway(start, window_id, mode, willing(answers), capabilities, end)
        }),
    decreases rank(outcome.next),
{
    let state = outcome.state;
    let answer = answers(asked);
    law_answers_make_progress(state, outcome.next, answer, capabilities);
    match outcome.next {
        Next::Done => {},
        Next::Call { call, then } => {
            let step = state.resume(then, answer);
            lemma_acquire_answered(
                start,
                window_id,
                mode,
                outcome,
                willing(answers),
                capabilities,
                then,
                answer,
            );
            lemma_acquire_runs(
                start,
                window_id,
                mode,
                step.after(outcome.effects),
                answers,
                capabilities,
                asked + 1,
            );
        },
        Next::QueryCapabilities { window_id: id, mode: m } => {
            let step = state.capabilities_known(id, m, capabilities);
            law_capabilities_known_wf(state, id, m, capabilities);
            lemma_unanswered_concat(outcome.effects, step.effects, true);
            lemma_unanswered_concat(outcome.effects, step.effects, false);
            lemma_acquire_runs(
                start,
                window_id,
                mode,
                step.after(outcome.effects),
                answers,
                capabilities,
                asked,
            );
        },
    }
}

/// A request for a grab is answered once, with success exactly if the window is
/// the focused one, has the cursor inside, lives on a display that allows the
/// mode, and holds the grab in that mode now.  A host that manages everything
/// grants every such request.  A refused request leaves the grab as it was,
/// or no grab at all; one that the window was not entitled to leaves it as it was.
pub proof fn law_grab_request<C>(
    state: AppState<C>,
    window_id: u32,
    code: i32,
    mode: AcceptedCursorGrabMode,
    answers: spec_fn(nat) -> bool,
    capabilities: Capabilities,
)
    requires
        state.wf(),
        requested_mode(code) == Some(mode),
    ensures
        ({
            let end = settle(state.set_cursor_grab(window_id, code), answers, capabilities, 0);
            let entitled = state.entitled(window_id, mode, capabilities);
            let success = entitled && end.state.grab == Some(
                AcceptedCursorGrab { window_id, mode },
            );
            &&& end.next == Next::Done
            &&& end.state.wf()
            &&& end.state.same_windows(state)
            &&& answered(end.effects, success)
            &&& entitled && willing(answers) ==> success
            &&& !success ==> end.state.grab == state.grab || end.state.grab is None
            &&& !entitled ==> end.state.grab == state.grab
        }),
{
    let outcome = state.set_cursor_grab(window_id, code);
    law_set_cursor_grab_wf(state, window_id, code);
    lemma_acquire_runs(state, window_id, mode, outcome, answers, capabilities, 0);
}

/// What the requester is told about a request with this code, made in `before`
/// and settled in `end`.
pub open spec fn granted<C>(
    before: AppState<C>,
    end: AppState<C>,
    window_id: u32,
    code: i32,
    display: Capabilities,
) -> bool {
    if code == LAUFEY_CURSOR_GRAB_NONE {
        end.freed(window_id) && end.is_open(window_id)
    } else {
        match requested_mode(code) {
            Some(mode) => {
                &&& before.entitled(window_id, mode, display)
                &&& end.grab == Some(AcceptedCursorGrab { window_id, mode })
            },
            None => false,
        }
    }
}

/// Effects that come before an input come before all that it leads to.
pub proof fn lemma_settles_after<C>(
    outcome: Outcome<C>,
    earlier: Seq<Effect<C>>,
    answers: spec_fn(nat) -> bool,
    capabilities: Capabilities,
    asked: nat,
)
    ensures
        settle(outcome.after(earlier), answers, capabilities, asked) == settle(
            outcome,
            answers,
            capabilities,
            asked,
        ).after(earlier),
    decreases rank(outcome.next),
{
    let state = outcome.state;
    law_answers_make_progress(state, outcome.next, answers(asked), capabilities);
    match outcome.next {
        Next::Done => {},
        Next::Call { call, then } => {
            let step = state.resume(then, answers(asked));
            assert(step.after(earlier + outcome.effects) =~= step.after(outcome.effects).after(
                earlier,
            ));
            lemma_settles_after(
                step.after(outcome.effects),
                earlier,
                answers,
                capabilities,
                asked + 1,
            );
        },
        Next::QueryCapabilities { window_id, mode } => {
            let step = state.capabilities_known(window_id, mode, capabilities);
            assert(step.after(earlier + outcome.effects) =~= step.after(outcome.effects).after(
                earlier,
            ));
            lemma_settles_after(
                step.after(outcome.effects),
                earlier,
                answers,
                capabilities,
                asked,
            );
        },
    }
}

/// When the runtime asks for a change of the grab, with any code, motion that
/// was collected is dispatched first.  Then the request is dealt with as such,
/// and the runtime is told once, at the very end, exactly whether it was
/// granted.  A host that manages everything grants each request that is not
/// refused for the window's sake.
pub proof fn law_runtime_request<C>(
    state: AppState<C>,
    window_id: u32,
    code: i32,
    answers: spec_fn(nat) -> bool,
    capabilities: Capabilities,
)
    requires
        state.wf(),
    ensures
        ({
            let request = CommonEvent::SetCursorGrab { window_id, mode: code };
            let end = settle(state.user_event(request), answers, capabilities, 0);
            let direct = settle(
                state.without_motion().set_cursor_grab(window_id, code),
                answers,
                capabilities,
                0,
            );
            let success = granted(state, end.state, window_id, code, capabilities);
            &&& end.next == Next::Done
            &&& end.state.wf()
            &&& end.state.same_windows(state)
            &&& end == direct.after(state.flush_effects())
            &&& unanswered(state.flush_effects())
            &&& answered(direct.effects, success)
            &&& answered(end.effects, success)
            &&& code == LAUFEY_CURSOR_GRAB_NONE ==> {
                &&& !end.state.grabs(window_id)
                &&& !state.grabs(window_id) ==> end.state.grab == state.grab
                &&& willing(answers) ==> success == state.is_open(window_id)
            }
            &&& requested_mode(code) matches Some(mode) ==> {
                &&& willing(answers) ==> success == state.entitled(window_id, mode, capabilities)
                &&& !success ==> end.state.grab == state.grab || end.state.grab is None
            }
        }),
{
    let quiet = state.without_motion();
    let flushed = state.flush_effects();
    let outcome = quiet.set_cursor_grab(window_id, code);
    lemma_settles_after(outcome, flushed, answers, capabilities, 0);
    if code == LAUFEY_CURSOR_GRAB_NONE {
        law_release_request(quiet, window_id, answers, capabilities);
    } else {
        match requested_mode(code) {
            Some(mode) => {
                law_grab_request(quiet, window_id, code, mode, answers, capabilities);
            },
            None => {
                law_unknown_request_is_refused(quiet, window_id, code, answers, capabilities);
            },
        }
    }
    let direct = settle(outcome, answers, capabilities, 0);
    let success = granted(state, direct.state, window_id, code, capabilities);
    lemma_unanswered_concat(flushed, direct.effects, success);
}

/// A request with a code that means nothing is refused at once, and changes
/// nothing.
pub proof fn law_unknown_request_is_refused<C>(
    state: AppState<C>,
    window_id: u32,
    code: i32,
    answers: spec_fn(nat) -> bool,
    capabilities: Capabilities,
)
    requires
        code != LAUFEY_CURSOR_GRAB_NONE,
        requested_mode(code) is None,
    ensures
        ({
            let end = settle(state.set_cursor_grab(window_id, code), answers, capabilities, 0);
            &&& end.next == Next::Done
            &&& end.state == state
            &&& answered(end.effects, false)
        }),
{
}

/// Asking again for the grab that the window already holds is confirmed without
/// a native call.
pub proof fn law_repeated_request_is_confirmed<C>(
    state: AppState<C>,
    window_id: u32,
    code: i32,
    mode: AcceptedCursorGrabMode,
)
    requires
        state.wf(),
        requested_mode(code) == Some(mode),
        state.grab == Some(AcceptedCursorGrab { window_id, mode }),
        state.may_grab(window_id),
        state.support(window_id, mode) == Some(true),
    ensures
        state.set_cursor_grab(window_id, code) == state.grab_request_answered(true),
{
    assert(state.without_orphan() =~= state);
}

/// Giving a grab up again leaves no grab at all.
pub proof fn law_release_undoes_grab<C>(
    state: AppState<C>,
    window_id: u32,
    mode: AcceptedCursorGrabMode,
    answers: spec_fn(nat) -> bool,
    capabilities: Capabilities,
)
    requires
        state.wf(),
        state.grab == Some(AcceptedCursorGrab { window_id, mode }),
    ensures
        ({
            let end = settle(
                state.set_cursor_grab(window_id, LAUFEY_CURSOR_GRAB_NONE),
                answers,
                capabilities,
                0,
            );
            &&& end.state.grab is None
            &&& end.state.same_windows(state)
            &&& answered(end.effects, answers(0))
            &&& end.state.pending == (if answers(0) {
                None
            } else {
                Some(PendingPointerUngrab { window_id, detached: false })
            })
        }),
{
    reveal_with_fuel(settle, 3);
    let stripped = state.without_motion();
    let outcome = state.set_cursor_grab(window_id, LAUFEY_CURSOR_GRAB_NONE);
    assert(outcome.state == stripped);
    let step = stripped.release_live_answered(window_id, AfterRelease::Report, answers(0));
    assert(step.effects.drop_last() =~= stripped.live_effects(window_id));
}

// ---- Losing the grab ----

/// Somewhere among the effects the event loop ends.
pub open spec fn exits<C>(effects: Seq<Effect<C>>) -> bool {
    exists|i: int| 0 <= i < effects.len() && #[trigger] effects[i] is Exit
}

/// The runtime is told once that a window goes away, and it is this one.
pub open spec fn tells_close_once<C>(effects: Seq<Effect<C>>, window_id: u32) -> bool {
    exists|i: int|
        #![trigger effects[i]]
        {
            &&& 0 <= i < effects.len()
            &&& effects[i] == Effect::<C>::DispatchCloseRequested { window_id }
            &&& forall|j: int|
                0 <= j < effects.len() && #[trigger] effects[j] is DispatchCloseRequested ==> j == i
        }
}

proof fn lemma_exits_concat<C>(first: Seq<Effect<C>>, second: Seq<Effect<C>>)
    ensures
        exits(first + second) == (exits(first) || exits(second)),
{
    let all = first + second;
    if exits(first) {
        let i = choose|i: int| 0 <= i < first.len() && #[trigger] first[i] is Exit;
        assert(all[i] is Exit);
    }
    if exits(second) {
        let i = choose|i: int| 0 <= i < second.len() && #[trigger] second[i] is Exit;
        assert(all[first.len() + i] is Exit);
    }
}

/// A window that loses the focus loses the grab with it, whatever the host
/// answers; if the native release failed, it is tried again later.
pub proof fn law_focus_loss_releases<C>(
    state: AppState<C>,
    native_id: u64,
    window_id: u32,
    answers: spec_fn(nat) -> bool,
    capabilities: Capabilities,
)
    requires
        state.wf(),
        state.laufey_id(native_id) == Some(window_id),
        state.is_open(window_id),
    ensures
        ({
            let end = settle(
                state.window_event(native_id, WindowEvent::Focused { focused: false }),
                answers,
                capabilities,
                0,
            );
            &&& end.next == Next::Done
            &&& end.state.wf()
            &&& !end.state.grabs(window_id)
            &&& end.state.focused != Some(window_id)
            &&& end.state.windows == state.windows
            &&& state.grabs(window_id) ==> end.state.releasing(window_id) == !answers(0)
            &&& !state.grabs(window_id) ==> end.state.grab == state.grab
            &&& state.focused != Some(window_id) ==> end.state.focused == state.focused
            &&& end.effects.last() == Effect::<C>::DispatchFocused { window_id, focused: false }
        }),
{
    let outcome = state.window_event(native_id, WindowEvent::Focused { focused: false });
    law_window_event_wf(state, native_id, WindowEvent::Focused { focused: false });
    law_settles_wf(outcome, answers, capabilities, 0);
    reveal_with_fuel(settle, 3);
}

/// A window that the cursor leaves loses the grab as well.
pub proof fn law_cursor_left_releases<C>(
    state: AppState<C>,
    native_id: u64,
    window_id: u32,
    answers: spec_fn(nat) -> bool,
    capabilities: Capabilities,
)
    requires
        state.wf(),
        state.laufey_id(native_id) == Some(window_id),
        state.is_open(window_id),
    ensures
        ({
            let end = settle(
                state.window_event(native_id, WindowEvent::CursorLeft),
                answers,
                capabilities,
                0,
            );
            &&& end.next == Next::Done
            &&& end.state.wf()
            &&& !end.state.grabs(window_id)
            &&& end.state.windows == state.with_cursor_inside(window_id, false).windows
            &&& end.state.focused == state.focused
            &&& end.state.motion.len() == 0
            &&& state.grabs(window_id) ==> end.state.releasing(window_id) == !answers(0)
            &&& !state.grabs(window_id) ==> end.state.grab == state.grab
            &&& end.effects.last() == Effect::<C>::DispatchCursorEnterLeave {
                window_id,
                entered: false,
                modifiers: state.modifiers(window_id),
            }
        }),
{
    let outcome = state.window_event(native_id, WindowEvent::CursorLeft);
    law_window_event_wf(state, native_id, WindowEvent::CursorLeft);
    law_settles_wf(outcome, answers, capabilities, 0);
    reveal_with_fuel(settle, 3);
}

/// No grab survives a suspension, and no motion either.
pub proof fn law_suspension_releases<C>(
    state: AppState<C>,
    answers: spec_fn(nat) -> bool,
    capabilities: Capabilities,
)
    requires
        state.wf(),
    ensures
        ({
            let end = settle(state.suspended(), answers, capabilities, 0);
            &&& end.next == Next::Done
            &&& end.state.wf()
            &&& end.state.grab is None
            &&& end.state.motion.len() == 0
            &&& end.state.same_windows(state)
            &&& state.grab matches Some(grab) ==> end.state.releasing(grab.window_id)
                == !answers(0)
            &&& state.grab is None ==> end.state == state
        }),
{
    law_suspended_wf(state);
    law_settles_wf(state.suspended(), answers, capabilities, 0);
    reveal_with_fuel(settle, 3);
}

/// The window has been closed, where `released` says whether the native release
/// of its grab worked, if it had one: the window is gone, and so is its grab.  If
/// the native release failed, the native window outlives its closing until a
/// later release succeeds.  What other windows hold, or have still to release,
/// stays as it is.  The event loop ends exactly if no window is left.
pub open spec fn closes<C>(
    before: AppState<C>,
    window_id: u32,
    released: bool,
    end: Outcome<C>,
) -> bool {
    &&& end.next == Next::Done
    &&& end.state.wf()
    &&& end.state.windows == before.windows.remove(window_id)
    &&& end.state.focused == before.focused
    &&& end.state.grab == (if before.grabs(window_id) {
        None
    } else {
        before.grab
    })
    &&& end.state.pending == (if !before.grabs(window_id) && !before.releasing(window_id) {
        before.pending
    } else if released {
        None
    } else {
        Some(PendingPointerUngrab { window_id, detached: true })
    })
    &&& end.state.process_ungrab == before.process_ungrab
    &&& end.state.motion.len() == 0
    &&& exits(end.effects) == end.state.windows.is_empty()
}

proof fn lemma_closed_exits<C>(state: AppState<C>)
    ensures
        exits(state.closed().effects) == state.windows.is_empty(),
{
    if state.windows.is_empty() {
        assert(state.closed().effects[0] is Exit);
    }
}

proof fn lemma_close_released_exits<C>(state: AppState<C>, window_id: u32)
    ensures
        ({
            let outcome = state.close_released(window_id);
            exits(outcome.effects) == outcome.state.windows.is_empty()
        }),
{
    let outcome = state.close_released(window_id);
    lemma_closed_exits(outcome.state);
    if state.is_open(window_id) {
        let removed: Seq<Effect<C>> = if state.releasing(window_id) {
            seq![Effect::RemoveWindow { window_id }, Effect::DetachWindow { window_id }]
        } else {
            seq![Effect::RemoveWindow { window_id }, Effect::DropWindow { window_id }]
        };
        lemma_exits_concat(removed, outcome.state.closed().effects);
        assert(!exits(removed));
    }
}

proof fn lemma_close_settles<C>(
    state: AppState<C>,
    window_id: u32,
    answers: spec_fn(nat) -> bool,
    capabilities: Capabilities,
    asked: nat,
)
    requires
        state.wf(),
    ensures
        closes(
            state,
            window_id,
            answers(asked),
            settle(state.close_window(window_id, false), answers, capabilities, asked),
        ),
{
    let outcome = state.close_window(window_id, false);
    let released = answers(asked);
    law_close_window_wf(state, window_id, false);
    law_settles_wf(outcome, answers, capabilities, asked);
    reveal_with_fuel(settle, 3);
    if !state.is_open(window_id) {
        assert(state.windows.remove(window_id) =~= state.windows);
    }
    if state.grabs(window_id) {
        let freed = state.live_answered(window_id, released).without_motion();
        lemma_close_released_exits(freed, window_id);
        lemma_exits_concat(state.live_effects(window_id), freed.close_released(window_id).effects);
        assert(!exits(state.live_effects(window_id)));
    } else if state.releasing(window_id) {
        let target = state.retry_target()->0;
        let shown = state.pending_effects(target, released);
        let freed = state.pending_answered(released).without_motion();
        lemma_close_released_exits(freed, window_id);
        lemma_exits_concat(shown, freed.close_released(window_id).effects);
        assert(!exits(shown));
    } else {
        lemma_close_released_exits(state.without_motion(), window_id);
    }
}

/// Closing a window comes to all that [`closes`] says, whatever the host answers.
pub proof fn law_close_releases<C>(
    state: AppState<C>,
    window_id: u32,
    answers: spec_fn(nat) -> bool,
    capabilities: Capabilities,
)
    requires
        state.wf(),
    ensures
        closes(
            state,
            window_id,
            answers(0),
            settle(state.close_window(window_id, false), answers, capabilities, 0),
        ),
{
    lemma_close_settles(state, window_id, answers, capabilities, 0);
}

proof fn lemma_closes_after<C>(
    before: AppState<C>,
    window_id: u32,
    released: bool,
    end: Outcome<C>,
)
    requires
        closes(before.without_motion(), window_id, released, end),
    ensures
        closes(before, window_id, released, end.after(before.flush_effects())),
{
    assert(!exits(before.flush_effects()));
    lemma_exits_concat(before.flush_effects(), end.effects);
}

/// A window that the runtime closes goes the same way, after motion that was
/// collected has been dispatched.
pub proof fn law_runtime_close<C>(
    state: AppState<C>,
    window_id: u32,
    answers: spec_fn(nat) -> bool,
    capabilities: Capabilities,
)
    requires
        state.wf(),
    ensures
        ({
            let request = CommonEvent::CloseWindow { window_id };
            let end = settle(state.user_event(request), answers, capabilities, 0);
            let direct = settle(
                state.without_motion().close_window(window_id, false),
                answers,
                capabilities,
                0,
            );
            &&& end == direct.after(state.flush_effects())
            &&& closes(state, window_id, answers(0), end)
        }),
{
    let quiet = state.without_motion();
    let outcome = quiet.close_window(window_id, false);
    let direct = settle(outcome, answers, capabilities, 0);
    lemma_settles_after(outcome, state.flush_effects(), answers, capabilities, 0);
    lemma_close_settles(quiet, window_id, answers, capabilities, 0);
    lemma_closes_after(state, window_id, answers(0), direct);
}

/// A close that the runtime is asked about goes ahead exactly if it agrees, and
/// then the same way.  If it does not agree, nothing changes.
pub proof fn law_runtime_decides_close<C>(
    state: AppState<C>,
    native_id: u64,
    window_id: u32,
    answers: spec_fn(nat) -> bool,
    capabilities: Capabilities,
)
    requires
        state.wf(),
        state.laufey_id(native_id) == Some(window_id),
        state.is_open(window_id),
    ensures
        ({
            let end = settle(
                state.window_event(native_id, WindowEvent::CloseRequested),
                answers,
                capabilities,
                0,
            );
            &&& answers(0) ==> closes(state, window_id, answers(1), end)
            &&& !answers(0) ==> end == Outcome::done(
                state.without_motion(),
                state.flush_effects(),
            )
        }),
{
    let quiet = state.without_motion();
    let flushed = state.flush_effects();
    let outcome = state.window_event(native_id, WindowEvent::CloseRequested);
    let step = quiet.close_decided(window_id, answers(0));
    assert(outcome.effects =~= flushed);
    assert(settle(outcome, answers, capabilities, 0) == settle(
        step.after(flushed),
        answers,
        capabilities,
        1,
    ));
    lemma_settles_after(step, flushed, answers, capabilities, 1);
    if answers(0) {
        lemma_close_settles(quiet, window_id, answers, capabilities, 1);
        lemma_closes_after(
            state,
            window_id,
            answers(1),
            settle(step, answers, capabilities, 1),
        );
    } else {
        assert(step.after(flushed) =~= Outcome::done(quiet, flushed));
    }
}

/// Nothing among the effects tells the runtime that a window goes away.
spec fn keeps_quiet<C>(effects: Seq<Effect<C>>) -> bool {
    forall|i: int| 0 <= i < effects.len() ==> !(#[trigger] effects[i] is DispatchCloseRequested)
}

proof fn lemma_destroyed_settles<C>(
    state: AppState<C>,
    window_id: u32,
    answers: spec_fn(nat) -> bool,
    capabilities: Capabilities,
)
    requires
        state.wf(),
    ensures
        ({
            let end = settle(state.destroyed(window_id), answers, capabilities, 0);
            &&& exits(end.effects) == end.state.windows.is_empty()
            &&& keeps_quiet(end.effects)
        }),
{
    reveal_with_fuel(settle, 2);
    let outcome = state.destroyed(window_id);
    let end = settle(outcome, answers, capabilities, 0);
    lemma_closed_exits(end.state);
    if state.grabs(window_id) || state.releasing(window_id) {
        assert(!exits(outcome.effects));
        lemma_exits_concat(outcome.effects, end.state.closed().effects);
    } else {
        let removed: Seq<Effect<C>> = if state.is_open(window_id) {
            seq![Effect::RemoveWindow { window_id }, Effect::DropWindow { window_id }]
        } else {
            seq![]
        };
        assert(!exits(removed));
        lemma_exits_concat(removed, end.state.closed().effects);
        assert(outcome.effects =~= removed + end.state.closed().effects);
    }
}

proof fn lemma_destroyed_state<C>(
    state: AppState<C>,
    window_id: u32,
    answers: spec_fn(nat) -> bool,
    capabilities: Capabilities,
)
    requires
        state.is_open(window_id),
    ensures
        ({
            let had_grab = state.grabs(window_id) || state.releasing(window_id);
            let now = state.destroyed(window_id).state;
            settle(state.destroyed(window_id), answers, capabilities, 0).state == (AppState {
                process_ungrab: if had_grab {
                    !answers(0)
                } else {
                    now.process_ungrab
                },
                ..now
            })
        }),
{
    reveal_with_fuel(settle, 2);
}

/// A window that the system destroyed is gone together with its grab, and no
/// release is tried on it again; what other windows hold, or have still to
/// release, stays as it is.  The runtime is told once.  If the window had a grab,
/// the whole process is freed of it, now or later.  The event loop ends exactly
/// if no window is left.
pub proof fn law_destruction_releases<C>(
    state: AppState<C>,
    native_id: u64,
    window_id: u32,
    answers: spec_fn(nat) -> bool,
    capabilities: Capabilities,
)
    requires
        state.wf(),
        state.laufey_id(native_id) == Some(window_id),
        state.is_open(window_id),
    ensures
        ({
            let end = settle(
                state.window_event(native_id, WindowEvent::Destroyed),
                answers,
                capabilities,
                0,
            );
            let had_grab = state.grabs(window_id) || state.releasing(window_id);
            &&& end.next == Next::Done
            &&& end.state.wf()
            &&& end.state.windows == state.windows.remove(window_id)
            &&& end.state.focused == state.focused
            &&& end.state.grab == (if state.grabs(window_id) {
                None
            } else {
                state.grab
            })
            &&& end.state.pending == (if state.releasing(window_id) {
                None
            } else {
                state.pending
            })
            &&& end.state.process_ungrab == (if had_grab {
                !answers(0)
            } else {
                state.process_ungrab
            })
            &&& end.state.motion.len() == 0
            &&& tells_close_once(end.effects, window_id)
            &&& exits(end.effects) == end.state.windows.is_empty()
        }),
{
    let quiet = state.without_motion();
    let flushed = state.flush_effects();
    let told = seq![Effect::<C>::DispatchCloseRequested { window_id }];
    let outcome = state.window_event(native_id, WindowEvent::Destroyed);
    let direct = settle(quiet.destroyed(window_id), answers, capabilities, 0);
    law_close_window_wf(quiet, window_id, true);
    law_settles_wf(quiet.destroyed(window_id), answers, capabilities, 0);
    lemma_destroyed_settles(quiet, window_id, answers, capabilities);
    assert(outcome =~= quiet.destroyed(window_id).after(told).after(flushed));
    lemma_settles_after(quiet.destroyed(window_id), told, answers, capabilities, 0);
    lemma_settles_after(quiet.destroyed(window_id).after(told), flushed, answers, capabilities, 0);
    let end = settle(outcome, answers, capabilities, 0);
    assert(end == direct.after(told).after(flushed));
    assert(!exits(told));
    assert(!exits(flushed));
    assert(keeps_quiet(flushed));
    lemma_exits_concat(told, direct.effects);
    lemma_exits_concat(flushed, told + direct.effects);
    let position = flushed.len() as int;
    assert(end.effects[position] == Effect::<C>::DispatchCloseRequested { window_id });
    lemma_destroyed_state(quiet, window_id, answers, capabilities);
}

// ---- Waiting ----

/// Before the loop waits, everything that is still to be released is tried
/// again.  The wait is short exactly if something is left even then; a host that
/// can release everything leaves nothing.
pub proof fn law_waiting_retries<C>(
    state: AppState<C>,
    answers: spec_fn(nat) -> bool,
    capabilities: Capabilities,
)
    requires
        state.wf(),
    ensures
        ({
            let end = settle(state.about_to_wait(), answers, capabilities, 0);
            let flow = if end.state.outstanding() {
                ControlFlow::WaitFor { millis: 50 }
            } else {
                ControlFlow::Wait
            };
            &&& end.next == Next::Done
            &&& end.state.wf()
            &&& end.state.same_windows(state)
            &&& end.state.grab == state.grab
            &&& end.state.motion.len() == 0
            &&& end.effects.contains(Effect::SetControlFlow { flow })
            &&& end.state.process_ungrab ==> state.process_ungrab
            &&& end.state.pending is Some ==> end.state.pending == state.pending
            &&& willing(answers) ==> !end.state.outstanding()
        }),
{
    law_about_to_wait_wf(state);
    law_settles_wf(state.about_to_wait(), answers, capabilities, 0);
    reveal_with_fuel(settle, 4);
    let idle = state.without_orphan();
    lemma_waiting_finishes(idle, seq![]);
    assert(idle.wait_finished().after(seq![]) =~= idle.wait_finished());
    lemma_waiting_sets_flow(state.about_to_wait(), answers, capabilities, 0);
}

/// The wait that follows the retries, on its way.
spec fn waiting<C>(outcome: Outcome<C>) -> bool {
    match outcome.next {
        Next::Done => outcome.effects.contains(
            Effect::SetControlFlow {
                flow: if outcome.state.outstanding() {
                    ControlFlow::WaitFor { millis: 50 }
                } else {
                    ControlFlow::Wait
                },
            },
        ),
        Next::Call { call, then } => then is WaitProcess || then is WaitPending,
        _ => false,
    }
}

proof fn lemma_waiting_finishes<C>(state: AppState<C>, before: Seq<Effect<C>>)
    ensures
        waiting(state.wait_finished().after(before)),
{
    let outcome = state.wait_finished().after(before);
    let flow = if state.outstanding() {
        ControlFlow::WaitFor { millis: 50 }
    } else {
        ControlFlow::Wait
    };
    assert(outcome.effects[before.len() as int] == Effect::<C>::SetControlFlow { flow });
}

proof fn lemma_waiting_sets_flow<C>(
    outcome: Outcome<C>,
    answers: spec_fn(nat) -> bool,
    capabilities: Capabilities,
    asked: nat,
)
    requires
        waiting(outcome),
    ensures
        waiting(settle(outcome, answers, capabilities, asked)),
    decreases rank(outcome.next),
{
    if let Next::Call { call, then } = outcome.next {
        let state = outcome.state;
        let answer = answers(asked);
        let step = state.resume(then, answer);
        law_answers_make_progress(state, outcome.next, answer, capabilities);
        match then {
            Resume::WaitProcess => {
                lemma_waiting_finishes(
                    state.process_answered(answer).without_orphan(),
                    outcome.effects,
                );
            },
            Resume::WaitPending { target } => {
                let shown = state.pending_effects(target, answer);
                lemma_waiting_finishes(state.pending_answered(answer), outcome.effects + shown);
                assert(step.after(outcome.effects) =~= state.pending_answered(
                    answer,
                ).wait_finished().after(outcome.effects + shown));
            },
            _ => {},
        }
        lemma_waiting_sets_flow(step.after(outcome.effects), answers, capabilities, asked + 1);
    }
}

} // verus!
