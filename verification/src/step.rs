//! The vocabulary that the application state machine shares with its host.
//!
//! The host feeds in what happened, carries out the effects of the answer in
//! order, and, where the answer asks for a native call, makes that call and
//! feeds its result back in with the resume point it was given.
use vstd::prelude::*;
use crate::cursor::AcceptedCursorGrabMode;

verus! {

/// What happened to a window.  `C` is the host's coordinate type.
#[derive(Debug, Clone, Copy, PartialEq)]
pub enum WindowEvent<C> {
    CloseRequested,
    Resized { width: u32, height: u32 },
    Moved { x: i32, y: i32 },
    ModifiersChanged { modifiers: u32 },
    KeyboardInput,
    CursorMoved { x: C, y: C },
    MouseInput,
    MouseWheel,
    CursorEntered,
    CursorLeft,
    Focused { focused: bool },
    Destroyed,
    /// Anything that no rule is about.
    Unhandled,
}

/// What a device reported.
#[derive(Debug, Clone, Copy, PartialEq)]
pub enum DeviceEvent<C> {
    MouseMotion { dx: C, dy: C },
    Other,
}

/// What the runtime asked for.
#[derive(Debug, Clone, Copy, PartialEq, Eq, Structural)]
pub enum CommonEvent {
    Quit,
    CreateWindow { window_id: u32 },
    CloseWindow { window_id: u32 },
    SetCursorGrab { window_id: u32, mode: i32 },
    UiTask,
    DockTask,
    TrayTask,
    SetTitle { window_id: u32 },
    SetWindowSize { window_id: u32 },
    SetWindowPosition { window_id: u32 },
    SetResizable { window_id: u32 },
    SetAlwaysOnTop { window_id: u32 },
    SetClickPassthrough { window_id: u32 },
    Show { window_id: u32 },
    Hide { window_id: u32 },
    Focus { window_id: u32 },
    SetApplicationMenu { window_id: u32 },
    ShowContextMenu { window_id: u32 },
    Other,
}

impl CommonEvent {
    /// The window whose native properties the event changes, if it is about
    /// nothing else.
    pub open spec fn property_window(self) -> Option<u32> {
        match self {
            CommonEvent::SetTitle { window_id } => Some(window_id),
            CommonEvent::SetWindowSize { window_id } => Some(window_id),
            CommonEvent::SetWindowPosition { window_id } => Some(window_id),
            CommonEvent::SetResizable { window_id } => Some(window_id),
            CommonEvent::SetAlwaysOnTop { window_id } => Some(window_id),
            CommonEvent::SetClickPassthrough { window_id } => Some(window_id),
            CommonEvent::Show { window_id } => Some(window_id),
            CommonEvent::Hide { window_id } => Some(window_id),
            CommonEvent::Focus { window_id } => Some(window_id),
            CommonEvent::SetApplicationMenu { window_id } => Some(window_id),
            CommonEvent::ShowContextMenu { window_id } => Some(window_id),
            _ => None,
        }
    }
}

/// A native window that a grab call is made on.
#[derive(Debug, Clone, Copy, PartialEq, Eq, Structural)]
pub enum GrabTarget {
    /// An open window.
    Live { window_id: u32 },
    /// The closed window that the host keeps alive for its grab.
    Detached,
}

/// The grab mode that a native window is put into.
#[derive(Debug, Clone, Copy, PartialEq, Eq, Structural)]
pub enum NativeGrabMode {
    Free,
    Confined,
    Locked,
}

/// How the event loop waits for the next event.
#[derive(Debug, Clone, Copy, PartialEq, Eq, Structural)]
pub enum ControlFlow {
    Wait,
    WaitFor { millis: u64 },
}

/// Something the host does without reporting back.  Where an effect names a
/// kind of event, the payload is that of the event being handled.
#[derive(Debug, Clone, Copy, PartialEq)]
pub enum Effect<C> {
    /// Leave the event loop.
    Exit,
    /// Create the native window, then report it with
    /// [`App::create_window`](crate::app::App::create_window).
    CreateWindow { window_id: u32 },
    /// Forget the window's handles and its shared state.
    RemoveWindow { window_id: u32 },
    /// Drop the native window.
    DropWindow { window_id: u32 },
    /// Hide the native window and keep it as the detached one.
    DetachWindow { window_id: u32 },
    /// Drop the detached native window.
    DropDetached,
    /// Show or hide the cursor over one native window.
    SetCursorVisible { target: GrabTarget, visible: bool },
    /// Show the cursor over every open window.
    ShowAllCursors,
    /// Answer the cursor-grab request being handled.
    CompleteCursorGrab { success: bool },
    RunUiTask,
    DrainDock,
    DrainTray,
    /// Apply the property change being handled to the native window.
    ApplyCommonEvent { window_id: u32 },
    SetControlFlow { flow: ControlFlow },
    PollMenuEvents,
    PollTrayEvents,
    /// One relative step, to be added up with the others until they are
    /// dispatched together.
    MotionDelta { dx: C, dy: C },
    /// Add up the steps since the last dispatch, and dispatch what
    /// [`motion_dispatch`](crate::app::motion_dispatch) makes of the sum.
    DispatchMouseMotion { window_id: u32, modifiers: u32 },
    /// Record the window's size.
    StoreSize { window_id: u32, width: i32, height: i32 },
    DispatchResize { window_id: u32, width: i32, height: i32 },
    /// Record the window's position.
    StorePosition { window_id: u32, x: i32, y: i32 },
    DispatchMove { window_id: u32, x: i32, y: i32 },
    DispatchKeyboard { window_id: u32, modifiers: u32 },
    /// Record the cursor's position in the window.
    StoreCursorPosition { window_id: u32, x: C, y: C },
    DispatchMouseMove { window_id: u32, x: C, y: C, modifiers: u32 },
    DispatchMouseClick { window_id: u32, modifiers: u32 },
    DispatchWheel { window_id: u32, modifiers: u32 },
    DispatchCursorEnterLeave { window_id: u32, entered: bool, modifiers: u32 },
    DispatchFocused { window_id: u32, focused: bool },
    /// Tell the runtime that the window is going away, whatever it answers.
    DispatchCloseRequested { window_id: u32 },
}

/// Relative motion on its way to a window.
#[derive(Debug, Clone, Copy, PartialEq)]
pub struct MotionDispatch<C> {
    pub window_id: u32,
    pub delta_x: C,
    pub delta_y: C,
    pub modifiers: u32,
}

/// A call whose result the state machine needs before it goes on.
#[derive(Debug, Clone, Copy, PartialEq, Eq, Structural)]
pub enum NativeCall {
    /// Release the process-wide grab; the answer is whether that worked.
    ReleaseProcessGrab,
    /// Put a native window into a grab mode; the answer is whether it accepted.
    SetCursorGrab { target: GrabTarget, mode: NativeGrabMode },
    /// Ask the runtime whether the close goes ahead.
    CloseRequested { window_id: u32 },
}

/// What a release goes on with.
#[derive(Debug, Clone, Copy, PartialEq, Eq, Structural)]
pub enum AfterRelease {
    /// The release was asked for: report how it went.
    Report,
    /// The release makes room for another grab.
    Acquire { window_id: u32, mode: AcceptedCursorGrabMode },
}

/// What a forced release goes on with.
#[derive(Debug, Clone, Copy, PartialEq, Eq, Structural)]
pub enum AfterForce {
    Suspended,
    CursorLeft { window_id: u32, modifiers: u32 },
    FocusLost { window_id: u32 },
    Close { window_id: u32 },
}

/// Where the state machine goes on when a native call has been answered.
#[derive(Debug, Clone, Copy, PartialEq, Eq, Structural)]
pub enum Resume {
    ReleaseProcess { window_id: u32, then: AfterRelease },
    ReleasePending { window_id: u32, target: GrabTarget, then: AfterRelease },
    ReleaseLive { window_id: u32, then: AfterRelease },
    AcquireProcess { window_id: u32, mode: AcceptedCursorGrabMode },
    AcquirePending { window_id: u32, mode: AcceptedCursorGrabMode, target: GrabTarget },
    AcquireGrab { window_id: u32, mode: AcceptedCursorGrabMode },
    AcquireFallback { window_id: u32 },
    ForcePending { target: GrabTarget, then: AfterForce },
    ForceLive { window_id: u32, then: AfterForce },
    CloseDecision { window_id: u32 },
    DestroyedProcess,
    WaitProcess,
    WaitPending { target: GrabTarget },
}

/// What the host does after the effects.
#[derive(Debug, Clone, Copy, PartialEq, Eq, Structural)]
pub enum Next {
    /// Nothing: the event has been dealt with.
    Done,
    /// Make the call and hand its answer to
    /// [`App::resume`](crate::app::App::resume).
    Call { call: NativeCall, then: Resume },
    /// Probe the window's display and hand the result to
    /// [`App::capabilities_known`](crate::app::App::capabilities_known).
    QueryCapabilities { window_id: u32, mode: AcceptedCursorGrabMode },
}

/// The state machine's answer to one input.
#[derive(Debug, Clone, PartialEq)]
pub struct Step<C> {
    pub effects: Vec<Effect<C>>,
    pub next: Next,
}

} // verus!
