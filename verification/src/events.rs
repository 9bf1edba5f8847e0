//! Typed input events and the raw codes they are decoded from.
use vstd::prelude::*;

verus! {

pub const LAUFEY_MOUSE_BUTTON_LEFT: i32 = 0;

pub const LAUFEY_MOUSE_BUTTON_RIGHT: i32 = 1;

pub const LAUFEY_MOUSE_BUTTON_MIDDLE: i32 = 2;

pub const LAUFEY_MOUSE_BUTTON_BACK: i32 = 3;

pub const LAUFEY_MOUSE_BUTTON_FORWARD: i32 = 4;

pub const LAUFEY_MOUSE_PRESSED: i32 = 0;

pub const LAUFEY_MOUSE_RELEASED: i32 = 1;

pub const LAUFEY_WHEEL_DELTA_PIXEL: i32 = 0;

pub const LAUFEY_WHEEL_DELTA_LINE: i32 = 1;

pub const LAUFEY_WHEEL_DELTA_PAGE: i32 = 2;

/// The modifier bitmask that travels with an event, kept bit for bit as the
/// backend delivered it.  No modifier is active in the default value.
#[derive(Debug, Clone, Copy, PartialEq, Eq, Structural)]
pub struct KeyModifiers {
    pub bits: u32,
}

impl KeyModifiers {
    pub fn from_raw(raw: u32) -> (modifiers: Self)
        ensures
            modifiers.bits == raw,
    {
        KeyModifiers { bits: raw }
    }
}

impl Default for KeyModifiers {
    fn default() -> (modifiers: Self)
        ensures
            modifiers.bits == 0,
    {
        KeyModifiers { bits: 0 }
    }
}

/// A mouse button going down or coming up.  `C` is the host's coordinate type:
/// positions are carried through, never computed with.
#[derive(Debug, Clone)]
pub struct MouseClickEvent<C> {
    pub window_id: u32,
    pub state: MouseButtonState,
    pub button: MouseButton,
    pub x: C,
    pub y: C,
    pub modifiers: KeyModifiers,
    pub click_count: i32,
}

impl<C> MouseClickEvent<C> {
    /// The event releases the left button and belongs to a run of at least
    /// `clicks` clicks.
    pub open spec fn completes_left_clicks(&self, clicks: int) -> bool {
        &&& self.state == MouseButtonState::Released
        &&& self.button == MouseButton::Left
        &&& self.click_count >= clicks
    }

    pub fn is_click(&self) -> (click: bool)
        ensures
            click == self.completes_left_clicks(1),
    {
        self.state == MouseButtonState::Released && self.button == MouseButton::Left
            && self.click_count >= 1
    }

    pub fn is_double_click(&self) -> (double_click: bool)
        ensures
            double_click == self.completes_left_clicks(2),
    {
        self.state == MouseButtonState::Released && self.button == MouseButton::Left
            && self.click_count >= 2
    }
}

#[derive(Debug, Clone, Copy, PartialEq, Eq, Structural)]
pub enum MouseButtonState {
    Pressed,
    Released,
}

impl MouseButtonState {
    /// The state a raw code stands for: only the pressed code means pressed.
    pub open spec fn of_raw(raw: i32) -> MouseButtonState {
        if raw == LAUFEY_MOUSE_PRESSED {
            MouseButtonState::Pressed
        } else {
            MouseButtonState::Released
        }
    }

    pub fn from_raw(raw: i32) -> (state: Self)
        ensures
            state == Self::of_raw(raw),
    {
        if raw == LAUFEY_MOUSE_PRESSED {
            Self::Pressed
        } else {
            Self::Released
        }
    }
}

#[derive(Debug, Clone, Copy, PartialEq, Eq, Structural)]
pub enum MouseButton {
    Left,
    Right,
    Middle,
    Back,
    Forward,
    Other(i32),
}

impl MouseButton {
    /// The button a raw code stands for.  A code without a name of its own is
    /// kept as it is.
    pub open spec fn of_raw(code: i32) -> MouseButton {
        if code == LAUFEY_MOUSE_BUTTON_LEFT {
            MouseButton::Left
        } else if code == LAUFEY_MOUSE_BUTTON_RIGHT {
            MouseButton::Right
        } else if code == LAUFEY_MOUSE_BUTTON_MIDDLE {
            MouseButton::Middle
        } else if code == LAUFEY_MOUSE_BUTTON_BACK {
            MouseButton::Back
        } else if code == LAUFEY_MOUSE_BUTTON_FORWARD {
            MouseButton::Forward
        } else {
            MouseButton::Other(code)
        }
    }

    pub fn from_raw(button: i32) -> (decoded: Self)
        ensures
            decoded == Self::of_raw(button),
    {
        match button {
            LAUFEY_MOUSE_BUTTON_LEFT => MouseButton::Left,
            LAUFEY_MOUSE_BUTTON_RIGHT => MouseButton::Right,
            LAUFEY_MOUSE_BUTTON_MIDDLE => MouseButton::Middle,
            LAUFEY_MOUSE_BUTTON_BACK => MouseButton::Back,
            LAUFEY_MOUSE_BUTTON_FORWARD => MouseButton::Forward,
            other => MouseButton::Other(other),
        }
    }
}

/// The cursor moving to an absolute position in a window.
#[derive(Debug, Clone, Copy)]
pub struct MouseMoveEvent<C> {
    pub window_id: u32,
    pub x: C,
    pub y: C,
    pub modifiers: KeyModifiers,
}

/// Relative pointer motion, independent of any cursor position.
#[derive(Debug, Clone, Copy)]
pub struct MouseMotionEvent<C> {
    pub window_id: u32,
    pub delta_x: C,
    pub delta_y: C,
    pub modifiers: KeyModifiers,
}

#[derive(Debug, Clone, Copy, PartialEq, Eq, Structural)]
pub enum WheelDeltaMode {
    Pixel,
    Line,
    Page,
}

impl WheelDeltaMode {
    /// The unit a raw code stands for.  Unlisted codes mean pixels, the unit of
    /// the highest resolution.
    pub open spec fn of_raw(raw: i32) -> WheelDeltaMode {
        if raw == LAUFEY_WHEEL_DELTA_LINE {
            WheelDeltaMode::Line
        } else if raw == LAUFEY_WHEEL_DELTA_PAGE {
            WheelDeltaMode::Page
        } else {
            WheelDeltaMode::Pixel
        }
    }

    pub fn from_raw(raw: i32) -> (mode: Self)
        ensures
            mode == Self::of_raw(raw),
    {
        match raw {
            LAUFEY_WHEEL_DELTA_LINE => Self::Line,
            LAUFEY_WHEEL_DELTA_PAGE => Self::Page,
            _ => Self::Pixel,
        }
    }
}

/// The wheel turning by a delta that `delta_mode` gives the unit of.
#[derive(Debug, Clone, Copy)]
pub struct WheelEvent<C> {
    pub window_id: u32,
    pub delta_x: C,
    pub delta_y: C,
    pub x: C,
    pub y: C,
    pub modifiers: KeyModifiers,
    pub delta_mode: WheelDeltaMode,
}

/// The cursor entering or leaving a window.
#[derive(Debug, Clone, Copy)]
pub struct CursorEnterLeaveEvent<C> {
    pub window_id: u32,
    pub entered: bool,
    pub x: C,
    pub y: C,
    pub modifiers: KeyModifiers,
}

/// A window gaining or losing the keyboard focus.
#[derive(Debug, Clone, Copy)]
pub struct FocusedEvent {
    pub window_id: u32,
    pub focused: bool,
}

/// A window's new size.
#[derive(Debug, Clone, Copy)]
pub struct ResizeEvent {
    pub window_id: u32,
    pub width: i32,
    pub height: i32,
}

/// A window's new position.
#[derive(Debug, Clone, Copy)]
pub struct MoveEvent {
    pub window_id: u32,
    pub x: i32,
    pub y: i32,
}

/// Somebody asked for a window to be closed.
#[derive(Debug, Clone, Copy)]
pub struct CloseRequestedEvent {
    pub window_id: u32,
}

/// A window finished loading a navigation.
#[derive(Debug, Clone, Copy)]
pub struct PageLoadEvent {
    pub window_id: u32,
}

// ---- Decoding of raw callbacks ----

impl<C> MouseClickEvent<C> {
    /// The event that the arguments of a raw callback stand for.
    pub open spec fn decoded(
        window_id: u32,
        state: i32,
        button: i32,
        x: C,
        y: C,
        modifiers: u32,
        click_count: i32,
    ) -> MouseClickEvent<C> {
        MouseClickEvent {
            window_id,
            state: MouseButtonState::of_raw(state),
            button: MouseButton::of_raw(button),
            x,
            y,
            modifiers: KeyModifiers { bits: modifiers },
            click_count,
        }
    }
}

impl<C> MouseMoveEvent<C> {
    /// The event that the arguments of a raw callback stand for.
    pub open spec fn decoded(
        window_id: u32,
        x: C,
        y: C,
        modifiers: u32,
    ) -> MouseMoveEvent<C> {
        MouseMoveEvent {
            window_id,
            x,
            y,
            modifiers: KeyModifiers { bits: modifiers },
        }
    }
}

impl<C> MouseMotionEvent<C> {
    /// The event that the arguments of a raw callback stand for.
    pub open spec fn decoded(
        window_id: u32,
        delta_x: C,
        delta_y: C,
        modifiers: u32,
    ) -> MouseMotionEvent<C> {
        MouseMotionEvent {
            window_id,
            delta_x,
            delta_y,
            modifiers: KeyModifiers { bits: modifiers },
        }
    }
}

impl<C> WheelEvent<C> {
    /// The event that the arguments of a raw callback stand for.
    pub open spec fn decoded(
        window_id: u32,
        delta_x: C,
        delta_y: C,
        x: C,
        y: C,
        modifiers: u32,
        delta_mode: i32,
    ) -> WheelEvent<C> {
        WheelEvent {
            window_id,
            delta_x,
            delta_y,
            x,
            y,
            modifiers: KeyModifiers { bits: modifiers },
            delta_mode: WheelDeltaMode::of_raw(delta_mode),
        }
    }
}

impl<C> CursorEnterLeaveEvent<C> {
    /// The event that the arguments of a raw callback stand for.
    pub open spec fn decoded(
        window_id: u32,
        entered: i32,
        x: C,
        y: C,
        modifiers: u32,
    ) -> CursorEnterLeaveEvent<C> {
        CursorEnterLeaveEvent {
            window_id,
            entered: entered != 0,
            x,
            y,
            modifiers: KeyModifiers { bits: modifiers },
        }
    }
}

impl FocusedEvent {
    /// The event that the arguments of a raw callback stand for.
    pub open spec fn decoded(
        window_id: u32,
        focused: i32,
    ) -> FocusedEvent {
        FocusedEvent {
            window_id,
            focused: focused != 0,
        }
    }
}

impl ResizeEvent {
    /// The event that the arguments of a raw callback stand for.
    pub open spec fn decoded(
        window_id: u32,
        width: i32,
        height: i32,
    ) -> ResizeEvent {
        ResizeEvent {
            window_id,
            width,
            height,
        }
    }
}

impl MoveEvent {
    /// The event that the arguments of a raw callback stand for.
    pub open spec fn decoded(
        window_id: u32,
        x: i32,
        y: i32,
    ) -> MoveEvent {
        MoveEvent {
            window_id,
            x,
            y,
        }
    }
}

impl PageLoadEvent {
    /// The event that the arguments of a raw callback stand for.
    pub open spec fn decoded(
        window_id: u32,
    ) -> PageLoadEvent {
        PageLoadEvent {
            window_id,
        }
    }
}

} // verus!
