//! Per-window event handlers: registration, and the routing of raw callbacks.
//!
//! A registry never runs a handler.  It hands out the handler together with the
//! event, so that the host can give up its hold on the registry before it runs
//! the handler: a handler that blocks may pump events and be entered again.
use std::collections::HashMap;
use vstd::prelude::*;
use crate::events::CloseRequestedEvent;
use crate::events::CursorEnterLeaveEvent;
use crate::events::FocusedEvent;
use crate::events::KeyModifiers;
use crate::events::MouseButton;
use crate::events::MouseButtonState;
use crate::events::MouseClickEvent;
use crate::events::MouseMotionEvent;
use crate::events::MouseMoveEvent;
use crate::events::MoveEvent;
use crate::events::PageLoadEvent;
use crate::events::ResizeEvent;
use crate::events::WheelDeltaMode;
use crate::events::WheelEvent;

verus! {

/// The kinds of event that a window can have a handler for.
#[derive(Debug, Clone, Copy, PartialEq, Eq, Structural)]
pub enum EventKind {
    MouseClick,
    MouseMove,
    MouseMotion,
    Wheel,
    CursorEnterLeave,
    Focused,
    Resize,
    Move,
    CloseRequested,
    PageLoad,
}

/// The handlers of one kind of event, by window, and whether the backend has
/// been told to deliver events of that kind.
pub struct HandlerMap<H> {
    pub installed: bool,
    pub handlers: HashMap<u32, H>,
}

/// What a [`HandlerMap`] holds.
#[verifier::ext_equal]
pub struct HandlerTable<H> {
    pub installed: bool,
    pub handlers: Map<u32, H>,
}

impl<H> HandlerTable<H> {
    pub open spec fn empty() -> HandlerTable<H> {
        HandlerTable { installed: false, handlers: Map::empty() }
    }

    /// Events that there is a handler for are delivered.
    pub open spec fn wf(self) -> bool {
        self.handlers.is_empty() || self.installed
    }

    /// Delivery is set up, nothing else changes.
    pub open spec fn ensured(self) -> HandlerTable<H> {
        HandlerTable { installed: true, ..self }
    }

    /// `handler` becomes the window's only handler.
    pub open spec fn registered(self, window_id: u32, handler: H) -> HandlerTable<H> {
        HandlerTable { installed: true, handlers: self.handlers.insert(window_id, handler) }
    }

    /// The window has no handler any more.
    pub open spec fn unregistered(self, window_id: u32) -> HandlerTable<H> {
        HandlerTable { handlers: self.handlers.remove(window_id), ..self }
    }
}

impl<H> View for HandlerMap<H> {
    type V = HandlerTable<H>;

    open spec fn view(&self) -> HandlerTable<H> {
        HandlerTable { installed: self.installed, handlers: self.handlers@ }
    }
}

impl<H> HandlerMap<H> {
    fn new() -> (map: Self)
        ensures
            map@ == HandlerTable::<H>::empty(),
    {
        HandlerMap { installed: false, handlers: HashMap::new() }
    }

    /// Marks delivery as set up, and says whether it was not before.
    fn ensure(&mut self) -> (first: bool)
        ensures
            final(self)@ == old(self)@.ensured(),
            first == !old(self).installed,
    {
        let first = !self.installed;
        self.installed = true;
        first
    }

    fn insert(&mut self, window_id: u32, handler: H)
        requires
            old(self).installed,
        ensures
            final(self)@ == old(self)@.registered(window_id, handler),
    {
        self.handlers.insert(window_id, handler);
    }

    fn get(&self, window_id: u32) -> (handler: Option<&H>)
        ensures
            match handler {
                Some(handler) => self@.handlers.contains_key(window_id) && *handler
                    == self@.handlers[window_id],
                None => !self@.handlers.contains_key(window_id),
            },
    {
        self.handlers.get(&window_id)
    }

    fn remove(&mut self, window_id: u32)
        ensures
            final(self)@ == old(self)@.unregistered(window_id),
    {
        self.handlers.remove(&window_id);
    }
}

/// All handlers of all windows.  `H` is whatever the host runs as a handler.
pub struct Registry<H> {
    pub mouse_click: HandlerMap<H>,
    pub mouse_move: HandlerMap<H>,
    pub mouse_motion: HandlerMap<H>,
    pub wheel: HandlerMap<H>,
    pub cursor_enter_leave: HandlerMap<H>,
    pub focused: HandlerMap<H>,
    pub resize: HandlerMap<H>,
    pub moved: HandlerMap<H>,
    pub close_requested: HandlerMap<H>,
    pub page_load: HandlerMap<H>,
}

impl<H> Registry<H> {
    /// The handlers of one kind.
    pub open spec fn table(&self, kind: EventKind) -> HandlerTable<H> {
        match kind {
            EventKind::MouseClick => self.mouse_click@,
            EventKind::MouseMove => self.mouse_move@,
            EventKind::MouseMotion => self.mouse_motion@,
            EventKind::Wheel => self.wheel@,
            EventKind::CursorEnterLeave => self.cursor_enter_leave@,
            EventKind::Focused => self.focused@,
            EventKind::Resize => self.resize@,
            EventKind::Move => self.moved@,
            EventKind::CloseRequested => self.close_requested@,
            EventKind::PageLoad => self.page_load@,
        }
    }

    /// The window has a handler for this kind of event.
    pub open spec fn has(&self, kind: EventKind, window_id: u32) -> bool {
        self.table(kind).handlers.contains_key(window_id)
    }

    /// The window's handler for this kind of event.
    pub open spec fn handler(&self, kind: EventKind, window_id: u32) -> H
        recommends
            self.has(kind, window_id),
    {
        self.table(kind).handlers[window_id]
    }

    /// Whatever some window has a handler for is delivered.  Where some window has
    /// a relative-motion handler, close requests are delivered too, because they
    /// take that handler away again.
    pub open spec fn wf(&self) -> bool {
        &&& forall|k: EventKind| #[trigger] self.table(k).wf()
        &&& self.table(EventKind::MouseMotion).handlers.is_empty() || self.table(
            EventKind::CloseRequested,
        ).installed
    }

    /// `self` differs from `before` at most in the handlers of one kind, which
    /// are those of `table`.
    pub open spec fn replaces(
        &self,
        before: &Registry<H>,
        kind: EventKind,
        table: HandlerTable<H>,
    ) -> bool {
        forall|k: EventKind| #[trigger]
            self.table(k) == (if k == kind {
                table
            } else {
                before.table(k)
            })
    }

    /// `self` is `before` with the window's relative-motion handler registered,
    /// and with close requests delivered as well.
    pub open spec fn registers_motion(
        &self,
        before: &Registry<H>,
        window_id: u32,
        handler: H,
    ) -> bool {
        forall|k: EventKind| #[trigger]
            self.table(k) == (match k {
                EventKind::MouseMotion => before.table(k).registered(window_id, handler),
                EventKind::CloseRequested => before.table(k).ensured(),
                _ => before.table(k),
            })
    }

    /// `self` is `before` without the window's relative-motion handler.
    pub open spec fn loses_motion(&self, before: &Registry<H>, window_id: u32) -> bool {
        self.replaces(
            before,
            EventKind::MouseMotion,
            before.table(EventKind::MouseMotion).unregistered(window_id),
        )
    }

    /// A close request goes to the window's handler, and to the host where the
    /// window has none.
    pub open spec fn routes_close(&self, window_id: u32, dispatch: CloseDispatch<'_, H>) -> bool {
        match dispatch {
            CloseDispatch::Handle { handler, event } => {
                &&& self.has(EventKind::CloseRequested, window_id)
                &&& *handler == self.handler(EventKind::CloseRequested, window_id)
                &&& event == (CloseRequestedEvent { window_id })
            },
            CloseDispatch::CompleteClose { window_id: id } => {
                &&& !self.has(EventKind::CloseRequested, window_id)
                &&& id == window_id
            },
        }
    }

    /// A close request of the window has been dealt with: it was routed by
    /// `self`, the registry was `meanwhile` when whoever decided about it was
    /// done, and then the window's relative-motion handler was taken away.
    pub open spec fn deals_with_close(
        &self,
        window_id: u32,
        dispatch: CloseDispatch<'_, H>,
        meanwhile: &Registry<H>,
        afterwards: &Registry<H>,
    ) -> bool {
        &&& self.routes_close(window_id, dispatch)
        &&& afterwards.loses_motion(meanwhile, window_id)
    }

    /// The backend callback that a first registration of `kind` asks the host
    /// to install.
    pub open spec fn install(&self, kind: EventKind) -> Option<EventKind> {
        if self.table(kind).installed {
            None
        } else {
            Some(kind)
        }
    }

    /// What `window_id`'s handler of this kind is handed an event with.
    pub open spec fn delivers<E>(
        &self,
        kind: EventKind,
        window_id: u32,
        event: E,
        delivery: Option<(&H, E)>,
    ) -> bool {
        match delivery {
            Some((handler, delivered)) => {
                &&& self.has(kind, window_id)
                &&& *handler == self.handler(kind, window_id)
                &&& delivered == event
            },
            None => !self.has(kind, window_id),
        }
    }

    pub fn new() -> (registry: Self)
        ensures
            forall|k: EventKind| #[trigger] registry.table(k) == HandlerTable::<H>::empty(),
            registry.wf(),
    {
        Registry {
            mouse_click: HandlerMap::new(),
            mouse_move: HandlerMap::new(),
            mouse_motion: HandlerMap::new(),
            wheel: HandlerMap::new(),
            cursor_enter_leave: HandlerMap::new(),
            focused: HandlerMap::new(),
            resize: HandlerMap::new(),
            moved: HandlerMap::new(),
            close_requested: HandlerMap::new(),
            page_load: HandlerMap::new(),
        }
    }
}

/// One thing that can happen to a registry.
pub enum RegistryChange<H> {
    /// Events of a kind are delivered from now on.
    Ensured { kind: EventKind },
    /// A window gets a handler, but for relative motion.
    Registered { kind: EventKind, window_id: u32, handler: H },
    /// A window gets a relative-motion handler.
    MotionRegistered { window_id: u32, handler: H },
    /// A window loses its relative-motion handler.
    MotionRemoved { window_id: u32 },
}

impl<H> RegistryChange<H> {
    /// The change leads from one registry to the other.
    pub open spec fn leads(self, before: &Registry<H>, now: &Registry<H>) -> bool {
        match self {
            RegistryChange::Ensured { kind } => now.replaces(
                before,
                kind,
                before.table(kind).ensured(),
            ),
            RegistryChange::Registered { kind, window_id, handler } => {
                &&& kind != EventKind::MouseMotion
                &&& now.replaces(before, kind, before.table(kind).registered(window_id, handler))
            },
            RegistryChange::MotionRegistered { window_id, handler } => now.registers_motion(
                before,
                window_id,
                handler,
            ),
            RegistryChange::MotionRemoved { window_id } => now.loses_motion(before, window_id),
        }
    }

    /// The change needs events of this kind to be delivered.
    pub open spec fn needs(self, kind: EventKind) -> bool {
        match self {
            RegistryChange::Ensured { kind: k } => k == kind,
            RegistryChange::Registered { kind: k, .. } => k == kind,
            RegistryChange::MotionRegistered { .. } => kind == EventKind::MouseMotion || kind
                == EventKind::CloseRequested,
            RegistryChange::MotionRemoved { .. } => false,
        }
    }

    /// Made to this registry, the change asks the host to install the callback
    /// for this kind.
    pub open spec fn asks_for(self, before: &Registry<H>, kind: EventKind) -> bool {
        self.needs(kind) && before.install(kind) is Some
    }

    /// The handler that the change registers.
    pub open spec fn registration(self) -> Option<(EventKind, u32, H)> {
        match self {
            RegistryChange::Ensured { .. } => None,
            RegistryChange::Registered { kind, window_id, handler } => Some(
                (kind, window_id, handler),
            ),
            RegistryChange::MotionRegistered { window_id, handler } => Some(
                (EventKind::MouseMotion, window_id, handler),
            ),
            RegistryChange::MotionRemoved { .. } => None,
        }
    }
}

/// A registry's life: each change leads from one registry to the next.
pub open spec fn is_history<H>(
    registries: Seq<Registry<H>>,
    changes: Seq<RegistryChange<H>>,
) -> bool {
    &&& registries.len() == changes.len() + 1
    &&& forall|i: int|
        #![trigger changes[i]]
        0 <= i < changes.len() ==> changes[i].leads(&registries[i], &registries[i + 1])
}

fn install_if(first: bool, kind: EventKind) -> (install: Option<EventKind>)
    ensures
        install == (if first {
            Some(kind)
        } else {
            None
        }),
{
    if first {
        Some(kind)
    } else {
        None
    }
}

/// Has events of a kind delivered, before any window has a handler for them.
/// The result names the backend callback that the host has to install, if none
/// is installed yet.
pub fn ensure_handler<H>(
    registry: &mut Registry<H>,
    kind: EventKind,
) -> (install: Option<EventKind>)
    ensures
        final(registry).replaces(old(registry), kind, old(registry).table(kind).ensured()),
        install == old(registry).install(kind),
        old(registry).wf() ==> final(registry).wf(),
{
    let first = match kind {
        EventKind::MouseClick => registry.mouse_click.ensure(),
        EventKind::MouseMove => registry.mouse_move.ensure(),
        EventKind::MouseMotion => registry.mouse_motion.ensure(),
        EventKind::Wheel => registry.wheel.ensure(),
        EventKind::CursorEnterLeave => registry.cursor_enter_leave.ensure(),
        EventKind::Focused => registry.focused.ensure(),
        EventKind::Resize => registry.resize.ensure(),
        EventKind::Move => registry.moved.ensure(),
        EventKind::CloseRequested => registry.close_requested.ensure(),
        EventKind::PageLoad => registry.page_load.ensure(),
    };
    assert forall|k: EventKind| old(registry).wf() implies #[trigger] registry.table(k).wf() by {
        assert(old(registry).table(k).wf());
    }
    install_if(first, kind)
}

/// Registers the window's click handler. The result names the backend callback
/// that the host has to install, if none is installed yet.
pub fn on_mouse_click<H>(
    registry: &mut Registry<H>,
    window_id: u32,
    handler: H,
) -> (install: Option<EventKind>)
    ensures
        final(registry).replaces(
            old(registry),
            EventKind::MouseClick,
            old(registry).table(EventKind::MouseClick).registered(window_id, handler),
        ),
        install == old(registry).install(EventKind::MouseClick),
        old(registry).wf() ==> final(registry).wf(),
{
    let first = registry.mouse_click.ensure();
    registry.mouse_click.insert(window_id, handler);
    install_if(first, EventKind::MouseClick)
}

/// Registers the window's absolute-movement handler. The result names the
/// backend callback that the host has to install, if none is installed yet.
pub fn on_mouse_move<H>(
    registry: &mut Registry<H>,
    window_id: u32,
    handler: H,
) -> (install: Option<EventKind>)
    ensures
        final(registry).replaces(
            old(registry),
            EventKind::MouseMove,
            old(registry).table(EventKind::MouseMove).registered(window_id, handler),
        ),
        install == old(registry).install(EventKind::MouseMove),
        old(registry).wf() ==> final(registry).wf(),
{
    let first = registry.mouse_move.ensure();
    registry.mouse_move.insert(window_id, handler);
    install_if(first, EventKind::MouseMove)
}

/// Registers the window's wheel handler. The result names the backend callback
/// that the host has to install, if none is installed yet.
pub fn on_wheel<H>(
    registry: &mut Registry<H>,
    window_id: u32,
    handler: H,
) -> (install: Option<EventKind>)
    ensures
        final(registry).replaces(
            old(registry),
            EventKind::Wheel,
            old(registry).table(EventKind::Wheel).registered(window_id, handler),
        ),
        install == old(registry).install(EventKind::Wheel),
        old(registry).wf() ==> final(registry).wf(),
{
    let first = registry.wheel.ensure();
    registry.wheel.insert(window_id, handler);
    install_if(first, EventKind::Wheel)
}

/// Registers the window's enter and leave handler. The result names the backend
/// callback that the host has to install, if none is installed yet.
pub fn on_cursor_enter_leave<H>(
    registry: &mut Registry<H>,
    window_id: u32,
    handler: H,
) -> (install: Option<EventKind>)
    ensures
        final(registry).replaces(
            old(registry),
            EventKind::CursorEnterLeave,
            old(registry).table(EventKind::CursorEnterLeave).registered(window_id, handler),
        ),
        install == old(registry).install(EventKind::CursorEnterLeave),
        old(registry).wf() ==> final(registry).wf(),
{
    let first = registry.cursor_enter_leave.ensure();
    registry.cursor_enter_leave.insert(window_id, handler);
    install_if(first, EventKind::CursorEnterLeave)
}

/// Registers the window's focus handler. The result names the backend callback
/// that the host has to install, if none is installed yet.
pub fn on_focused<H>(
    registry: &mut Registry<H>,
    window_id: u32,
    handler: H,
) -> (install: Option<EventKind>)
    ensures
        final(registry).replaces(
            old(registry),
            EventKind::Focused,
            old(registry).table(EventKind::Focused).registered(window_id, handler),
        ),
        install == old(registry).install(EventKind::Focused),
        old(registry).wf() ==> final(registry).wf(),
{
    let first = registry.focused.ensure();
    registry.focused.insert(window_id, handler);
    install_if(first, EventKind::Focused)
}

/// Registers the window's resize handler. The result names the backend callback
/// that the host has to install, if none is installed yet.
pub fn on_resize<H>(
    registry: &mut Registry<H>,
    window_id: u32,
    handler: H,
) -> (install: Option<EventKind>)
    ensures
        final(registry).replaces(
            old(registry),
            EventKind::Resize,
            old(registry).table(EventKind::Resize).registered(window_id, handler),
        ),
        install == old(registry).install(EventKind::Resize),
        old(registry).wf() ==> final(registry).wf(),
{
    let first = registry.resize.ensure();
    registry.resize.insert(window_id, handler);
    install_if(first, EventKind::Resize)
}

/// Registers the window's move handler. The result names the backend callback
/// that the host has to install, if none is installed yet.
pub fn on_move<H>(
    registry: &mut Registry<H>,
    window_id: u32,
    handler: H,
) -> (install: Option<EventKind>)
    ensures
        final(registry).replaces(
            old(registry),
            EventKind::Move,
            old(registry).table(EventKind::Move).registered(window_id, handler),
        ),
        install == old(registry).install(EventKind::Move),
        old(registry).wf() ==> final(registry).wf(),
{
    let first = registry.moved.ensure();
    registry.moved.insert(window_id, handler);
    install_if(first, EventKind::Move)
}

/// Registers the handler that decides about closing the window. The result
/// names the backend callback that the host has to install, if none is
/// installed yet.
pub fn on_close_requested<H>(
    registry: &mut Registry<H>,
    window_id: u32,
    handler: H,
) -> (install: Option<EventKind>)
    ensures
        final(registry).replaces(
            old(registry),
            EventKind::CloseRequested,
            old(registry).table(EventKind::CloseRequested).registered(window_id, handler),
        ),
        install == old(registry).install(EventKind::CloseRequested),
        old(registry).wf() ==> final(registry).wf(),
{
    let first = registry.close_requested.ensure();
    registry.close_requested.insert(window_id, handler);
    install_if(first, EventKind::CloseRequested)
}

/// Registers the handler that runs each time the window finishes loading a
/// navigation. The result names the backend callback that the host has to
/// install, if none is installed yet.
pub fn on_page_load<H>(
    registry: &mut Registry<H>,
    window_id: u32,
    handler: H,
) -> (install: Option<EventKind>)
    ensures
        final(registry).replaces(
            old(registry),
            EventKind::PageLoad,
            old(registry).table(EventKind::PageLoad).registered(window_id, handler),
        ),
        install == old(registry).install(EventKind::PageLoad),
        old(registry).wf() ==> final(registry).wf(),
{
    let first = registry.page_load.ensure();
    registry.page_load.insert(window_id, handler);
    install_if(first, EventKind::PageLoad)
}

/// Registers the window's relative-motion handler.  Closing a window takes this
/// handler away again, so close requests have to be delivered as well: the
/// result names up to two backend callbacks to install.
pub fn on_mouse_motion<H>(
    registry: &mut Registry<H>,
    window_id: u32,
    handler: H,
) -> (installs: (Option<EventKind>, Option<EventKind>))
    ensures
        final(registry).registers_motion(old(registry), window_id, handler),
        installs.0 == old(registry).install(EventKind::MouseMotion),
        installs.1 == old(registry).install(EventKind::CloseRequested),
        old(registry).wf() ==> final(registry).wf(),
{
    let motion_first = registry.mouse_motion.ensure();
    let close_first = registry.close_requested.ensure();
    registry.mouse_motion.insert(window_id, handler);
    assert forall|k: EventKind| old(registry).wf() implies #[trigger] registry.table(k).wf() by {
        assert(old(registry).table(k).wf());
    }
    (
        install_if(motion_first, EventKind::MouseMotion),
        install_if(close_first, EventKind::CloseRequested),
    )
}

/// Takes the window's relative-motion handler away.
pub fn remove_mouse_motion_handler<H>(registry: &mut Registry<H>, window_id: u32)
    ensures
        final(registry).loses_motion(old(registry), window_id),
        old(registry).wf() ==> final(registry).wf(),
{
    registry.mouse_motion.remove(window_id);
    proof {
        let before = old(registry).table(EventKind::MouseMotion);
        if before.handlers.is_empty() {
            assert(before.handlers.remove(window_id) =~= before.handlers);
        }
        assert forall|k: EventKind|
            old(registry).wf() implies #[trigger] registry.table(k).wf() by {
            assert(old(registry).table(k).wf());
        }
    }
}

/// Routes a click to the window's handler.
pub fn mouse_click_trampoline<'a, C, H>(
    registry: &'a Registry<H>,
    window_id: u32,
    state: i32,
    button: i32,
    x: C,
    y: C,
    modifiers: u32,
    click_count: i32,
) -> (delivery: Option<(&'a H, MouseClickEvent<C>)>)
    ensures
        registry.delivers(
            EventKind::MouseClick,
            window_id,
            MouseClickEvent::decoded(
                window_id,
                state,
                button,
                x,
                y,
                modifiers,
                click_count,
            ),
            delivery,
        ),
{
    let event = MouseClickEvent {
        window_id,
        state: MouseButtonState::from_raw(state),
        button: MouseButton::from_raw(button),
        x,
        y,
        modifiers: KeyModifiers::from_raw(modifiers),
        click_count,
    };
    match registry.mouse_click.get(window_id) {
        Some(handler) => Some((handler, event)),
        None => None,
    }
}

/// Routes an absolute movement to the window's handler.
pub fn mouse_move_trampoline<'a, C, H>(
    registry: &'a Registry<H>,
    window_id: u32,
    x: C,
    y: C,
    modifiers: u32,
) -> (delivery: Option<(&'a H, MouseMoveEvent<C>)>)
    ensures
        registry.delivers(
            EventKind::MouseMove,
            window_id,
            MouseMoveEvent::decoded(
                window_id,
                x,
                y,
                modifiers,
            ),
            delivery,
        ),
{
    let event = MouseMoveEvent {
        window_id,
        x,
        y,
        modifiers: KeyModifiers::from_raw(modifiers),
    };
    match registry.mouse_move.get(window_id) {
        Some(handler) => Some((handler, event)),
        None => None,
    }
}

/// Routes relative motion to the window's handler.
pub fn mouse_motion_trampoline<'a, C, H>(
    registry: &'a Registry<H>,
    window_id: u32,
    delta_x: C,
    delta_y: C,
    modifiers: u32,
) -> (delivery: Option<(&'a H, MouseMotionEvent<C>)>)
    ensures
        registry.delivers(
            EventKind::MouseMotion,
            window_id,
            MouseMotionEvent::decoded(
                window_id,
                delta_x,
                delta_y,
                modifiers,
            ),
            delivery,
        ),
{
    let event = MouseMotionEvent {
        window_id,
        delta_x,
        delta_y,
        modifiers: KeyModifiers::from_raw(modifiers),
    };
    match registry.mouse_motion.get(window_id) {
        Some(handler) => Some((handler, event)),
        None => None,
    }
}

/// Routes a turn of the wheel to the window's handler.
pub fn wheel_trampoline<'a, C, H>(
    registry: &'a Registry<H>,
    window_id: u32,
    delta_x: C,
    delta_y: C,
    x: C,
    y: C,
    modifiers: u32,
    delta_mode: i32,
) -> (delivery: Option<(&'a H, WheelEvent<C>)>)
    ensures
        registry.delivers(
            EventKind::Wheel,
            window_id,
            WheelEvent::decoded(
                window_id,
                delta_x,
                delta_y,
                x,
                y,
                modifiers,
                delta_mode,
            ),
            delivery,
        ),
{
    let event = WheelEvent {
        window_id,
        delta_x,
        delta_y,
        x,
        y,
        modifiers: KeyModifiers::from_raw(modifiers),
        delta_mode: WheelDeltaMode::from_raw(delta_mode),
    };
    match registry.wheel.get(window_id) {
        Some(handler) => Some((handler, event)),
        None => None,
    }
}

/// Routes the cursor entering or leaving to the window's handler.
pub fn cursor_enter_leave_trampoline<'a, C, H>(
    registry: &'a Registry<H>,
    window_id: u32,
    entered: i32,
    x: C,
    y: C,
    modifiers: u32,
) -> (delivery: Option<(&'a H, CursorEnterLeaveEvent<C>)>)
    ensures
        registry.delivers(
            EventKind::CursorEnterLeave,
            window_id,
            CursorEnterLeaveEvent::decoded(
                window_id,
                entered,
                x,
                y,
                modifiers,
            ),
            delivery,
        ),
{
    let event = CursorEnterLeaveEvent {
        window_id,
        entered: entered != 0,
        x,
        y,
        modifiers: KeyModifiers::from_raw(modifiers),
    };
    match registry.cursor_enter_leave.get(window_id) {
        Some(handler) => Some((handler, event)),
        None => None,
    }
}

/// Routes a change of focus to the window's handler.
pub fn focused_trampoline<'a, H>(
    registry: &'a Registry<H>,
    window_id: u32,
    focused: i32,
) -> (delivery: Option<(&'a H, FocusedEvent)>)
    ensures
        registry.delivers(
            EventKind::Focused,
            window_id,
            FocusedEvent::decoded(
                window_id,
                focused,
            ),
            delivery,
        ),
{
    let event = FocusedEvent {
        window_id,
        focused: focused != 0,
    };
    match registry.focused.get(window_id) {
        Some(handler) => Some((handler, event)),
        None => None,
    }
}

/// Routes a resize to the window's handler.
pub fn resize_trampoline<'a, H>(
    registry: &'a Registry<H>,
    window_id: u32,
    width: i32,
    height: i32,
) -> (delivery: Option<(&'a H, ResizeEvent)>)
    ensures
        registry.delivers(
            EventKind::Resize,
            window_id,
            ResizeEvent::decoded(
                window_id,
                width,
                height,
            ),
            delivery,
        ),
{
    let event = ResizeEvent {
        window_id,
        width,
        height,
    };
    match registry.resize.get(window_id) {
        Some(handler) => Some((handler, event)),
        None => None,
    }
}

/// Routes a move to the window's handler.
pub fn move_trampoline<'a, H>(
    registry: &'a Registry<H>,
    window_id: u32,
    x: i32,
    y: i32,
) -> (delivery: Option<(&'a H, MoveEvent)>)
    ensures
        registry.delivers(
            EventKind::Move,
            window_id,
            MoveEvent::decoded(
                window_id,
                x,
                y,
            ),
            delivery,
        ),
{
    let event = MoveEvent {
        window_id,
        x,
        y,
    };
    match registry.moved.get(window_id) {
        Some(handler) => Some((handler, event)),
        None => None,
    }
}

/// Routes a finished navigation to the window's handler.
pub fn page_load_trampoline<'a, H>(
    registry: &'a Registry<H>,
    window_id: u32,
) -> (delivery: Option<(&'a H, PageLoadEvent)>)
    ensures
        registry.delivers(
            EventKind::PageLoad,
            window_id,
            PageLoadEvent::decoded(
                window_id,
            ),
            delivery,
        ),
{
    let event = PageLoadEvent {
        window_id,
    };
    match registry.page_load.get(window_id) {
        Some(handler) => Some((handler, event)),
        None => None,
    }
}

/// What a close request leads to.
pub enum CloseDispatch<'a, H> {
    /// The window's handler decides.
    Handle { handler: &'a H, event: CloseRequestedEvent },
    /// The window has no handler, and the backend waits for an answer: the host
    /// completes the close itself.
    CompleteClose { window_id: u32 },
}

/// Routes a close request.  The backend defers the close of every window once
/// close requests are delivered, so a window without a handler must have its
/// close completed here.  When whoever decides is done, the host calls
/// [`remove_mouse_motion_handler`] for the window: only then has the request
/// been dealt with.
pub fn close_requested_trampoline<'a, H>(
    registry: &'a Registry<H>,
    window_id: u32,
) -> (dispatch: CloseDispatch<'a, H>)
    ensures
        registry.routes_close(window_id, dispatch),
{
    let event = CloseRequestedEvent { window_id };
    match registry.close_requested.get(window_id) {
        Some(handler) => CloseDispatch::Handle { handler, event },
        None => CloseDispatch::CompleteClose { window_id },
    }
}

} // verus!
