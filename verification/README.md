# laufey_input

The input side of a windowing backend, verified with Verus: what a raw event
means, which handler it goes to, and who holds the cursor.

## Layout

- `src/events.rs`, `src/handlers.rs`: decoding of raw mouse, wheel and window
  events, and the per-window handlers that they are routed to.
- `src/cursor.rs`, `src/wayland.rs`: the modes of a cursor grab, and what a
  display lets a grab do.
- `src/step.rs`, `src/model.rs`, `src/app.rs`: the application as a state
  machine. It is told what happened, and answers with effects for the host to
  carry out and, where it has to know how a native call went, with that call.
  `model.rs` holds the transitions as specifications, `app.rs` the code that is
  proved to follow them.
- `src/safety.rs`, `src/runs.rs`, `src/host.rs`, `src/delivery.rs`: what holds
  of the machine as a whole: the invariant that every transition keeps, what
  comes of whole requests once their native calls are answered, what the host
  can rely on, and what reaches a handler.
- `tests/`: the library on concrete values.
- `app/main.rs`, `app/wayland_probe.rs`: the winit host around the library:
  native windows, the event loop and the display probe.
- `app/lib.rs`, `app/mouse.rs`, `app/runtime.rs`: the runtime's side around it:
  the closures that windows register, and the C callbacks that run them.

Coordinates are a type parameter of the library: it moves them and never
computes with them. The host adds relative motion up and tells whether the sum
is zero; the library decides what is dispatched.
