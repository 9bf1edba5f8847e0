//! Verified input handling for native windows.
//!
//! Two halves meet here.
//!
//! On the runtime's side, raw callback arguments become typed [`events`] and are
//! routed to the handler that is registered for their window ([`handlers`]).
//!
//! On the backend's side, [`app::App`] decides how window events, requests and
//! timers move the one cursor grab.  It makes no native call itself: it tells
//! its host what to do, in the vocabulary of [`step`], and goes on with the
//! host's answers.  [`cursor`] and [`wayland`] hold the rules it goes by, and
//! [`model`] is the transition system that it is proved to follow.
//!
//! The remaining modules state what follows: [`safety`] what holds of every
//! state, [`runs`] what an input comes to once all calls are answered, [`host`]
//! what the host can rely on, and [`delivery`] what reaches the handlers.
//! [`terms`] says what the words of the model mean; [`requests`], [`endings`] and
//! [`inputs`] say in full what each input does, call by call and effect by effect.
pub mod app;
pub mod cursor;
pub mod delivery;
pub mod endings;
pub mod events;
pub mod handlers;
pub mod host;
pub mod inputs;
pub mod model;
pub mod requests;
pub mod runs;
pub mod safety;
pub mod step;
pub mod terms;
pub mod wayland;
