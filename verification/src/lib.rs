//! Translation of raw X11 protocol events into the event algebra that a
//! tiling window manager's policy engine consumes.
//!
//! One raw event comes to at most one [`event::DisplayEvent`]. Some events
//! translate by themselves; others need to ask the display server something
//! first. The translator never talks to the server: it names each question
//! as an [`adapter::Request`] and takes the [`adapter::Reply`] from whoever
//! owns the connection, either step by step ([`translate::begin`],
//! [`translate::Pending::resume`]) or through a function that is handed in
//! ([`translate::translate`]).
//!
//! - [`window`], [`event`], [`mode`]: the values that the policy layer sees.
//! - [`raw`]: the events of the protocol, as far as they are read.
//! - [`xlib_event`]: reading events out of the union that Xlib fills in.
//! - [`adapter`]: the questions, the replies, and the connection's state.
//! - [`client_message`], [`property_notify`]: the translators of the two
//!   kinds of event that have a vocabulary of their own.
//! - [`translate`]: the translator of all events.
//! - [`laws`]: what holds of every translation.

pub mod adapter;
pub mod client_message;
pub mod event;
pub mod laws;
pub mod mode;
pub mod property_notify;
pub mod raw;
pub mod translate;
pub mod window;
pub mod xlib_event;
