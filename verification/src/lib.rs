//! A jump list for a terminal multiplexer plugin: a bounded history of the
//! panels that had focus, most recent first, with a cursor to pick one and
//! jump back to it.
//!
//! The host sends notifications (the mode changed, the panels or the focus
//! changed, a key was pressed); [`state::State::update`] takes one at a
//! time and answers with what to ask of the host. [`model`] says what each
//! notification does as mathematics, and [`theorems`] proves what follows
//! from it.

pub mod event;
pub mod history;
pub mod mode;
pub mod model;
pub mod panel;
pub mod render;
pub mod snapshot;
pub mod state;
pub mod theorems;
