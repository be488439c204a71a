//! A small pet registry behind a keyboard-driven terminal dashboard.
//!
//! The crate holds everything the dashboard decides: how a key press changes
//! the selection and the list of pets, when the input poller emits a tick,
//! and what each screen shows. Reading keys, touching the file that keeps the
//! pets and painting the terminal are left to the program around it.

pub mod error;
pub mod input;
pub mod layout;
pub mod pet;
pub mod poller;
pub mod state;
pub mod store;
pub mod text;
pub mod view;
