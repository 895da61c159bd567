//! A Pomodoro-style productivity dashboard for the terminal, as a library.
//!
//! The crate holds the part of the dashboard that decides: the snapshot of
//! users and tasks, the controller that turns events into state changes, and
//! the modal popup through which tasks are created, renamed and deleted.
//! Painting the screen and reading the keyboard are left to the program
//! around it, which feeds [`app::App`] one [`event::Event`] at a time.
//!
//! Ratios are kept as whole hundredths (`0..=100`) and times as whole
//! seconds, so that every state is an exact value.

pub mod activity;
pub mod app;
pub mod color;
pub mod event;
pub mod key;
pub mod task_data;
pub mod task_pop_up;
pub mod text;
pub mod user_data;
