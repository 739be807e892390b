//! Focus Lock: a Pomodoro timer whose break phase locks every display.
//!
//! This crate holds the timer's rules: the settings and their limits, the
//! day-scoped task list, the countdown state machine, the quote selection,
//! the tray menu model and the launch-at-login plan. The desktop shell
//! (windows, tray icon, files, network) drives these types and performs the
//! effects they describe.

pub mod app_state;
pub mod clock;
pub mod lock_screen;
pub mod login;
pub mod persistent;
pub mod quotes;
pub mod runtime;
pub mod settings;
pub mod text;
pub mod tray;
