//! The screen scheduler of a small OLED display: a stack of screens with the clock at
//! its root, background schedules (reminders, a notification poll) that push screens, a
//! button menu that pushes, replaces and pops them, and the screens themselves, which
//! draw frames as lists of drawing operations for an outside display sink.
pub mod calendar;
pub mod clock;
pub mod context;
pub mod dashboard;
pub mod drawable;
pub mod frame;
pub mod input;
pub mod laws;
pub mod notify;
pub mod player;
pub mod relay;
pub mod rng;
pub mod schedule;
pub mod screen;
pub mod screensaver;
pub mod sensor;
pub mod status;
pub mod text;
pub mod totp;
pub mod ui;
