//! Control logic of a four-cell dot-matrix desk clock with an alarm.
pub mod alarm;
pub mod buttons;
pub mod clock;
pub mod datetime;
pub mod matrix_display;
pub mod menu;
pub mod session;
pub mod symbols;
pub mod utils;
