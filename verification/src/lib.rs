//! Generator for cycle-accurate software UART routines targeting a small
//! 8-bit MCU family. Given a clock frequency, a baud rate, pin assignments
//! and a stop-bit width, it synthesises a feasible schedule of wait loops
//! and residual padding instructions, and substitutes the schedule into a
//! C-with-assembly template.

pub mod decimal;
pub mod frequency;
pub mod mcu;
pub mod config;
pub mod uart;
pub mod render;
