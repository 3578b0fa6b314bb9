//! Human-machine-interface core for a battery-powered environmental
//! instrument: a settable clock value, a two-view menu with a clock-edit
//! sub-state machine, an interrupt-driven button classifier, a render
//! command model for the display, a tone sequencer, and a priority-ceiling
//! resource arbiter. Peripheral drivers themselves live outside this crate;
//! the logic here works on plain values that the surrounding firmware
//! exchanges with the hardware.

pub mod arbiter;
pub mod buttons;
pub mod clock;
pub mod controller;
pub mod display;
pub mod text;
pub mod tone;
