//! Core of a motorised blind controller: a trapezoidal step planner, the TMC2209 single-wire
//! UART protocol, and the decisions of the motor command dispatcher and its inputs.

pub mod controller;
pub mod input;
pub mod stepper;
pub mod tmc2209;
