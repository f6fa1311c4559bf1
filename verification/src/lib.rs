//! Control logic for three small lighting controllers: a multi-mode holiday
//! light sequencer, a pedestrian-actuated traffic light, and a
//! potentiometer-driven dimmer. The hardware pins and blocking delays live
//! outside this crate; here every controller is a plain state machine whose
//! outputs are duty values, lamp levels and requested pauses.

pub mod dimmer;
pub mod sequencer;
pub mod traffic;
