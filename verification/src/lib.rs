//! Core logic of a small temperature-streaming device: an analog sampler
//! publishes readings through a single-slot broadcast signal to an LED
//! indicator and a USB serial echo consumer, while independent blinkers
//! share the same cooperative scheduler.

pub mod blinker;
pub mod convert;
pub mod indicator;
pub mod linefmt;
pub mod sampler;
pub mod session;
pub mod signal;
