//! Boot sequencing and process admission for the PineTime smart watch
//! (nRF52832): capability tokens, clock start-up, timer and console wiring,
//! the driver table, the process loader and the panic indicator.

pub mod board;
pub mod capability;
pub mod clock;
pub mod diagnostic;
pub mod format;
pub mod kernel;
pub mod loader;
pub mod panic;
pub mod platform;
pub mod timer;
