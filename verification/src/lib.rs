//! Core of a terminal dashboard that shows simulated node metrics.
//!
//! The model holds an ordered list of monitored nodes and a termination
//! flag; a tick operation jitters the latency of active nodes. The driver
//! tracks tick timing and folds input events into the model. Rendering and
//! terminal control live outside the library: the driver is fed the
//! elapsed time and the polled event, and says what the model becomes.

pub mod driver;
pub mod model;
