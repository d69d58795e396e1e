//! Decision logic of the SlimeVR desktop launcher: where the server lives,
//! which Java runtime starts it, how its output reaches the interface and how
//! it is asked to stop.

pub mod dialog;
pub mod platform;
pub mod probe;
pub mod resolver;
pub mod shutdown;
pub mod startup;
pub mod status;
pub mod supervisor;
