//! Supervised rendering for a small SPI colour panel: the frame composer, the
//! display session and render pipeline state machines, the bus arbiter and the
//! watchdog supervisor, each with a verified contract.

pub mod assets;
pub mod bus;
pub mod composer;
pub mod display;
pub mod frame;
pub mod pipeline;
pub mod watchdog;
