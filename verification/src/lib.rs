//! Screen-driven lighting: reduce a captured frame to one colour and decide
//! what a fleet of network lamps must be told.

pub mod color;
pub mod device;
pub mod drive;
pub mod fleet;
pub mod json;
pub mod light_communication;
pub mod pilot;
pub mod reply;
pub mod text;
