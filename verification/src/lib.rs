//! Lighting control for Royal Kludge keyboards: the packets that carry a
//! colour or an animation to the device, and the order in which they are sent.

pub mod cli;
pub mod color;
pub mod errors;
pub mod keyboards;
