//! Audio capture: finding the devices and recording from them.

pub mod discover;
pub mod record;
