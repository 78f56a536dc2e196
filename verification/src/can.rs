//! Raw-frame boundary types: a plain frame value and the bus and device
//! traits that exchange it.

pub mod bus;
pub mod device;
pub mod frame;
