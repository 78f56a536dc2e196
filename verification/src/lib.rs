//! Addressing and message-segmentation layer of an NMEA 2000 / J1939-style
//! protocol stack for a Controller Area Network (CAN) bus.
//!
//! The crate packs and unpacks the 29-bit extended CAN identifier (priority,
//! parameter group number, source and destination address), turns a bounded
//! message into one or more CAN frames using the ISO transport protocol's
//! broadcast announce message (BAM) scheme, and drives frames to a hardware
//! transmit capability while preserving CAN's priority-based arbitration.

use vstd::prelude::*;

pub mod bus;
pub mod can;
pub mod device;
pub mod frame;
pub mod hal;
pub mod handler;
pub mod id;
pub mod message;
pub mod product;
pub mod product_info;
pub mod transport;

pub use bus::{Bus, BusError};
pub use frame::CanFrame;
pub use handler::Handler;
pub use id::{Id, IdError, Priority};
pub use message::{Message, MessageError};
pub use product::Product;

verus! {

/// The broadcast ("global") station address: frames addressed to every
/// station on the bus carry this destination.
pub const GLOBAL_ADDRESS: u8 = 0xff;

} // verus!
