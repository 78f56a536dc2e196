//! The hardware abstraction layer: capability traits for CAN controllers.

pub mod can;
