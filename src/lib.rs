//! A LIN slave node: frame engine, board-specific frame handling, and a
//! One-Wire temperature sensor protocol, with the wire-level logic verified.

pub mod lin_frame;
pub mod ds18b20;
pub mod onewire;
pub mod signals;
pub mod lin_slave_driver;
pub mod lin_slave_handler;
pub mod lin_slave;
pub mod rgb;
pub mod analog;
