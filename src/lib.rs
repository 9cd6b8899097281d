//! A player for Serial Vector Format test vectors on a JTAG test access port.
//!
//! The library holds the interpreter's sticky configuration and turns each
//! command into a plan of controller transitions, shifts and idle clocks,
//! which a driver carries out on a cable and checks with [`shift::verify_capture`].
pub mod state;
pub mod error;
pub mod register;
pub mod shift;
pub mod runtest;
pub mod command;
pub mod player;
pub mod driver;
