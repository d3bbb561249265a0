//! Driver logic for the MAX30205 digital temperature sensor.
//!
//! The sensor sits on a two-wire bus and is operated through four registers.
//! This crate decides which bus transactions each operation of the sensor
//! consists of and what follows from the bus's answers; it never touches a bus
//! itself. Every operation is a small state machine: it names the transaction
//! it is waiting for, is resumed with the outcome of that transaction, and then
//! either names the next one or finishes with the operation's result.

pub mod bus;
pub mod config;
pub mod discovery;
pub mod driver;
pub mod init;
pub mod register;
pub mod run;
pub mod temperature;

pub use bus::{Step, Transaction};
pub use driver::MAX30205;
