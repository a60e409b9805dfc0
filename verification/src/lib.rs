//! Driver core for legacy Arducam camera modules (ArduCAM Mini 2MP Plus and
//! relatives): an ArduChip FIFO controller on a register bus and an OV2640
//! sensor on a two-wire sensor bus.
//!
//! The driver performs no I/O itself. Every operation of [`Arducam`] is an
//! [`Exchange`]: it names the next bus [`Action`], takes the environment's
//! answer as an [`Event`], and ends with the operation's [`Outcome`] or with
//! the first [`Error`].

pub mod bus;
pub mod decode;
pub mod driver;
pub mod exchange;
pub mod laws;
pub mod tables;
pub mod types;

pub use bus::{Action, Event};
pub use driver::Arducam;
pub use exchange::{Exchange, Operation, Outcome};
pub use tables::{RegisterTables, TableId};
pub use types::{Error, ImageFormat, Resolution};
