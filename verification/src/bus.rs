//! The boundary between the driver and the hardware: what the driver asks
//! for, one action at a time, and what the environment answers.

use vstd::prelude::*;
use crate::types::Error;

verus! {

/// One request of the driver to whoever owns the buses and the timer.
#[derive(Clone, Copy, Debug, PartialEq, Eq, Structural)]
pub enum Action {
    /// One register-bus transaction: write `addr`, then write `data`.
    RegisterWrite { addr: u8, data: u8 },
    /// One register-bus transaction: write `addr`, then read one byte.
    RegisterRead { addr: u8 },
    /// One register-bus transaction: write `opcode`, then read `len` bytes.
    RegisterBurst { opcode: u8, len: usize },
    /// One register-bus write of the single byte `opcode`.
    RegisterCommand { opcode: u8 },
    /// Sensor-bus write of the two bytes `reg`, `data` to `device`.
    SensorWrite { device: u8, reg: u8, data: u8 },
    /// Sensor-bus write of `reg` to `device`, then a read of `len` bytes.
    SensorRead { device: u8, reg: u8, len: usize },
    /// Block for `ms` milliseconds.
    Delay { ms: u32 },
}

/// The environment's answer to one action.
#[derive(Clone, Debug, PartialEq, Eq)]
pub enum Event {
    /// The action ran to its end; the bytes are those it read, none for an
    /// action that reads nothing.
    Completed(Vec<u8>),
    /// The bus reported a transport failure.
    Failed,
}

impl Action {
    /// Number of bytes that the completed action hands back.
    pub open spec fn spec_reply_len(self) -> nat {
        match self {
            Action::RegisterRead { .. } => 1,
            Action::RegisterBurst { len, .. } => len as nat,
            Action::SensorRead { len, .. } => len as nat,
            _ => 0,
        }
    }

    /// The error that a transport failure of this action is reported as.
    /// A pause uses no bus: a failure reported for one does not fit it.
    pub open spec fn spec_failure(self) -> Error {
        match self {
            Action::RegisterWrite { .. } => Error::Spi,
            Action::RegisterRead { .. } => Error::Spi,
            Action::RegisterBurst { .. } => Error::Spi,
            Action::RegisterCommand { .. } => Error::Spi,
            Action::SensorWrite { .. } => Error::I2c,
            Action::SensorRead { .. } => Error::I2c,
            Action::Delay { .. } => Error::OutOfBounds,
        }
    }

    /// Number of bytes that the completed action hands back.
    pub fn reply_len(&self) -> (len: usize)
        ensures
            len == self.spec_reply_len(),
    {
        match self {
            Action::RegisterRead { .. } => 1,
            Action::RegisterBurst { len, .. } => *len,
            Action::SensorRead { len, .. } => *len,
            _ => 0,
        }
    }

    /// The error that a transport failure of this action is reported as.
    pub fn failure(&self) -> (error: Error)
        ensures
            error == self.spec_failure(),
    {
        match self {
            Action::RegisterWrite { .. } => Error::Spi,
            Action::RegisterRead { .. } => Error::Spi,
            Action::RegisterBurst { .. } => Error::Spi,
            Action::RegisterCommand { .. } => Error::Spi,
            Action::SensorWrite { .. } => Error::I2c,
            Action::SensorRead { .. } => Error::I2c,
            Action::Delay { .. } => Error::OutOfBounds,
        }
    }
}

} // verus!
