//! The closed sets the driver works with: errors, resolutions, formats.

use vstd::prelude::*;

verus! {

/// Possible errors which can happen during communication.
#[derive(Clone, Copy, Debug, PartialEq, Eq, Structural)]
pub enum Error {
    /// The register bus reported a failed transaction.
    Spi,
    /// The sensor bus reported a failed transfer.
    I2c,
    /// A pin could not be driven.
    Pin,
    /// A transfer carried a number of bytes other than the one asked for.
    OutOfBounds,
}

/// Image resolutions the sensor can be configured for.
#[derive(Clone, Copy, Debug, PartialEq, Eq, Structural)]
pub enum Resolution {
    Res160x120,
    Res176x144,
    Res320x240,
    Res352x288,
    Res640x480,
    Res800x600,
    Res1024x768,
    Res1280x1024,
    Res1600x1200,
}

/// Image formats which the camera can deliver.
#[derive(Clone, Copy, Debug, PartialEq, Eq, Structural)]
pub enum ImageFormat {
    JPEG,
}

} // verus!
