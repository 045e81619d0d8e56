//! Typed register access layer for the BQ2577x battery-charger controller.
//!
//! Every register of the chip is a 16-bit raw value at a fixed one-byte bus
//! address, subdivided into named bit fields: plain integers, two's
//! complement quantities, enumerated settings with chip-defined codes, and
//! reserved bits.  This crate provides, per register, a lossless codec
//! between the raw value and its structured form, and the byte framing of
//! the addressed bus protocol that moves raw values to and from the device.
//!
//! The transport itself (an I2C bus) is outside this crate: a driver built
//! on top of it sends the frames built here and hands received bytes back.

pub mod bits;
pub mod channel;
pub mod registers;
