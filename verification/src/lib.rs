//! Builds the fixed 90-byte control packets that drive the illumination
//! zones of a gaming-mouse peripheral: a command header, a per-effect body,
//! zero padding and a single-byte XOR checksum.

pub mod colour;
pub mod message;
pub mod packet;

pub use colour::Colour;
pub use message::{Breath, Brightness, Message, Off, Spectrum, Static, LOGO, SCROLLWHEEL};
pub use packet::pack;

use vstd::prelude::*;

verus! {

/// The ways an operation of this crate can fail.
#[derive(Clone, Copy, Debug, PartialEq, Eq, Structural)]
pub enum Error {
    /// A character in one of the six colour digit positions is not a
    /// hexadecimal digit.
    InvalidHexDigit,
    /// The colour text has fewer than the seven characters the format needs.
    TooShort,
    /// A payload could not be serialized into packet bytes.
    EncodingError,
}

} // verus!
